use vstd::prelude::*;
use vstd::string::StringExecFns;

verus! {

/// A pair of integer coordinates.
#[derive(Clone, Copy, Debug, PartialEq, Eq, Structural)]
pub struct Vec2 {
    pub x: i32,
    pub y: i32,
}

/// The decimal digit `d`.
pub open spec fn digit_char(d: int) -> char {
    if d == 0 {
        '0'
    } else if d == 1 {
        '1'
    } else if d == 2 {
        '2'
    } else if d == 3 {
        '3'
    } else if d == 4 {
        '4'
    } else if d == 5 {
        '5'
    } else if d == 6 {
        '6'
    } else if d == 7 {
        '7'
    } else if d == 8 {
        '8'
    } else {
        '9'
    }
}

/// The decimal digits of `n`, most significant first, without leading zeros.
pub open spec fn digits(n: nat) -> Seq<char>
    decreases n,
{
    if n < 10 {
        seq![digit_char(n as int)]
    } else {
        digits(n / 10) + seq![digit_char((n % 10) as int)]
    }
}

/// `v` written in decimal, with a leading `-` when negative.
pub open spec fn decimal(v: int) -> Seq<char> {
    if v < 0 {
        seq!['-'] + digits((-v) as nat)
    } else {
        digits(v as nat)
    }
}

fn digit_str(d: u64) -> (s: &'static str)
    requires
        d < 10,
    ensures
        s@ == seq![digit_char(d as int)],
{
    proof {
        reveal_strlit("0");
        reveal_strlit("1");
        reveal_strlit("2");
        reveal_strlit("3");
        reveal_strlit("4");
        reveal_strlit("5");
        reveal_strlit("6");
        reveal_strlit("7");
        reveal_strlit("8");
        reveal_strlit("9");
    }
    if d == 0 {
        "0"
    } else if d == 1 {
        "1"
    } else if d == 2 {
        "2"
    } else if d == 3 {
        "3"
    } else if d == 4 {
        "4"
    } else if d == 5 {
        "5"
    } else if d == 6 {
        "6"
    } else if d == 7 {
        "7"
    } else if d == 8 {
        "8"
    } else {
        "9"
    }
}

fn append_digits(s: &mut String, n: u64)
    ensures
        final(s)@ == old(s)@ + digits(n as nat),
    decreases n,
{
    if n >= 10 {
        append_digits(s, n / 10);
    }
    s.append(digit_str(n % 10));
    proof {
        if n >= 10 {
            assert(final(s)@ =~= old(s)@ + digits(n as nat));
        }
    }
}

fn append_decimal(s: &mut String, v: i32)
    ensures
        final(s)@ == old(s)@ + decimal(v as int),
{
    if v < 0 {
        proof {
            reveal_strlit("-");
        }
        s.append("-");
        append_digits(s, (-(v as i64)) as u64);
        assert(s@ =~= old(s)@ + decimal(v as int));
    } else {
        append_digits(s, v as u64);
    }
}

impl Vec2 {
    pub fn new(x: i32, y: i32) -> (v: Vec2)
        ensures
            v == (Vec2 { x, y }),
    {
        Vec2 { x, y }
    }

    /// The coordinates as `x,y` in decimal.
    pub fn string(self) -> (s: String)
        ensures
            s@ == decimal(self.x as int) + seq![','] + decimal(self.y as int),
    {
        let mut s = String::new();
        append_decimal(&mut s, self.x);
        proof {
            reveal_strlit(",");
        }
        s.append(",");
        append_decimal(&mut s, self.y);
        s
    }
}

/// A coordinate sum or product fits an `i32`.
pub open spec fn fits_i32(v: int) -> bool {
    i32::MIN <= v <= i32::MAX
}

impl vstd::std_specs::ops::AddSpecImpl<Vec2> for Vec2 {
    open spec fn obeys_add_spec() -> bool {
        true
    }

    open spec fn add_req(self, rhs: Vec2) -> bool {
        fits_i32(self.x + rhs.x) && fits_i32(self.y + rhs.y)
    }

    open spec fn add_spec(self, rhs: Vec2) -> Vec2 {
        Vec2 { x: (self.x + rhs.x) as i32, y: (self.y + rhs.y) as i32 }
    }
}

impl std::ops::Add<Vec2> for Vec2 {
    type Output = Vec2;

    fn add(self, other: Vec2) -> Vec2 {
        Vec2::new(self.x + other.x, self.y + other.y)
    }
}

impl vstd::std_specs::ops::SubSpecImpl<Vec2> for Vec2 {
    open spec fn obeys_sub_spec() -> bool {
        true
    }

    open spec fn sub_req(self, rhs: Vec2) -> bool {
        fits_i32(self.x - rhs.x) && fits_i32(self.y - rhs.y)
    }

    open spec fn sub_spec(self, rhs: Vec2) -> Vec2 {
        Vec2 { x: (self.x - rhs.x) as i32, y: (self.y - rhs.y) as i32 }
    }
}

impl std::ops::Sub<Vec2> for Vec2 {
    type Output = Vec2;

    fn sub(self, other: Vec2) -> Vec2 {
        Vec2::new(self.x - other.x, self.y - other.y)
    }
}

impl vstd::std_specs::ops::MulSpecImpl<Vec2> for Vec2 {
    open spec fn obeys_mul_spec() -> bool {
        true
    }

    open spec fn mul_req(self, rhs: Vec2) -> bool {
        fits_i32(self.x * rhs.x) && fits_i32(self.y * rhs.y)
    }

    open spec fn mul_spec(self, rhs: Vec2) -> Vec2 {
        Vec2 { x: (self.x * rhs.x) as i32, y: (self.y * rhs.y) as i32 }
    }
}

impl std::ops::Mul<Vec2> for Vec2 {
    type Output = Vec2;

    fn mul(self, other: Vec2) -> Vec2 {
        Vec2::new(self.x * other.x, self.y * other.y)
    }
}

impl vstd::std_specs::ops::MulSpecImpl<i32> for Vec2 {
    open spec fn obeys_mul_spec() -> bool {
        true
    }

    open spec fn mul_req(self, rhs: i32) -> bool {
        fits_i32(self.x * rhs) && fits_i32(self.y * rhs)
    }

    open spec fn mul_spec(self, rhs: i32) -> Vec2 {
        Vec2 { x: (self.x * rhs) as i32, y: (self.y * rhs) as i32 }
    }
}

impl std::ops::Mul<i32> for Vec2 {
    type Output = Vec2;

    fn mul(self, other: i32) -> Vec2 {
        Vec2::new(self.x * other, self.y * other)
    }
}

} // verus!
