use vstd::prelude::*;
use crate::config::{ConfigProblem, SetupError};
use crate::units::{ANGLE_STEPS, UNIT};

verus! {

/// The direction vector of every heading: entry `a` is
/// `(cos, sin)` of heading `a`, scaled by `UNIT`.
pub struct Compass {
    pub directions: Vec<(i32, i32)>,
}

/// One table entry is acceptable: each component lies in `[-UNIT, UNIT]`.
pub open spec fn direction_ok(d: (i32, i32)) -> bool {
    &&& -(UNIT as int) <= d.0 <= UNIT
    &&& -(UNIT as int) <= d.1 <= UNIT
}

/// A table with one acceptable entry per heading.
pub open spec fn directions_ok(ds: Seq<(i32, i32)>) -> bool {
    &&& ds.len() == ANGLE_STEPS
    &&& forall|i: int| 0 <= i < ds.len() ==> direction_ok(#[trigger] ds[i])
}

impl Compass {
    pub open spec fn wf(&self) -> bool {
        directions_ok(self.directions@)
    }

    /// A compass over the given table, which must hold one acceptable entry
    /// per heading.
    pub fn new(directions: Vec<(i32, i32)>) -> (r: Result<Compass, SetupError>)
        ensures
            directions_ok(directions@) ==> r == Ok::<Compass, SetupError>(Compass { directions }),
            !directions_ok(directions@) ==> r == Err::<Compass, SetupError>(
                SetupError::Configuration(ConfigProblem::Compass),
            ),
    {
        if directions.len() != ANGLE_STEPS as usize {
            return Err(SetupError::Configuration(ConfigProblem::Compass));
        }
        let unit = UNIT as i32;
        let mut i: usize = 0;
        while i < directions.len()
            invariant
                i <= directions@.len(),
                unit == UNIT,
                forall|j: int| 0 <= j < i ==> direction_ok(#[trigger] directions@[j]),
            decreases directions@.len() - i,
        {
            let (dx, dy) = directions[i];
            if dx < -unit || dx > unit || dy < -unit || dy > unit {
                assert(!direction_ok(directions@[i as int]));
                return Err(SetupError::Configuration(ConfigProblem::Compass));
            }
            i = i + 1;
        }
        Ok(Compass { directions })
    }

    /// The direction vector of heading `angle`.
    pub fn direction(&self, angle: u32) -> (d: (i32, i32))
        requires
            self.wf(),
            angle < ANGLE_STEPS,
        ensures
            d == self.directions@[angle as int],
            direction_ok(d),
    {
        self.directions[angle as usize]
    }
}

} // verus!
