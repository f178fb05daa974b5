use physarum::vec2::Vec2;

#[test]
fn vec2_string_is_decimal_pair() {
    assert_eq!(Vec2::new(3, 4).string(), "3,4");
    assert_eq!(Vec2::new(-12, 0).string(), "-12,0");
    assert_eq!(Vec2::new(i32::MIN, i32::MAX).string(), "-2147483648,2147483647");
    assert_eq!(Vec2::new(1920, 1080).string(), format!("{:?},{:?}", 1920, 1080));
}

#[test]
fn vec2_arithmetic() {
    let a = Vec2::new(3, -4);
    let b = Vec2::new(5, 6);
    assert_eq!(a + b, Vec2::new(8, 2));
    assert_eq!(a - b, Vec2::new(-2, -10));
    assert_eq!(a * b, Vec2::new(15, -24));
    assert_eq!(a * 3, Vec2::new(9, -12));
}
