use abibool::bool32;
use abibool::bool8;

#[test]
fn renders_as_native_boolean() {
    let n = bool8::from(42u8);
    let w = bool32::from(42i32);
    assert_eq!(format!("{}", n), "true");
    assert_eq!(format!("{:?}", n), "true");
    assert_eq!(format!("{}", w), "true");
    assert_eq!(format!("{:?}", w), "true");
    assert_eq!(format!("{}", n), format!("{}", true));
    assert_eq!(format!("{:?}", n), format!("{:?}", true));
    assert_eq!(format!("{}", w), format!("{}", true));
    assert_eq!(format!("{:?}", w), format!("{:?}", true));
    assert_ne!(format!("{}", n), "42");
}

#[test]
fn renders_false_for_zero() {
    assert_eq!(format!("{}", bool8::from(0u8)), "false");
    assert_eq!(format!("{:?}", bool8::from(0u8)), "false");
    assert_eq!(format!("{}", bool32::from(0i32)), "false");
    assert_eq!(format!("{:?}", bool32::from(0i32)), "false");
    assert_eq!(format!("{}", bool8::FALSE()), format!("{}", false));
    assert_eq!(format!("{}", bool32::default()), format!("{}", false));
}

#[test]
fn rendering_honours_width_as_the_native_boolean_does() {
    assert_eq!(format!("{:>7}", bool8::from(3u8)), format!("{:>7}", true));
    assert_eq!(format!("{:<7}|", bool32::from(0i32)), format!("{:<7}|", false));
    assert_eq!(format!("{:>7}", bool8::from(3u8)), "   true");
}

#[test]
fn to_string_gives_true_or_false() {
    assert_eq!(bool8::from(42u8).to_string(), "true");
    assert_eq!(bool8::from(0u8).to_string(), "false");
    assert_eq!(bool32::from(-1i32).to_string(), "true");
    assert_eq!(bool32::from(0i32).to_string(), "false");
}
