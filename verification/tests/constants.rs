use gloof::gl::constants::Enum;

#[test]
fn recognises_the_first_and_the_last_constant() {
    assert_eq!(Enum::try_from(0x0000), Ok(Enum::POINTS));
    assert_eq!(Enum::try_from(0x4007), Ok(Enum::LIGHT7));
}

#[test]
fn recognises_constants_across_the_table() {
    assert_eq!(Enum::try_from(0x0104), Ok(Enum::ADD));
    assert_eq!(Enum::try_from(0x0B31), Ok(Enum::MAX_LIST_NESTING));
    assert_eq!(Enum::try_from(0x0DE1), Ok(Enum::TEXTURE_2D));
    assert_eq!(Enum::try_from(0x1300), Ok(Enum::COMPILE));
    assert_eq!(Enum::try_from(0x1301), Ok(Enum::COMPILE_AND_EXECUTE));
    assert_eq!(Enum::try_from(0x1700), Ok(Enum::MODELVIEW));
    assert_eq!(Enum::try_from(0x1701), Ok(Enum::PROJECTION));
    assert_eq!(Enum::try_from(0x2901), Ok(Enum::REPEAT));
}

#[test]
fn hands_back_a_number_that_no_constant_has() {
    assert_eq!(Enum::try_from(0x000A), Err(0x000A));
    assert_eq!(Enum::try_from(0x1002), Err(0x1002));
    assert_eq!(Enum::try_from(0x4008), Err(0x4008));
    assert_eq!(Enum::try_from(u32::MAX), Err(u32::MAX));
}

#[test]
fn gives_each_constant_its_number() {
    assert_eq!(Enum::POINTS.to_u32(), 0x0000);
    assert_eq!(Enum::POLYGON.to_u32(), 0x0009);
    assert_eq!(Enum::TEXTURE_COMPONENTS.to_u32(), 0x1003);
    assert_eq!(Enum::AMBIENT_AND_DIFFUSE.to_u32(), 0x1602);
    assert_eq!(Enum::LIGHT7.to_u32(), 0x4007);
}

#[test]
fn finds_every_constant_again_from_its_number() {
    let mut found: u32 = 0;
    let mut value: u32 = 0;
    while value <= 0x4100 {
        if let Ok(e) = Enum::try_from(value) {
            assert_eq!(e.to_u32(), value);
            found += 1;
        }
        value += 1;
    }
    assert_eq!(found, 397);
}
