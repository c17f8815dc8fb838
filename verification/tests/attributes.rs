use gloof::glx::api::{
    glXGetClientString, glXGetFBConfigAttrib, glXQueryServerString, is_screen, to_bits, tristate,
    AttribError, FBConfigAttrib, FBConfigAttribs, VisualAttrib, VisualAttribs, COLOR_CHANNEL_DEPTH,
    COLOR_DEPTH, GLX_DONT_CARE, GLX_EXTENSIONS, GLX_NONE, GLX_RGBA_BIT, GLX_VENDOR, GLX_VERSION,
    GLX_WINDOW_BIT,
};

#[test]
fn a_signed_number_keeps_its_bits() {
    assert_eq!(to_bits(0), 0);
    assert_eq!(to_bits(5), 5);
    assert_eq!(to_bits(i32::MAX), 0x7FFF_FFFF);
    assert_eq!(to_bits(-1), 0xFFFF_FFFF);
    assert_eq!(to_bits(i32::MIN), 0x8000_0000);
}

#[test]
fn a_truth_value_is_true_false_or_open() {
    assert_eq!(tristate(1), Ok(Some(true)));
    assert_eq!(tristate(0), Ok(Some(false)));
    assert_eq!(tristate(GLX_DONT_CARE), Ok(None));
    assert_eq!(tristate(2), Err(AttribError::InvalidBool(2)));
    assert_eq!(tristate(-2), Err(AttribError::InvalidBool(-2)));
}

#[test]
fn a_visual_attribute_is_read_from_its_number() {
    assert_eq!(VisualAttrib::parse(0x01, 77), Ok(VisualAttrib::GLX_USE_GL(true)));
    assert_eq!(VisualAttrib::parse(0x04, 0), Ok(VisualAttrib::GLX_RGBA(true)));
    assert_eq!(VisualAttrib::parse(0x05, 0), Ok(VisualAttrib::GLX_DOUBLEBUFFER(true)));
    assert_eq!(VisualAttrib::parse(0x06, 0), Ok(VisualAttrib::GLX_STEREO(true)));
    assert_eq!(VisualAttrib::parse(0x08, 5), Ok(VisualAttrib::GLX_RED_SIZE(5)));
    assert_eq!(VisualAttrib::parse(0x0c, 16), Ok(VisualAttrib::GLX_DEPTH_SIZE(16)));
    assert_eq!(VisualAttrib::parse(0x11, -3), Ok(VisualAttrib::GLX_ACCUM_ALPHA_SIZE(-3)));
    assert_eq!(VisualAttrib::parse(0x8013, 9), Ok(VisualAttrib::GLX_FBCONFIG_ID(9)));
    assert_eq!(VisualAttrib::parse(0x8011, 1), Err(AttribError::InvalidAttribute(0x8011)));
    assert_eq!(VisualAttrib::parse(0x12, 1), Err(AttribError::InvalidAttribute(0x12)));
    assert_eq!(VisualAttrib::parse(0, 1), Err(AttribError::InvalidAttribute(0)));
}

#[test]
fn a_visual_attribute_takes_a_value_unless_it_is_a_truth_value() {
    assert_eq!(VisualAttrib::takes_value(0x01), Some(false));
    assert_eq!(VisualAttrib::takes_value(0x04), Some(false));
    assert_eq!(VisualAttrib::takes_value(0x05), Some(false));
    assert_eq!(VisualAttrib::takes_value(0x06), Some(false));
    assert_eq!(VisualAttrib::takes_value(0x02), Some(true));
    assert_eq!(VisualAttrib::takes_value(0x8013), Some(true));
    assert_eq!(VisualAttrib::takes_value(0x20), None);
    assert_eq!(VisualAttrib::takes_value(-1), None);
}

#[test]
fn attributes_have_their_names() {
    assert_eq!(VisualAttrib::GLX_USE_GL(true).name(), "GLX_USE_GL");
    assert_eq!(VisualAttrib::GLX_ACCUM_BLUE_SIZE(0).name(), "GLX_ACCUM_BLUE_SIZE");
    assert_eq!(FBConfigAttrib::GLX_X_RENDERABLE(None).name(), "GLX_X_RENDERABLE");
    assert_eq!(FBConfigAttrib::GLX_TRANSPARENT_TYPE(0).name(), "GLX_TRANSPARENT_TYPE");
}

#[test]
fn a_visual_list_is_read_up_to_its_zero() {
    let list = [0x04, 0x05, 0x08, 1, 0x09, 1, 0x0a, 1, 0x0c, 16, 0, 0x06, 99];
    assert_eq!(
        VisualAttrib::parse_list(&list),
        Ok(vec![
            VisualAttrib::GLX_RGBA(true),
            VisualAttrib::GLX_DOUBLEBUFFER(true),
            VisualAttrib::GLX_RED_SIZE(1),
            VisualAttrib::GLX_GREEN_SIZE(1),
            VisualAttrib::GLX_BLUE_SIZE(1),
            VisualAttrib::GLX_DEPTH_SIZE(16),
        ])
    );
    assert_eq!(VisualAttrib::parse_list(&[0]), Ok(vec![]));
    assert_eq!(
        VisualAttrib::parse_list(&[0x0d, 0, 0]),
        Ok(vec![VisualAttrib::GLX_STENCIL_SIZE(0)])
    );
}

#[test]
fn a_list_that_is_wrong_is_refused_for_the_first_thing_wrong() {
    assert_eq!(VisualAttrib::parse_list(&[]), Err(AttribError::Truncated));
    assert_eq!(VisualAttrib::parse_list(&[0x04]), Err(AttribError::Truncated));
    assert_eq!(VisualAttrib::parse_list(&[0x08]), Err(AttribError::Truncated));
    assert_eq!(VisualAttrib::parse_list(&[0x08, 0]), Err(AttribError::Truncated));
    assert_eq!(
        VisualAttrib::parse_list(&[0x04, 0x99, 0]),
        Err(AttribError::InvalidAttribute(0x99))
    );
    assert_eq!(
        VisualAttrib::parse_list(&[0x8010, 1, 0]),
        Err(AttribError::InvalidAttribute(0x8010))
    );
    assert_eq!(FBConfigAttrib::parse_list(&[]), Err(AttribError::Truncated));
    assert_eq!(FBConfigAttrib::parse_list(&[0x05]), Err(AttribError::Truncated));
    assert_eq!(
        FBConfigAttrib::parse_list(&[0x05, 1, 0x06, 7, 0x01, 0]),
        Err(AttribError::InvalidBool(7))
    );
    assert_eq!(
        FBConfigAttrib::parse_list(&[0x05, 1, 0x01, 1, 0]),
        Err(AttribError::InvalidAttribute(0x01))
    );
    assert_eq!(
        FBConfigAttrib::parse_list(&[0x04, 0]),
        Err(AttribError::InvalidAttribute(0x04))
    );
}

#[test]
fn a_configuration_attribute_is_read_from_its_number_and_value() {
    assert_eq!(FBConfigAttrib::parse(0x05, 1), Ok(FBConfigAttrib::GLX_DOUBLEBUFFER(Some(true))));
    assert_eq!(FBConfigAttrib::parse(0x05, 0), Ok(FBConfigAttrib::GLX_DOUBLEBUFFER(Some(false))));
    assert_eq!(FBConfigAttrib::parse(0x05, -1), Ok(FBConfigAttrib::GLX_DOUBLEBUFFER(None)));
    assert_eq!(FBConfigAttrib::parse(0x05, 2), Err(AttribError::InvalidBool(2)));
    assert_eq!(FBConfigAttrib::parse(0x06, 1), Ok(FBConfigAttrib::GLX_STEREO(Some(true))));
    assert_eq!(FBConfigAttrib::parse(0x8012, -1), Ok(FBConfigAttrib::GLX_X_RENDERABLE(None)));
    assert_eq!(FBConfigAttrib::parse(0x8011, 3), Ok(FBConfigAttrib::GLX_RENDER_TYPE(3)));
    assert_eq!(FBConfigAttrib::parse(0x8010, 7), Ok(FBConfigAttrib::GLX_DRAWABLE_TYPE(7)));
    assert_eq!(
        FBConfigAttrib::parse(0x20, GLX_DONT_CARE),
        Ok(FBConfigAttrib::GLX_CONFIG_CAVEAT(0xFFFF_FFFF))
    );
    assert_eq!(
        FBConfigAttrib::parse(0x23, GLX_NONE),
        Ok(FBConfigAttrib::GLX_TRANSPARENT_TYPE(0x8000))
    );
    assert_eq!(FBConfigAttrib::parse(0x22, 0x8002), Ok(FBConfigAttrib::GLX_X_VISUAL_TYPE(0x8002)));
    assert_eq!(FBConfigAttrib::parse(0x28, -1), Ok(FBConfigAttrib::GLX_TRANSPARENT_ALPHA_VALUE(-1)));
    assert_eq!(FBConfigAttrib::parse(0x01, 1), Err(AttribError::InvalidAttribute(0x01)));
    assert_eq!(FBConfigAttrib::parse(0x04, 1), Err(AttribError::InvalidAttribute(0x04)));
    assert_eq!(FBConfigAttrib::parse(0x21, 1), Err(AttribError::InvalidAttribute(0x21)));
    assert_eq!(FBConfigAttrib::takes_value(0x05), Some(true));
    assert_eq!(FBConfigAttrib::takes_value(0x8013), Some(true));
    assert_eq!(FBConfigAttrib::takes_value(0x01), None);
}

#[test]
fn a_configuration_list_is_read_up_to_its_zero() {
    let list = [0x8012, 1, 0x8010, 1, 0x8011, 1, 0x22, 0x8002, 0x08, 8, 0x05, 1, 0];
    assert_eq!(
        FBConfigAttrib::parse_list(&list),
        Ok(vec![
            FBConfigAttrib::GLX_X_RENDERABLE(Some(true)),
            FBConfigAttrib::GLX_DRAWABLE_TYPE(1),
            FBConfigAttrib::GLX_RENDER_TYPE(1),
            FBConfigAttrib::GLX_X_VISUAL_TYPE(0x8002),
            FBConfigAttrib::GLX_RED_SIZE(8),
            FBConfigAttrib::GLX_DOUBLEBUFFER(Some(true)),
        ])
    );
}

#[test]
fn a_visual_has_its_defaults_where_the_list_says_nothing() {
    let values = VisualAttribs::default();
    assert!(values.GLX_USE_GL);
    assert!(!values.GLX_RGBA);
    assert!(!values.GLX_STEREO);
    assert!(!values.GLX_DOUBLEBUFFER);
    assert_eq!(values.GLX_FBCONFIG_ID, -1);
    assert_eq!(values.GLX_BUFFER_SIZE, 0);
    assert_eq!(values.GLX_LEVEL, 0);
    assert_eq!(values.GLX_DEPTH_SIZE, 0);
    assert_eq!(values.GLX_ACCUM_ALPHA_SIZE, 0);
    assert_eq!(VisualAttribs::from_attribs(&[]), values);
}

#[test]
fn a_configuration_has_its_defaults_where_the_list_says_nothing() {
    let values = FBConfigAttribs::default();
    assert_eq!(values.GLX_FBCONFIG_ID, GLX_DONT_CARE);
    assert_eq!(values.GLX_BUFFER_SIZE, 0);
    assert_eq!(values.GLX_DOUBLEBUFFER, None);
    assert_eq!(values.GLX_STEREO, Some(false));
    assert_eq!(values.GLX_RENDER_TYPE, GLX_RGBA_BIT as u32);
    assert_eq!(values.GLX_DRAWABLE_TYPE, GLX_WINDOW_BIT as u32);
    assert_eq!(values.GLX_X_RENDERABLE, None);
    assert_eq!(values.GLX_X_VISUAL_TYPE, GLX_DONT_CARE);
    assert_eq!(values.GLX_CONFIG_CAVEAT, GLX_DONT_CARE as u32);
    assert_eq!(values.GLX_TRANSPARENT_TYPE, GLX_NONE as u32);
    assert_eq!(values.GLX_TRANSPARENT_INDEX_VALUE, GLX_DONT_CARE);
    assert_eq!(values.GLX_TRANSPARENT_RED_VALUE, GLX_DONT_CARE);
    assert_eq!(values.GLX_TRANSPARENT_GREEN_VALUE, GLX_DONT_CARE);
    assert_eq!(values.GLX_TRANSPARENT_BLUE_VALUE, GLX_DONT_CARE);
    assert_eq!(values.GLX_TRANSPARENT_ALPHA_VALUE, GLX_DONT_CARE);
    assert_eq!(values.GLX_ACCUM_RED_SIZE, 0);
    assert_eq!(FBConfigAttribs::from_attribs(&[]), values);
}

#[test]
fn of_two_values_for_one_attribute_the_later_stays() {
    let values = VisualAttribs::from_attribs(&[
        VisualAttrib::GLX_RED_SIZE(4),
        VisualAttrib::GLX_RGBA(true),
        VisualAttrib::GLX_RED_SIZE(8),
        VisualAttrib::GLX_DEPTH_SIZE(24),
    ]);
    let expected = VisualAttribs {
        GLX_RGBA: true,
        GLX_RED_SIZE: 8,
        GLX_DEPTH_SIZE: 24,
        ..VisualAttribs::default()
    };
    assert_eq!(values, expected);

    let mut config = FBConfigAttribs::default();
    config.set(FBConfigAttrib::GLX_STEREO(None));
    assert_eq!(config.GLX_STEREO, None);
    config.extend(&[
        FBConfigAttrib::GLX_STEREO(Some(true)),
        FBConfigAttrib::GLX_RENDER_TYPE(2),
        FBConfigAttrib::GLX_STEREO(Some(false)),
        FBConfigAttrib::GLX_FBCONFIG_ID(12),
    ]);
    let expected = FBConfigAttribs {
        GLX_STEREO: Some(false),
        GLX_RENDER_TYPE: 2,
        GLX_FBCONFIG_ID: 12,
        ..FBConfigAttribs::default()
    };
    assert_eq!(config, expected);
}

#[test]
fn the_one_configuration_answers_for_its_attributes() {
    assert_eq!(COLOR_DEPTH, 24);
    assert_eq!(COLOR_CHANNEL_DEPTH, 8);
    assert_eq!(glXGetFBConfigAttrib(0x8013), Ok(Some(0)));
    assert_eq!(glXGetFBConfigAttrib(0x02), Ok(Some(24)));
    assert_eq!(glXGetFBConfigAttrib(0x05), Ok(Some(1)));
    assert_eq!(glXGetFBConfigAttrib(0x06), Ok(Some(0)));
    assert_eq!(glXGetFBConfigAttrib(0x07), Ok(Some(0)));
    assert_eq!(glXGetFBConfigAttrib(0x08), Ok(Some(8)));
    assert_eq!(glXGetFBConfigAttrib(0x09), Ok(Some(8)));
    assert_eq!(glXGetFBConfigAttrib(0x0a), Ok(Some(8)));
    assert_eq!(glXGetFBConfigAttrib(0x0b), Ok(Some(8)));
    assert_eq!(glXGetFBConfigAttrib(0x0c), Ok(Some(16)));
    assert_eq!(glXGetFBConfigAttrib(0x0d), Ok(Some(0)));
    assert_eq!(glXGetFBConfigAttrib(0x0e), Ok(Some(0)));
    assert_eq!(glXGetFBConfigAttrib(0x11), Ok(Some(0)));
    assert_eq!(glXGetFBConfigAttrib(0x8011), Ok(Some(1)));
    assert_eq!(glXGetFBConfigAttrib(0x8010), Ok(Some(1)));
    assert_eq!(glXGetFBConfigAttrib(0x03), Ok(None));
    assert_eq!(glXGetFBConfigAttrib(0x8012), Ok(None));
    assert_eq!(glXGetFBConfigAttrib(0x22), Ok(None));
    assert_eq!(glXGetFBConfigAttrib(0x28), Ok(None));
    assert_eq!(glXGetFBConfigAttrib(0x01), Err(AttribError::InvalidAttribute(0x01)));
    assert_eq!(glXGetFBConfigAttrib(0), Err(AttribError::InvalidAttribute(0)));
    assert_eq!(FBConfigAttrib::GLX_LEVEL(3).config_value(), None);
    assert_eq!(FBConfigAttrib::GLX_DEPTH_SIZE(99).config_value(), Some(16));
}

#[test]
fn client_and_server_answer_with_the_same_strings() {
    assert_eq!(glXGetClientString(GLX_VENDOR), Some("glOOF"));
    assert_eq!(glXGetClientString(GLX_VERSION), Some("0.1"));
    assert_eq!(glXGetClientString(GLX_EXTENSIONS), Some(""));
    assert_eq!(glXGetClientString(0), None);
    assert_eq!(glXGetClientString(4), None);
    assert!(is_screen(0));
    assert!(!is_screen(1));
    assert!(!is_screen(-1));
    for name in [GLX_VENDOR, GLX_VERSION, GLX_EXTENSIONS, 4] {
        assert_eq!(glXQueryServerString(0, name), glXGetClientString(name));
    }
}
