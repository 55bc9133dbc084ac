use river::mode::{parse_mode, ConfigError, RenderMode};

#[test]
fn every_mode_name_resolves() {
    assert_eq!(parse_mode("pound"), Ok(RenderMode::Monochrome));
    assert_eq!(parse_mode("ascii"), Ok(RenderMode::GrayRamp9));
    assert_eq!(parse_mode("ascii-simple"), Ok(RenderMode::GrayRamp5));
    assert_eq!(parse_mode("8colors"), Ok(RenderMode::Ansi8));
    assert_eq!(parse_mode("16colors"), Ok(RenderMode::Ansi16));
    assert_eq!(parse_mode("256colors"), Ok(RenderMode::Ansi256));
    assert_eq!(parse_mode("truecolor"), Ok(RenderMode::Truecolor));
}

#[test]
fn names_outside_the_set_are_rejected() {
    assert_eq!(parse_mode("sepia"), Err(ConfigError::UnknownMode));
    assert_eq!(parse_mode(""), Err(ConfigError::UnknownMode));
    assert_eq!(parse_mode("asciiart"), Err(ConfigError::UnknownMode));
    assert_eq!(parse_mode("asci"), Err(ConfigError::UnknownMode));
}

#[test]
fn mode_names_are_case_sensitive() {
    assert_eq!(parse_mode("POUND"), Err(ConfigError::UnknownMode));
    assert_eq!(parse_mode("TrueColor"), Err(ConfigError::UnknownMode));
}
