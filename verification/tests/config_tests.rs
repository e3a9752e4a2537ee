use obs_reminder::config::{
    hex_to_rgb, is_valid_hex_color, rgb_to_hex, Config, ContentSwitchMode, ToastDirection,
};

fn valid_config() -> Config {
    Config::default()
}

#[test]
fn default_configuration_has_the_documented_values() {
    let config = Config::default();
    assert_eq!(config.app.version, "0.0.1");
    assert_eq!(config.toaster.titles, vec!["提醒标题1".to_string(), "提醒标题2".to_string()]);
    assert_eq!(config.toaster.contents, vec!["提醒内容1".to_string(), "提醒内容2".to_string()]);
    assert_eq!(config.toaster.interval_time, 5);
    assert_eq!(config.toaster.duration, 5);
    assert_eq!(config.toaster.color_1, "#FF6B6B");
    assert_eq!(config.toaster.color_2, "#4ECDC4");
    assert_eq!(config.toaster.text_color, "#FFFFFF");
    assert_eq!(config.toaster.content_switch_mode, ContentSwitchMode::Random);
    assert_eq!(config.toaster.toast_direction, ToastDirection::Top);
    assert!(!config.toaster.enable_sound);
    assert_eq!(config.toaster.sound_file_id, None);
    assert_eq!(config.toaster.sound_file_name, None);
}

#[test]
fn default_configuration_is_valid() {
    assert_eq!(Config::default().validate(), Ok(()));
}

#[test]
fn interval_zero_is_rejected() {
    let mut config = valid_config();
    config.toaster.interval_time = 0;
    assert_eq!(
        config.validate(),
        Err("Interval time must be between 1 and 1440 minutes".to_string())
    );
}

#[test]
fn interval_above_a_day_is_rejected() {
    let mut config = valid_config();
    config.toaster.interval_time = 1441;
    assert_eq!(
        config.validate(),
        Err("Interval time must be between 1 and 1440 minutes".to_string())
    );
}

#[test]
fn interval_bounds_are_accepted() {
    let mut config = valid_config();
    config.toaster.interval_time = 1;
    assert!(config.validate().is_ok());
    config.toaster.interval_time = 1440;
    assert!(config.validate().is_ok());
    config.toaster.interval_time = 720;
    assert!(config.validate().is_ok());
}

#[test]
fn duration_zero_is_rejected() {
    let mut config = valid_config();
    config.toaster.duration = 0;
    assert_eq!(
        config.validate(),
        Err("Toast duration must be between 1 and 60 seconds".to_string())
    );
}

#[test]
fn duration_above_a_minute_is_rejected() {
    let mut config = valid_config();
    config.toaster.duration = 61;
    assert_eq!(
        config.validate(),
        Err("Toast duration must be between 1 and 60 seconds".to_string())
    );
}

#[test]
fn duration_bounds_are_accepted() {
    let mut config = valid_config();
    config.toaster.duration = 1;
    assert!(config.validate().is_ok());
    config.toaster.duration = 60;
    assert!(config.validate().is_ok());
}

#[test]
fn missing_titles_are_rejected_first() {
    let mut config = valid_config();
    config.toaster.titles.clear();
    config.toaster.contents.clear();
    config.toaster.interval_time = 0;
    assert_eq!(config.validate(), Err("At least one title is required".to_string()));
}

#[test]
fn missing_contents_are_rejected() {
    let mut config = valid_config();
    config.toaster.contents.clear();
    assert_eq!(config.validate(), Err("At least one content is required".to_string()));
}

#[test]
fn malformed_colors_are_rejected() {
    assert!(!is_valid_hex_color("#ZZZZZZ"));
    assert!(!is_valid_hex_color("123456"));
    assert!(!is_valid_hex_color("#FFF"));
    assert!(!is_valid_hex_color(""));
    assert!(!is_valid_hex_color("#"));
    assert!(!is_valid_hex_color("#FF6B6B0"));
    assert!(!is_valid_hex_color("FF6B6B#"));
    assert!(!is_valid_hex_color("#FF6B6G"));
    assert!(!is_valid_hex_color("#+F6B6B"));
    assert!(!is_valid_hex_color("#é1234"));
    assert!(!is_valid_hex_color("#ééé123"));
}

#[test]
fn well_formed_colors_are_accepted() {
    assert!(is_valid_hex_color("#FF6B6B"));
    assert!(is_valid_hex_color("#4ecdc4"));
    assert!(is_valid_hex_color("#000000"));
    assert!(is_valid_hex_color("#aBcDeF"));
    assert!(is_valid_hex_color("#012345"));
    assert!(is_valid_hex_color("#6789af"));
}

#[test]
fn each_color_field_has_its_own_message() {
    let mut config = valid_config();
    config.toaster.color_1 = "#ZZZZZZ".to_string();
    assert_eq!(config.validate(), Err("Invalid hex color format for color_1".to_string()));
    let mut config = valid_config();
    config.toaster.color_2 = "123456".to_string();
    assert_eq!(config.validate(), Err("Invalid hex color format for color_2".to_string()));
    let mut config = valid_config();
    config.toaster.text_color = "#FFF".to_string();
    assert_eq!(config.validate(), Err("Invalid hex color format for text_color".to_string()));
}

#[test]
fn a_valid_loaded_configuration_is_kept() {
    let mut config = valid_config();
    config.toaster.interval_time = 42;
    config.toaster.titles = vec!["only".to_string()];
    let (chosen, write_default) = Config::load_or_create_default(Some(config));
    assert!(!write_default);
    assert_eq!(chosen.toaster.interval_time, 42);
    assert_eq!(chosen.toaster.titles, vec!["only".to_string()]);
}

#[test]
fn an_invalid_loaded_configuration_gives_way_to_the_default() {
    let mut config = valid_config();
    config.toaster.interval_time = 0;
    config.toaster.titles = vec!["only".to_string()];
    let (chosen, write_default) = Config::load_or_create_default(Some(config));
    assert!(write_default);
    assert_eq!(chosen.toaster.interval_time, 5);
    assert_eq!(chosen.toaster.titles.len(), 2);
}

#[test]
fn a_missing_configuration_gives_the_default() {
    let (chosen, write_default) = Config::load_or_create_default(None);
    assert!(write_default);
    assert_eq!(chosen.toaster.color_1, "#FF6B6B");
    assert!(chosen.validate().is_ok());
}

#[test]
fn colors_are_read_as_three_bytes() {
    assert_eq!(hex_to_rgb("#FF6B6B"), (255, 107, 107));
    assert_eq!(hex_to_rgb("#4ECDC4"), (78, 205, 196));
    assert_eq!(hex_to_rgb("#000000"), (0, 0, 0));
    assert_eq!(hex_to_rgb("#ffffff"), (255, 255, 255));
    assert_eq!(hex_to_rgb("#0a1B2c"), (10, 27, 44));
}

#[test]
fn a_text_that_is_no_color_reads_as_the_fallback() {
    assert_eq!(hex_to_rgb(""), (255, 107, 107));
    assert_eq!(hex_to_rgb("123456"), (255, 107, 107));
    assert_eq!(hex_to_rgb("#FFF"), (255, 107, 107));
    assert_eq!(hex_to_rgb("#GG0000"), (255, 107, 107));
    assert_eq!(hex_to_rgb("#00000"), (255, 107, 107));
    assert_eq!(hex_to_rgb("#0000000"), (255, 107, 107));
}

#[test]
fn a_plus_sign_counts_as_a_leading_zero() {
    assert_eq!(hex_to_rgb("#+F+a+0"), (15, 10, 0));
    assert_eq!(hex_to_rgb("#F+0000"), (255, 107, 107));
}

#[test]
fn colors_are_written_in_upper_case() {
    assert_eq!(rgb_to_hex(255, 107, 107), "#FF6B6B");
    assert_eq!(rgb_to_hex(0, 0, 0), "#000000");
    assert_eq!(rgb_to_hex(1, 35, 69), "#012345");
    assert_eq!(rgb_to_hex(171, 205, 239), "#ABCDEF");
}

#[test]
fn writing_and_reading_a_color_gives_it_back() {
    for (r, g, b) in [(0u8, 0u8, 0u8), (255, 255, 255), (18, 52, 86), (9, 10, 15), (16, 160, 250)] {
        let text = rgb_to_hex(r, g, b);
        assert!(is_valid_hex_color(&text));
        assert_eq!(hex_to_rgb(&text), (r, g, b));
    }
}

#[test]
fn directions_have_their_wire_names() {
    assert_eq!(ToastDirection::Top.wire_name(), "top");
    assert_eq!(ToastDirection::Bottom.wire_name(), "bottom");
    assert_eq!(ToastDirection::Left.wire_name(), "left");
    assert_eq!(ToastDirection::Right.wire_name(), "right");
}
