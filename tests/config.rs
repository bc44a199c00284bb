use arcade_stream::config::{
    extract_properties_from_args, parse_resolution, ConfigError, Resolution,
};
use arcade_stream::text::{parse_decimal, str_eq};

fn args(list: &[&str]) -> Vec<String> {
    list.iter().map(|s| s.to_string()).collect()
}

#[test]
fn defaults_apply_when_only_the_game_is_given() {
    let p = extract_properties_from_args(&args(&["runtime", "--game", "sf2"])).unwrap();
    assert_eq!(p.resolution, Resolution::from_size(480, 320));
    assert_eq!(p.fps, 30);
    assert_eq!(p.keyframe_interval, 12);
    assert_eq!(p.system_name, "sf2");
    assert_eq!(p.imageframe_output, "ipc://./images.ipc");
    assert_eq!(p.soundframe_output, "ipc://./sounds.ipc");
    assert_eq!(p.cmd_input, "ipc://./cmds.ipc");
    assert_eq!(p.idle_timeout_secs, 0);
}

#[test]
fn every_flag_is_read() {
    let p = extract_properties_from_args(&args(&[
        "runtime",
        "--game",
        "dino",
        "--resolution",
        "640x480",
        "--fps",
        "60",
        "--keyframe-interval",
        "8",
        "--imageframe-output",
        "tcp://0.0.0.0:8765",
        "--soundframe-output",
        "tcp://0.0.0.0:8766",
        "--key-input",
        "tcp://0.0.0.0:8767",
        "--idle-time-to-enc-sleep",
        "2",
    ]))
    .unwrap();
    assert_eq!(p.system_name, "dino");
    assert_eq!(p.resolution, Resolution { w: 640, h: 480 });
    assert_eq!(p.fps, 60);
    assert_eq!(p.keyframe_interval, 8);
    assert_eq!(p.imageframe_output, "tcp://0.0.0.0:8765");
    assert_eq!(p.soundframe_output, "tcp://0.0.0.0:8766");
    assert_eq!(p.cmd_input, "tcp://0.0.0.0:8767");
    assert_eq!(p.idle_timeout_secs, 2);
    let q = extract_properties_from_args(&args(&["--cmd-input", "ipc://x", "--game", "g"])).unwrap();
    assert_eq!(q.cmd_input, "ipc://x");
}

#[test]
fn bad_command_lines_are_refused() {
    assert_eq!(
        extract_properties_from_args(&args(&["runtime", "--game", "g", "--bogus", "1"])).err(),
        Some(ConfigError::UnknownFlag)
    );
    assert_eq!(
        extract_properties_from_args(&args(&["runtime", "--game"])).err(),
        Some(ConfigError::MissingValue)
    );
    assert_eq!(
        extract_properties_from_args(&args(&["runtime", "--fps", "30"])).err(),
        Some(ConfigError::MissingGame)
    );
    assert_eq!(
        extract_properties_from_args(&args(&["r", "--game", "g", "--fps", "0"])).err(),
        Some(ConfigError::InvalidNumber)
    );
    assert_eq!(
        extract_properties_from_args(&args(&["r", "--game", "g", "--keyframe-interval", "x"])).err(),
        Some(ConfigError::InvalidNumber)
    );
    assert_eq!(
        extract_properties_from_args(&args(&["r", "--game", "g", "--resolution", "640"])).err(),
        Some(ConfigError::InvalidResolution)
    );
    assert_eq!(extract_properties_from_args(&args(&[])).err(), Some(ConfigError::MissingGame));
}

#[test]
fn resolution_strings() {
    assert_eq!(parse_resolution("480x320"), Some((480, 320)));
    assert_eq!(parse_resolution("0x0"), Some((0, 0)));
    assert_eq!(parse_resolution("4x"), None);
    assert_eq!(parse_resolution("x4"), None);
    assert_eq!(parse_resolution("1x2x3"), None);
    assert_eq!(parse_resolution("12"), None);
    assert_eq!(parse_resolution(" 1x2"), None);
    assert_eq!(parse_resolution("99999999999x99999999999"), None);
}

#[test]
fn decimals() {
    assert_eq!(parse_decimal("0"), Some(0));
    assert_eq!(parse_decimal("053"), Some(53));
    assert_eq!(parse_decimal("18446744073709551615"), Some(u64::MAX));
    assert_eq!(parse_decimal("18446744073709551616"), None);
    assert_eq!(parse_decimal(""), None);
    assert_eq!(parse_decimal("+5"), None);
    assert_eq!(parse_decimal("5a"), None);
}

#[test]
fn string_equality() {
    assert!(str_eq("key", "key"));
    assert!(!str_eq("key", "ke"));
    assert!(!str_eq("key", "kez"));
    assert!(str_eq("", ""));
}
