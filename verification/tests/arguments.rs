use ferrisboy_core::arguments::Args;

const PROGRAM_NAME: &str = "ferrisboy";

#[test]
fn test_argument_parsing() {
    let args = vec![
        PROGRAM_NAME.to_string(),
        "test_rom.gb".to_string(),
        "--debug".to_string(),
    ];
    let parsed_args = Args::from_args_vec(&args).unwrap();
    assert_eq!(parsed_args.rom_path, "test_rom.gb");
    assert!(parsed_args.debug);
}

#[test]
fn test_missing_arguments() {
    let args = vec![PROGRAM_NAME.to_string()];
    let parsed_args = Args::from_args_vec(&args);
    assert!(parsed_args.is_err());
}

#[test]
fn test_short_debug_flag() {
    let args = vec![
        PROGRAM_NAME.to_string(),
        "-d".to_string(),
        "game.gb".to_string(),
    ];
    let parsed_args = Args::from_args_vec(&args).unwrap();
    assert_eq!(parsed_args.rom_path, "game.gb");
    assert!(parsed_args.debug);
}

#[test]
fn test_no_debug_flag() {
    let args = vec![PROGRAM_NAME.to_string(), "game.gb".to_string()];
    let parsed_args = Args::from_args_vec(&args).unwrap();
    assert_eq!(parsed_args.rom_path, "game.gb");
    assert!(!parsed_args.debug);
}

#[test]
fn test_unrecognized_flag() {
    let args = vec![
        PROGRAM_NAME.to_string(),
        "--frobnicate".to_string(),
        "game.gb".to_string(),
    ];
    assert!(Args::from_args_vec(&args).is_err());
}

#[test]
fn test_extra_positional_argument() {
    let args = vec![
        PROGRAM_NAME.to_string(),
        "one.gb".to_string(),
        "two.gb".to_string(),
    ];
    assert!(Args::from_args_vec(&args).is_err());
}

#[test]
fn test_empty_argument_vector() {
    let args: Vec<String> = vec![];
    assert!(Args::from_args_vec(&args).is_err());
}
