use nmixx::cli::{parse_decimal, parse_u16, resolve_action, resolve_parameter, resolve_parameter_metadata, ResolveError};
use nmixx::protocol::ParameterType;
use nmixx::schema::{ActionMetadata, HostSchema, ParameterMetadata, SchemaSource};

fn schema() -> HostSchema {
    HostSchema {
        schema_version: 1,
        protocol: "axdr-canfd-v1".to_owned(),
        source: SchemaSource { repository: "r".to_owned(), git_sha: "s".to_owned(), parameter_schema: 1 },
        parameters: vec![ParameterMetadata {
            symbol: "PARAM_RUN_IQ".to_owned(),
            name: Some("Iq".to_owned()),
            id: 0x0110,
            value_type: "f32".to_owned(),
            access: "r".to_owned(),
            unit: None,
            description: String::new(),
            write_state: None,
            range: None,
            allowed: Vec::new(),
            allowed_symbols: Vec::new(),
            plot_scale: None,
        }],
        actions: vec![ActionMetadata { symbol: "ACTION_MOTOR_RUN".to_owned(), name: None, id: 0x1002, description: String::new() }],
    }
}

#[test]
fn ids_are_decimal_or_hexadecimal() {
    assert_eq!(parse_u16("272"), Some(272));
    assert_eq!(parse_u16("+7"), Some(7));
    assert_eq!(parse_u16("0x0110"), Some(0x0110));
    assert_eq!(parse_u16("0XfF"), Some(255));
    assert_eq!(parse_u16("65535"), Some(65535));
    assert_eq!(parse_u16("65536"), None);
    assert_eq!(parse_u16("0x"), None);
    assert_eq!(parse_u16(""), None);
    assert_eq!(parse_u16("-1"), None);
    assert_eq!(parse_u16("12a"), None);
    assert_eq!(parse_u16("0x10000"), None);
}

#[test]
fn parameters_resolve_by_key_id_or_raw_type() {
    let schema = schema();
    let by_key = resolve_parameter(Some(&schema), "Iq", None).unwrap();
    assert_eq!((by_key.id, by_key.ty), (0x0110, ParameterType::F32));
    let by_id = resolve_parameter(Some(&schema), "0x0110", None).unwrap();
    assert_eq!(by_id.metadata.unwrap().symbol, "PARAM_RUN_IQ");
    let raw = resolve_parameter(Some(&schema), "5", Some(ParameterType::U8)).unwrap();
    assert!(raw.metadata.is_none());
    assert!(matches!(resolve_parameter(Some(&schema), "PARAM_RUN_IQ", Some(ParameterType::U8)),
        Err(ResolveError::Message(m)) if m == "parameter PARAM_RUN_IQ type mismatch: schema=f32, CLI=U8"));
    assert!(matches!(resolve_parameter(Some(&schema), "5", None),
        Err(ResolveError::Message(m)) if m == "parameter ID 0x0005 is not present in the loaded schema; use --type for raw access"));
    assert!(matches!(resolve_parameter(None, "Iq", None),
        Err(ResolveError::Message(m)) if m == "parameter 'Iq' requires --schema; without a schema only numeric IDs are accepted"));
    assert!(matches!(resolve_parameter(None, "9", None),
        Err(ResolveError::Message(m)) if m == "--type is required for raw numeric parameter access without --schema"));
    assert_eq!(resolve_parameter_metadata(&schema, "missing").unwrap_err(), "unknown parameter key 'missing' in loaded schema");
}

#[test]
fn actions_resolve_to_an_id_and_a_name() {
    let schema = schema();
    assert_eq!(resolve_action(Some(&schema), "ACTION_MOTOR_RUN").unwrap(), (0x1002, "ACTION_MOTOR_RUN".to_owned()));
    assert_eq!(resolve_action(Some(&schema), "4098").unwrap(), (0x1002, "ACTION_MOTOR_RUN".to_owned()));
    assert_eq!(resolve_action(Some(&schema), "0x0001").unwrap(), (1, "0x0001".to_owned()));
    assert_eq!(resolve_action(None, "0x0001").unwrap(), (1, "0x0001".to_owned()));
    assert_eq!(resolve_action(Some(&schema), "RUN").unwrap_err(), "unknown action key 'RUN' in loaded schema");
}

#[test]
fn decimal_values_parse_as_std_parses_them() {
    let samples = [
        "0", "7", "+7", "-7", "255", "256", "-128", "-129", "127", "128", "00042", "-0", "+", "-", "", "+-1", "1_0",
        " 1", "1 ", "0x10", "2147483647", "2147483648", "-2147483648", "-2147483649", "4294967295", "4294967296",
        "99999999999999999999", "-99999999999999999999", "12a",
    ];
    for text in samples {
        assert_eq!(parse_decimal(text, false, 0, 255), text.parse::<u8>().ok().map(i64::from), "u8 {text:?}");
        assert_eq!(parse_decimal(text, true, -128, 127), text.parse::<i8>().ok().map(i64::from), "i8 {text:?}");
        assert_eq!(
            parse_decimal(text, true, i64::from(i32::MIN), i64::from(i32::MAX)),
            text.parse::<i32>().ok().map(i64::from),
            "i32 {text:?}"
        );
        assert_eq!(
            parse_decimal(text, false, 0, i64::from(u32::MAX)),
            text.parse::<u32>().ok().map(i64::from),
            "u32 {text:?}"
        );
    }
}

#[test]
fn unnamed_actions_are_labelled_with_upper_case_hex() {
    assert_eq!(resolve_action(None, "0xbeef").unwrap(), (0xbeef, "0xBEEF".to_owned()));
    assert_eq!(resolve_action(None, "0x0a09").unwrap(), (0x0a09, "0x0A09".to_owned()));
}
