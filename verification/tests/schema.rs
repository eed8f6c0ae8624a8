use nmixx::protocol::ParameterType;
use nmixx::schema::{ActionMetadata, HostSchema, ParameterMetadata, SchemaError, SchemaSource};
use nmixx::schema_store::{sanitize_segment, schema_store_key, valid_segment, SchemaStore, SchemaStoreError};

fn parameter(symbol: &str, label: Option<&str>, id: u16, value_type: &str) -> ParameterMetadata {
    ParameterMetadata {
        symbol: symbol.to_owned(),
        name: label.map(str::to_owned),
        id,
        value_type: value_type.to_owned(),
        access: "rw".to_owned(),
        unit: None,
        description: String::new(),
        write_state: None,
        range: None,
        allowed: Vec::new(),
        allowed_symbols: Vec::new(),
        plot_scale: None,
    }
}

fn schema(repository: &str, git_sha: &str) -> HostSchema {
    HostSchema {
        schema_version: 1,
        protocol: "axdr-canfd-v1".to_owned(),
        source: SchemaSource { repository: repository.to_owned(), git_sha: git_sha.to_owned(), parameter_schema: 1 },
        parameters: vec![
            parameter("PARAM_RUN_IQ", Some("Iq"), 0x110, "f32"),
            parameter("PARAM_MOTOR_STATE", None, 0x111, "u8"),
            parameter("PARAM_RUN_POSITION", Some("Position"), 0x112, "position"),
        ],
        actions: vec![ActionMetadata {
            symbol: "ACTION_MOTOR_ENABLE".to_owned(),
            name: Some("Enable".to_owned()),
            id: 272,
            description: String::new(),
        }],
    }
}

#[test]
fn rejects_path_traversal_keys() {
    let store = SchemaStore::new("/tmp/nmixx-test-store");
    assert!(matches!(store.path_for_key("../escape"), Err(SchemaStoreError::InvalidKey(_))));
    assert!(matches!(store.path_for_key("repo/a/b"), Err(SchemaStoreError::InvalidKey(_))));
}

#[test]
fn builds_stable_key_from_schema_source() {
    let schema = schema("AxDr_L_Motor", "abc123");
    assert_eq!(schema_store_key(&schema).unwrap(), "AxDr_L_Motor/abc123");
}

#[test]
fn key_maps_to_a_toml_file_under_the_repository_directory() {
    let store = SchemaStore::new("/tmp/nmixx-test-store");
    assert_eq!(store.path_for_key("AxDr_L_Motor/abc123").unwrap(), "/tmp/nmixx-test-store/AxDr_L_Motor/abc123.toml");
    assert!(matches!(store.path_for_key("no-slash"), Err(SchemaStoreError::InvalidKey(k)) if k == "no-slash"));
    assert!(matches!(store.path_for_key("repo/.."), Err(SchemaStoreError::InvalidKey(_))));
    assert!(matches!(store.path_for_key("/abc"), Err(SchemaStoreError::InvalidKey(_))));
    assert_eq!(store.root(), "/tmp/nmixx-test-store");
}

#[test]
fn segments_allow_only_plain_names() {
    assert!(valid_segment("v1.2-rc_3"));
    assert!(!valid_segment(""));
    assert!(!valid_segment("."));
    assert!(!valid_segment(".."));
    assert!(valid_segment("..."));
    assert!(!valid_segment("a b"));
    assert!(!valid_segment("é"));
    assert_eq!(sanitize_segment("abc").unwrap(), "abc");
    assert!(matches!(sanitize_segment("a/b"), Err(SchemaStoreError::InvalidKey(k)) if k == "a/b"));
    assert!(matches!(schema_store_key(&schema("bad repo", "abc")), Err(SchemaStoreError::InvalidKey(k)) if k == "bad repo"));
}

#[test]
fn default_store_follows_the_data_directory_layout() {
    let store = SchemaStore::default(Some("/data"), Some("/home/u")).unwrap();
    assert_eq!(store.root(), "/data/nmixx-motor-studio/schemas");
    let store = SchemaStore::default(None, Some("/home/u")).unwrap();
    assert_eq!(store.root(), "/home/u/.local/share/nmixx-motor-studio/schemas");
    assert!(matches!(SchemaStore::default(None, None), Err(SchemaStoreError::NoDefaultDirectory)));
}

#[test]
fn looks_up_parameters_and_actions_by_id_symbol_and_label() {
    let schema = schema("repo", "sha");
    assert_eq!(schema.parameter_by_id(0x111).unwrap().symbol, "PARAM_MOTOR_STATE");
    assert!(schema.parameter_by_id(0x999).is_none());
    assert_eq!(schema.parameter_by_key("Iq").unwrap().id, 0x110);
    assert_eq!(schema.parameter_by_key("PARAM_RUN_POSITION").unwrap().id, 0x112);
    assert!(schema.parameter_by_key("iq").is_none());
    assert_eq!(schema.action_by_id(272).unwrap().symbol, "ACTION_MOTOR_ENABLE");
    assert_eq!(schema.action_by_key("Enable").unwrap().id, 272);
    assert!(schema.action_by_key("Disable").is_none());
}

#[test]
fn parameter_types_come_from_the_schema_type_name() {
    let schema = schema("repo", "sha");
    assert_eq!(schema.parameters[0].parameter_type().unwrap(), ParameterType::F32);
    assert_eq!(schema.parameters[1].parameter_type().unwrap(), ParameterType::U8);
    assert_eq!(schema.parameters[2].parameter_type().unwrap(), ParameterType::Position);
    let odd = parameter("X", None, 1, "u16");
    assert!(matches!(odd.parameter_type(), Err(SchemaError::UnknownParameterType(t)) if t == "u16"));
}

#[test]
fn only_schema_version_one_is_accepted() {
    assert!(schema("repo", "sha").check_version().is_ok());
    let mut newer = schema("repo", "sha");
    newer.schema_version = 2;
    assert!(matches!(newer.check_version(), Err(SchemaError::UnsupportedVersion(2))));
}

#[test]
fn default_store_has_windows_and_macos_locations() {
    let store = SchemaStore::default_macos(Some("/Users/u")).unwrap();
    assert_eq!(store.root(), "/Users/u/Library/Application Support/NMIXX Motor Studio/schemas");
    assert!(matches!(SchemaStore::default_macos(None), Err(SchemaStoreError::NoDefaultDirectory)));
    let expected = std::path::Path::new("C:/Users/u/AppData/Local").join("NMIXX Motor Studio").join("schemas");
    let store = SchemaStore::default_windows(Some("C:/Users/u/AppData/Local")).unwrap();
    assert_eq!(store.root(), expected.to_string_lossy());
    assert!(matches!(SchemaStore::default_windows(None), Err(SchemaStoreError::NoDefaultDirectory)));
}
