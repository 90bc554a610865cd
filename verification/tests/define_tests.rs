use errdef::define::{
    ConfigurationInvalid, DataBaseError, DataBaseInvalidQuery, DataBaseNotFound, Error,
    ExtraDescError, FileNotFound, InvalidCommand, InvalidMessageData, IoKind, ReceiveDataFail,
    RoleTypeError, UnKnowError,
};

#[test]
fn test_error() {
    let message = "it's error";
    let error = Error(InvalidCommand).from_desc(message);
    assert_eq!(error.desc, message);
}

#[derive(Debug)]
enum NetError {
    ConnProtoError(String),
}

impl NetError {
    fn message(&self) -> String {
        match self {
            NetError::ConnProtoError(detail) => format!("connect protocol error: {}", detail),
        }
    }
}

type NetResult<T> = Result<T, NetError>;

fn old_read_line() -> NetResult<()> {
    Err(NetError::ConnProtoError(format!(
        "read_line error, encounter bad channel.",
    )))
}

fn new_read_line() -> Result<(), ExtraDescError> {
    old_read_line().map_err(|error| Error(ReceiveDataFail).from_desc(&error.message()))
}

#[test]
fn test_map_error() {
    if let Err(error) = new_read_line() {
        assert_eq!(
            &error.desc,
            "connect protocol error: read_line error, encounter bad channel."
        );
    } else {
        panic!();
    }
}

#[test]
fn registered_codes_have_nonempty_reasons() {
    let codes: Vec<u16> = vec![
        1001, 1002, 1003, 1004, 1005, 1006, 1007, 1008, 1009, 1010, 1011, 1012, 1013, 1014, 1015,
        1016, 1017, 1018, 2001, 2002, 2003, 2004, 2005, 2006, 2007, 2008, 3001, 3002, 3003, 3101,
        4001, 4002, 4003, 4004, 4005, 4006, 4007, 4008, 4009, 4010, 4011, 4012, 4013, 4014, 5001,
        5002, 5003, 5100, 6001, 7001, 7002, 7003, 7004,
    ];
    for code in codes {
        let error = Error(code);
        let en = error.reason_en();
        let cn = error.reason_cn();
        assert!(en.is_some(), "code {} has no english reason", code);
        assert!(cn.is_some(), "code {} has no chinese reason", code);
        assert!(!en.unwrap().is_empty());
        assert!(!cn.unwrap().is_empty());
    }
}

#[test]
fn specific_reason_lookups() {
    assert_eq!(Error(FileNotFound).reason_en(), Some("file not found"));
    assert_eq!(Error(FileNotFound).reason_cn(), Some("文件未发现"));
    assert_eq!(Error(UnKnowError).reason_en(), Some("unknow error"));
    assert_eq!(Error(5001).reason_en(), Some("unexpected error occured"));
    assert_eq!(Error(5001).reason_cn(), Some("发生意外错误"));
}

#[test]
fn unregistered_codes_have_no_reasons() {
    for code in [0u16, 1000, 1999, 2000, 3004, 5004, 6002, 7005, 9999, u16::MAX] {
        let error = Error(code);
        assert_eq!(error.reason_en(), None);
        assert_eq!(error.reason_cn(), None);
    }
}

#[test]
fn from_desc_is_faithful() {
    for text in ["", "a", "context with spaces", "发生意外错误"] {
        let error = Error(InvalidCommand).from_desc(text);
        assert_eq!(error.err, Error(InvalidCommand));
        assert_eq!(error.desc, text);
    }
}

#[test]
fn display_string_of_registered_code() {
    assert_eq!(
        Error(FileNotFound).to_display_string(),
        "error code1001 reason:Some(\"file not found\") desc:Some(\"文件未发现\")"
    );
}

#[test]
fn display_string_of_unregistered_code() {
    assert_eq!(
        Error(9999).to_display_string(),
        "error code9999 reason:None desc:None"
    );
}

#[test]
fn rewrap_preserves_context_under_reclassification() {
    let rewrapped = Error(RoleTypeError).from_error(Error(FileNotFound));
    assert_eq!(rewrapped.err, Error(6001));
    assert_eq!(rewrapped.desc, Error(1001).to_display_string());
    assert_eq!(
        rewrapped.desc,
        "error code1001 reason:Some(\"file not found\") desc:Some(\"文件未发现\")"
    );
}

#[test]
fn described_error_display_string() {
    let error = Error(InvalidCommand).from_desc("bad verb");
    assert_eq!(
        error.to_display_string(),
        format!("error {} desc:bad verb", Error(InvalidCommand).to_display_string())
    );
}

#[test]
fn from_code_has_an_empty_description() {
    let error = ExtraDescError::from_code(Error(FileNotFound));
    assert_eq!(error.err, Error(1001));
    assert_eq!(error.desc, "");
}

#[test]
fn io_permission_denied_maps_to_its_own_code() {
    let error = ExtraDescError::from_io_kind(IoKind::PermissionDenied, "denied");
    assert_eq!(error.err.0, 1002);
    assert_eq!(error.desc, "denied");
}

#[test]
fn io_not_found_maps_to_its_own_code() {
    let error = ExtraDescError::from_io_kind(IoKind::NotFound, "no such file");
    assert_eq!(error.err.0, 1001);
}

#[test]
fn io_unenumerated_kind_maps_to_unknown_error() {
    let error = ExtraDescError::from_io_kind(IoKind::Unknown, "strange failure");
    assert_eq!(error.err.0, 5100);
    assert!(error.err.0 < 1001 || error.err.0 > 2000);
}

#[test]
fn io_other_kind_keeps_the_io_band_code() {
    let error = ExtraDescError::from_io_kind(IoKind::Other, "other os error");
    assert_eq!(error.err.0, 1017);
}

#[test]
fn json_decode_failure_maps_to_invalid_message_data() {
    let decode_error = serde_json::from_str::<serde_json::Value>("{ not json").unwrap_err();
    let message = decode_error.to_string();
    let error = ExtraDescError::from_json_error(&decode_error);
    assert_eq!(error.err.0, InvalidMessageData);
    assert_eq!(error.err.0, 2006);
    assert_eq!(error.desc, message);
}

#[test]
fn toml_decode_failure_maps_to_configuration_invalid() {
    let decode_error = toml::from_str::<toml::Table>("= broken").unwrap_err();
    let message = decode_error.to_string();
    let error = ExtraDescError::from_toml_error(&decode_error);
    assert_eq!(error.err.0, ConfigurationInvalid);
    assert_eq!(error.err.0, 5003);
    assert_eq!(error.desc, message);
}

#[test]
fn diesel_not_found_maps_to_result_not_found() {
    let foreign = diesel::result::Error::NotFound;
    let message = foreign.to_string();
    let error = ExtraDescError::from_diesel_error(&foreign);
    assert_eq!(error.err.0, DataBaseNotFound);
    assert_eq!(error.err.0, 3003);
    assert_eq!(error.desc, message);
}

#[test]
fn diesel_database_error_keeps_database_message() {
    let foreign = diesel::result::Error::DatabaseError(
        diesel::result::DatabaseErrorKind::Unknown,
        Box::new(String::from("duplicate key")),
    );
    let error = ExtraDescError::from_diesel_error(&foreign);
    assert_eq!(error.err.0, DataBaseError);
    assert_eq!(error.desc, "duplicate key");
}

#[test]
fn diesel_query_builder_error_maps_to_invalid_query() {
    let inner: Box<dyn std::error::Error + Send + Sync> = "bad query".into();
    let foreign = diesel::result::Error::QueryBuilderError(inner);
    let error = ExtraDescError::from_diesel_error(&foreign);
    assert_eq!(error.err.0, DataBaseInvalidQuery);
    assert_eq!(error.desc, "bad query");
}

#[test]
fn diesel_other_failure_maps_to_unknown_error() {
    let foreign = diesel::result::Error::RollbackTransaction;
    let message = foreign.to_string();
    let error = ExtraDescError::from_diesel_error(&foreign);
    assert_eq!(error.err.0, UnKnowError);
    assert_eq!(error.desc, message);
}
