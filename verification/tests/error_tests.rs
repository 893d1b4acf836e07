use mystock::error::{ErrorKind, SysError};

#[test]
fn error_texts() {
    assert_eq!(SysError::Io("disk full".to_string()).message(), "disk full");
    assert_eq!(
        SysError::Utf8("invalid utf-8 sequence".to_string()).message(),
        "failed to parse as string: invalid utf-8 sequence"
    );
    assert_eq!(
        SysError::EstSseError(5001, "tx isClosed".to_string()).message(),
        "sse error! tx isClosed. code:5001"
    );
    assert_eq!(
        SysError::BREAK(1001, "stop".to_string()).message(),
        "happen error, stop execute. code:1001, message:stop"
    );
    assert_eq!(SysError::SqlxError("no table".to_string()).message(), "no table");
}

#[test]
fn error_kinds() {
    assert_eq!(
        SysError::Io("x".to_string()).error_kind(),
        ErrorKind::Io("x".to_string())
    );
    assert_eq!(
        SysError::Utf8("y".to_string()).error_kind(),
        ErrorKind::Utf8("failed to parse as string: y".to_string())
    );
    assert_eq!(
        SysError::BREAK(7, "z".to_string()).error_kind(),
        ErrorKind::Unknown("happen error, stop execute. code:7, message:z".to_string())
    );
    assert_eq!(
        SysError::ReqwestError("timeout".to_string()).error_kind(),
        ErrorKind::Unknown("timeout".to_string())
    );
}
