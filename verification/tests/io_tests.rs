use os_glue::io::{Error, ErrorKind};

fn all_kinds() -> Vec<(ErrorKind, &'static str)> {
    vec![
        (ErrorKind::OutOfMemory, "OutOfMemory"),
        (ErrorKind::AddrInUse, "AddrInUse"),
        (ErrorKind::AddrMissing, "AddrMissing"),
        (ErrorKind::BufferTooSmall, "BufferTooSmall"),
        (ErrorKind::AfNoSupport, "AfNoSupport"),
        (ErrorKind::NotSupported, "NotSupported"),
        (ErrorKind::InvalidInput, "InvalidInput"),
        (ErrorKind::Protocol, "Protocol"),
        (ErrorKind::WouldBlock, "WouldBlock"),
        (ErrorKind::Timeout, "Timeout"),
        (ErrorKind::HostUnreachable, "HostUnreachable"),
        (ErrorKind::NoMatchingInterface, "NoMatchingInterface"),
    ]
}

#[test]
fn error_keeps_its_kind() {
    for (kind, _) in all_kinds() {
        assert_eq!(Error::from(kind).kind(), kind);
        let converted: Error = kind.into();
        assert_eq!(converted, Error::from(kind));
        assert_eq!(converted.kind(), kind);
    }
}

#[test]
fn error_message_is_the_name_of_its_kind() {
    for (kind, name) in all_kinds() {
        assert_eq!(kind.name(), name);
        assert_eq!(Error::from(kind).message(), name.to_string());
        assert_eq!(Error::from(kind).message(), format!("{:?}", kind));
    }
}

#[test]
fn errors_of_different_kinds_differ() {
    let kinds = all_kinds();
    for (i, (a, _)) in kinds.iter().enumerate() {
        for (j, (b, _)) in kinds.iter().enumerate() {
            assert_eq!(Error::from(*a) == Error::from(*b), i == j);
        }
    }
}
