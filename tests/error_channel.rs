use c2pa_c::{C2paError, ErrorChannel, StreamError};

#[test]
fn messages_name_the_kind() {
    assert_eq!(C2paError::NullParameter("format".to_string()).message(), "NullParameter: format");
    assert_eq!(C2paError::Stream(StreamError::SignerFailed).message(), "Stream: signer error");
    assert_eq!(C2paError::ResourceNotFound("m1".to_string()).message(), "ResourceNotFound: m1");
    assert_eq!(C2paError::RwLock.message(), "RwLock");
    assert_eq!(
        C2paError::Stream(StreamError::Other { reason: "disk".to_string() }).message(),
        "Stream: disk"
    );
}

#[test]
fn channel_starts_empty_and_keeps_last() {
    let mut c = ErrorChannel::new();
    assert_eq!(c.last_message(), "");
    c.record(&C2paError::RwLock);
    c.record(&C2paError::ResourceNotFound("x".to_string()));
    assert_eq!(c.last_message(), "ResourceNotFound: x");
}

#[test]
fn supported_extensions_is_json_array() {
    let s = c2pa_c::supported_extensions();
    assert!(s.starts_with("[\""));
    assert!(s.ends_with("\"]"));
    assert!(s.contains("image/jpeg"));
}

#[test]
fn stream_failure_messages() {
    assert_eq!(C2paError::Stream(StreamError::ReadFailed).message(), "Stream: read failed");
    assert_eq!(C2paError::Stream(StreamError::WriteZero).message(), "Stream: write accepted no bytes");
    let mut c = ErrorChannel::new();
    c.record(&C2paError::Stream(StreamError::TooLarge));
    assert_eq!(c.last_message(), "Stream: stream too large");
}
