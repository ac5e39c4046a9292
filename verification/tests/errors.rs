use r2d2_redis::error::render_message;
use r2d2_redis::Error;

#[test]
fn description_alone() {
    assert_eq!(render_message("invalid client config", None), "invalid client config");
}

#[test]
fn description_and_cause() {
    assert_eq!(render_message("I/O error", Some("connection refused")), "I/O error: connection refused");
}

#[test]
fn empty_parts_keep_the_separator() {
    assert_eq!(render_message("", Some("")), ": ");
    assert_eq!(render_message("", None), "");
}

#[test]
fn message_of_an_error_without_cause() {
    let err = Error::Other(redis::RedisError::from((redis::ErrorKind::InvalidClientConfig, "bad url")));
    assert_eq!(err.message(), "invalid client config");
}

#[test]
fn message_of_an_error_with_cause() {
    let io = std::io::Error::new(std::io::ErrorKind::ConnectionRefused, "refused by peer".to_string());
    let err = Error::Other(redis::RedisError::from(io));
    assert_eq!(err.message(), "I/O error: refused by peer");
}

#[test]
fn wrapped_error_keeps_every_detail() {
    let cause = redis::RedisError::from((redis::ErrorKind::AuthenticationFailed, "denied", "user x".to_string()));
    let Error::Other(back) = Error::Other(cause);
    assert_eq!(back.kind(), redis::ErrorKind::AuthenticationFailed);
    assert_eq!(back.detail(), Some("user x"));
    assert_eq!(back.to_string(), "denied - AuthenticationFailed: user x");
}

#[test]
fn message_of_a_refused_reply() {
    let manager = r2d2_redis::RedisConnectionManager::new("redis://localhost", std::time::Duration::from_secs(1)).unwrap();
    let err = manager.is_valid(Ok("NOPE".to_string())).unwrap_err();
    assert_eq!(err.message(), "type error");
}
