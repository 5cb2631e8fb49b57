use server_persistence::config::{backend_for_scheme, BackendKind, ConfigError};
use server_persistence::single::TakeOnce;

#[test]
fn recognized_schemes_select_their_backend() {
    assert_eq!(backend_for_scheme(b"redis"), Ok(BackendKind::Redis));
    assert_eq!(backend_for_scheme(b"rediss"), Ok(BackendKind::RedisTls));
}

#[test]
fn scheme_comparison_ignores_ascii_case() {
    assert_eq!(backend_for_scheme(b"REDIS"), Ok(BackendKind::Redis));
    assert_eq!(backend_for_scheme(b"Rediss"), Ok(BackendKind::RedisTls));
    assert_eq!(backend_for_scheme(b"rEdIs"), Ok(BackendKind::Redis));
}

#[test]
fn unknown_schemes_are_a_configuration_error() {
    assert_eq!(backend_for_scheme(b"http"), Err(ConfigError::UnknownScheme));
    assert_eq!(backend_for_scheme(b"postgres"), Err(ConfigError::UnknownScheme));
    assert_eq!(backend_for_scheme(b"redisss"), Err(ConfigError::UnknownScheme));
    assert_eq!(backend_for_scheme(b"redi"), Err(ConfigError::UnknownScheme));
    assert_eq!(backend_for_scheme(b""), Err(ConfigError::UnknownScheme));
}

#[test]
fn connection_handle_can_be_taken_only_once() {
    let mut holder = TakeOnce::new(42u32);
    assert!(!holder.is_taken());
    assert_eq!(holder.take(), Some(42));
    assert!(holder.is_taken());
    assert_eq!(holder.take(), None);
    assert_eq!(holder.take(), None);
}
