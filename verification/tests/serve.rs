use voxtype_elevenlabs_adapter::keyfile::{key_to_store, temporary_key_name, KeyFileError};
use voxtype_elevenlabs_adapter::serve::{check_bind, health_url, BindIp};

#[test]
fn loopback_addresses_are_accepted() {
    assert!(check_bind(&BindIp::V4([127, 0, 0, 1]), "127.0.0.1:17811").is_ok());
    assert!(check_bind(&BindIp::V4([127, 5, 6, 7]), "127.5.6.7:1").is_ok());
    assert!(check_bind(&BindIp::V6([0, 0, 0, 0, 0, 0, 0, 1]), "[::1]:1").is_ok());
}

#[test]
fn other_addresses_are_refused() {
    assert_eq!(
        check_bind(&BindIp::V4([0, 0, 0, 0]), "0.0.0.0:17811").unwrap_err(),
        "refusing to listen outside localhost: 0.0.0.0:17811"
    );
    assert!(check_bind(&BindIp::V4([192, 168, 1, 2]), "192.168.1.2:80").is_err());
    assert!(check_bind(&BindIp::V6([0; 8]), "[::]:1").is_err());
    assert!(check_bind(&BindIp::V6([0, 0, 0, 0, 0, 0xffff, 0x7f00, 1]), "[::ffff:127.0.0.1]:1").is_err());
}

#[test]
fn health_url_drops_trailing_slashes() {
    assert_eq!(health_url("http://127.0.0.1:17811"), "http://127.0.0.1:17811/health");
    assert_eq!(health_url("http://127.0.0.1:17811//"), "http://127.0.0.1:17811/health");
}

#[test]
fn stored_key_is_trimmed() {
    assert_eq!(key_to_store("  secret-value\n").unwrap(), "secret-value");
    assert_eq!(key_to_store(" \t ").unwrap_err(), KeyFileError::EmptyKey);
    assert_eq!(KeyFileError::EmptyKey.message(), "API key cannot be empty");
    assert_eq!(KeyFileError::NoParent.message(), "credentials path has no parent");
}

#[test]
fn temporary_file_name() {
    assert_eq!(temporary_key_name(1234), ".api-key.1234.tmp");
    assert_eq!(temporary_key_name(0), ".api-key.0.tmp");
    assert_eq!(temporary_key_name(u32::MAX), ".api-key.4294967295.tmp");
}
