use redactor::config::{get_bind_address, get_cache_dir};

#[test]
fn bind_address_defaults() {
    assert_eq!(get_bind_address(None, None), "127.0.0.1:9000");
}

#[test]
fn bind_address_from_settings() {
    assert_eq!(
        get_bind_address(Some("0.0.0.0".to_string()), Some("8080".to_string())),
        "0.0.0.0:8080"
    );
    assert_eq!(get_bind_address(Some("localhost".to_string()), None), "localhost:9000");
    assert_eq!(get_bind_address(None, Some("1".to_string())), "127.0.0.1:1");
    assert_eq!(get_bind_address(Some(String::new()), Some(String::new())), ":");
}

#[test]
fn cache_dir_default_and_setting() {
    assert_eq!(get_cache_dir(None), "~/.cache/huggingface");
    assert_eq!(get_cache_dir(Some("/tmp/models".to_string())), "/tmp/models");
}
