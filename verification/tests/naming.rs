use servicer::service_names::{
    accept_service_name, filter_service_names, get_full_service_name, get_service_file_path, get_short_service_name,
    is_full_name,
};
use servicer::unit_path::{encode_as_dbus_object_path, get_unit_path};
use servicer::ServiceError;

#[test]
fn full_name_appends_suffix() {
    assert_eq!(get_full_service_name("hello-world"), "hello-world.ser.service");
    assert_eq!(get_full_service_name(""), ".ser.service");
}

#[test]
fn naming_round_trip_on_plain_names() {
    for name in ["hello", "hello-world", "app.js", "a"] {
        let full = get_full_service_name(name);
        assert_eq!(get_short_service_name(&full).unwrap(), name);
    }
}

#[test]
fn is_full_name_accepts_built_names() {
    assert!(is_full_name(&get_full_service_name("x")));
    assert!(is_full_name("hello.ser.service"));
}

#[test]
fn is_full_name_rejects_names_without_suffix() {
    assert!(!is_full_name("hello"));
    assert!(!is_full_name("hello.service"));
    assert!(!is_full_name("ser.service"));
    assert!(!is_full_name(""));
}

#[test]
fn short_name_of_unsuffixed_name_is_invalid() {
    assert_eq!(get_short_service_name("hello"), Err(ServiceError::InvalidName));
    assert_eq!(get_short_service_name("hello.service"), Err(ServiceError::InvalidName));
}

#[test]
fn short_name_strips_suffix_once() {
    assert_eq!(
        get_short_service_name("a.ser.service.ser.service").unwrap(),
        "a.ser.service"
    );
}

#[test]
fn either_name_form_is_accepted() {
    assert_eq!(accept_service_name("hello"), "hello.ser.service");
    assert_eq!(accept_service_name("hello.ser.service"), "hello.ser.service");
}

#[test]
fn service_file_path_joins_config_dir() {
    assert_eq!(
        get_service_file_path("hello.ser.service"),
        "/etc/systemd/system/hello.ser.service"
    );
}

#[test]
fn filter_keeps_only_managed_names_in_order() {
    let names = vec![
        "a.ser.service".to_string(),
        "dbus.service".to_string(),
        "b.ser.service".to_string(),
        "notes.txt".to_string(),
    ];
    let kept = filter_service_names(&names);
    assert_eq!(kept, vec!["a.ser.service".to_string(), "b.ser.service".to_string()]);
}

#[test]
fn encoding_keeps_alphanumerics_slash_underscore() {
    assert_eq!(encode_as_dbus_object_path("abcXYZ019/_"), "abcXYZ019/_");
}

#[test]
fn encoding_escapes_other_characters_as_hex() {
    // '-' is 0x2d and '.' is 0x2e.
    assert_eq!(
        encode_as_dbus_object_path("hello-world.ser.service"),
        "hello_2dworld_2eser_2eservice"
    );
    // ' ' is 0x20; 'é' is 0xe9.
    assert_eq!(encode_as_dbus_object_path(" "), "_20");
    assert_eq!(encode_as_dbus_object_path("é"), "_e9");
}

#[test]
fn unit_path_prefixes_namespace() {
    assert_eq!(
        get_unit_path("hello-world.ser.service"),
        "/org/freedesktop/systemd1/unit/hello_2dworld_2eser_2eservice"
    );
}
