use config_files::messages::{parse_failure, read_failure, serialize_failure, write_failure};

#[test]
fn read_failure_names_path_and_cause() {
    assert_eq!(
        read_failure("/home/alice/.config/app/config.toml", "Permission denied (os error 13)"),
        "Unable to read /home/alice/.config/app/config.toml: Permission denied (os error 13)"
    );
}

#[test]
fn parse_failure_names_path_and_cause() {
    assert_eq!(
        parse_failure("cfg/config.toml", "expected an equals, found eof at line 1 column 6"),
        "Unable to parse cfg/config.toml: expected an equals, found eof at line 1 column 6"
    );
}

#[test]
fn serialize_failure_names_path_and_cause() {
    assert_eq!(
        serialize_failure("cfg/config.toml", "values must be emitted before tables"),
        "Failed serializing value for cfg/config.toml: values must be emitted before tables"
    );
    assert_ne!(
        serialize_failure("a.toml", "unsupported None value"),
        serialize_failure("b.toml", "unsupported None value")
    );
}

#[test]
fn write_failure_names_path_and_cause() {
    assert_eq!(
        write_failure("/ro/config.toml", "Read-only file system (os error 30)"),
        "Failed writing content to /ro/config.toml: Read-only file system (os error 30)"
    );
}

#[test]
fn messages_keep_empty_parts() {
    assert_eq!(read_failure("", ""), "Unable to read : ");
    assert_eq!(parse_failure("", ""), "Unable to parse : ");
    assert_eq!(serialize_failure("", ""), "Failed serializing value for : ");
    assert_eq!(write_failure("", ""), "Failed writing content to : ");
}

#[test]
fn messages_keep_text_beyond_ascii() {
    assert_eq!(
        read_failure("/home/zoë/einstellungen.toml", "Zugriff verweigert"),
        "Unable to read /home/zoë/einstellungen.toml: Zugriff verweigert"
    );
}
