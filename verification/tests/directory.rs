use config_files::directory::{
    config_dir, config_path, directory_repair, platform_dir, ConfigFile, DirectoryStep,
    StandardDirs, Unresolved, APPLICATION, ORGANIZATION, QUALIFIER,
};

#[test]
fn base_path_is_the_configuration_directory() {
    assert_eq!(config_dir(Some("/srv/app/settings")).unwrap(), "/srv/app/settings");
}

#[test]
fn relative_base_path_is_taken_as_it_is() {
    assert_eq!(config_dir(Some("settings")).unwrap(), "settings");
    assert_eq!(config_dir(Some("")).unwrap(), "");
}

#[test]
fn file_name_is_joined_onto_the_base_path() {
    assert_eq!(
        config_path(Some("/srv/app/settings"), "x.toml").unwrap(),
        ConfigFile {
            dir: "/srv/app/settings".to_string(),
            path: "/srv/app/settings/x.toml".to_string(),
        }
    );
}

#[test]
fn joining_adds_no_second_separator() {
    let place = config_path(Some("/srv/app/settings/"), "x.toml").unwrap();
    assert_eq!(place.dir, "/srv/app/settings/");
    assert_eq!(place.path, "/srv/app/settings/x.toml");
}

#[test]
fn joining_is_not_validated_further() {
    let nested = config_path(Some("/srv/app"), "themes/dark.toml").unwrap();
    assert_eq!(nested.path, "/srv/app/themes/dark.toml");
    let absolute = config_path(Some("/srv/app"), "/etc/x.toml").unwrap();
    assert_eq!(absolute.dir, "/srv/app");
    assert_eq!(absolute.path, "/etc/x.toml");
}

#[test]
fn in_dir_joins_as_the_platform_does() {
    let place = ConfigFile::in_dir("relative/dir".to_string(), "config.toml");
    assert_eq!(place.dir, "relative/dir");
    assert_eq!(
        std::path::PathBuf::from(place.path),
        std::path::Path::new("relative/dir").join("config.toml")
    );
}

#[test]
fn application_is_known_by_fixed_names() {
    assert_eq!(QUALIFIER, "org");
    assert_eq!(ORGANIZATION, "affekt");
    assert_eq!(APPLICATION, "ncspot");
}

#[test]
fn conventional_directory_holds_the_file() {
    // What the platform answers depends on the user; where it answers, the
    // file is inside the directory and the directory is the application's.
    match config_path(None, "x.toml") {
        Ok(place) => {
            assert_eq!(config_dir(None).unwrap(), place.dir);
            assert_eq!(
                std::path::PathBuf::from(&place.path),
                std::path::Path::new(&place.dir).join("x.toml")
            );
            assert!(place.dir.contains("ncspot"));
        }
        Err(_) => assert!(config_dir(None).is_err()),
    }
}

#[test]
fn no_platform_answer_means_no_directory() {
    assert_eq!(platform_dir(None), Err(Unresolved::NoConvention));
}

#[test]
fn platform_answer_gives_its_configuration_directory() {
    let linux = StandardDirs { config_dir: Some("/x/ncspot".to_string()) };
    assert_eq!(platform_dir(Some(linux)), Ok("/x/ncspot".to_string()));
    let relative = StandardDirs { config_dir: Some("home/.config/ncspot".to_string()) };
    assert_eq!(platform_dir(Some(relative)), Ok("home/.config/ncspot".to_string()));
    let empty = StandardDirs { config_dir: Some(String::new()) };
    assert_eq!(platform_dir(Some(empty)), Ok(String::new()));
}

#[test]
fn platform_directory_without_text_is_no_directory() {
    let given = StandardDirs { config_dir: None };
    assert_eq!(platform_dir(Some(given)), Err(Unresolved::NotText));
}

#[test]
fn resolving_asks_the_platform_for_the_application() {
    // What the platform answers depends on the user; the resolver gives what
    // the platform gives for these three names.
    let asked = directories::ProjectDirs::from("org", "affekt", "ncspot");
    match (config_dir(None), asked) {
        (Ok(text), Some(dirs)) => {
            assert_eq!(std::path::PathBuf::from(text), dirs.config_dir().to_path_buf())
        }
        (Err(Unresolved::NotText), Some(dirs)) => assert!(dirs.config_dir().to_str().is_none()),
        (Err(Unresolved::NoConvention), None) => {}
        (resolved, asked) => panic!("{:?} does not go with {:?}", resolved, asked),
    }
}

#[test]
fn stray_file_is_removed_and_directory_created() {
    assert_eq!(
        directory_repair(true, false),
        vec![DirectoryStep::RemoveFile, DirectoryStep::CreateDir]
    );
}

#[test]
fn missing_directory_is_created() {
    assert_eq!(directory_repair(false, false), vec![DirectoryStep::CreateDir]);
    assert_eq!(directory_repair(false, true), vec![DirectoryStep::CreateDir]);
}

#[test]
fn existing_directory_is_left_alone() {
    assert_eq!(directory_repair(true, true), Vec::<DirectoryStep>::new());
}
