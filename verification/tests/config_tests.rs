use velocity::config::Config;

#[test]
fn the_default_directory_is_the_current_one() {
    assert_eq!(Config::default(), Config { path: ".".to_string() });
}

#[test]
fn a_loaded_configuration_is_used() {
    let loaded = Config { path: "/home/me/notes".to_string() };
    assert_eq!(Config::or_default(Some(loaded)).path, "/home/me/notes");
}

#[test]
fn without_a_loaded_configuration_the_default_is_used() {
    assert_eq!(Config::or_default(None).path, ".");
}
