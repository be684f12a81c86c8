use light_stripe::config::{load, Config, ConfigFile};

#[test]
fn default_values() {
    let config = Config::default();
    assert_eq!(config.refresh_secs, 3);
    assert_eq!(config.ignored_ports, vec![53, 323, 5353, 0]);
    assert!(config.extra_dev_markers.is_empty());
}

#[test]
fn missing_file_uses_defaults() {
    let (config, warning) = load(ConfigFile::Missing);
    assert_eq!(config, Config::default());
    assert!(warning.is_none());
}
