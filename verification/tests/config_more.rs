use light_stripe::config::{load, Config, ConfigFile};

#[test]
fn parsed_file_is_used_as_is() {
    let mut parsed = Config::default();
    parsed.refresh_secs = 5;
    let (config, warning) = load(ConfigFile::Parsed(parsed.clone()));
    assert_eq!(config, parsed);
    assert!(warning.is_none());
}

#[test]
fn invalid_file_falls_back_with_warning() {
    let (config, warning) = load(ConfigFile::Invalid {
        path: "/tmp/x.toml".to_string(),
        error: "expected `=`".to_string(),
    });
    assert_eq!(config, Config::default());
    assert_eq!(
        warning.as_deref(),
        Some("light-stripe: invalid config at /tmp/x.toml: expected `=`; using defaults")
    );
}

#[test]
fn docker_host_is_trimmed_and_blank_means_none() {
    let mut config = Config::default();
    assert_eq!(config.docker_host(), None);
    config.docker_host = Some("  unix:///var/run/docker.sock \n".to_string());
    assert_eq!(config.docker_host(), Some("unix:///var/run/docker.sock"));
    config.docker_host = Some("   ".to_string());
    assert_eq!(config.docker_host(), None);
}

#[test]
fn refresh_interval_is_at_least_one_second() {
    let mut config = light_stripe::config::Config::default();
    assert_eq!(config.refresh_interval_secs(), 3);
    config.refresh_secs = 0;
    assert_eq!(config.refresh_interval_secs(), 1);
    config.refresh_secs = 30;
    assert_eq!(config.refresh_interval_secs(), 30);
}
