use de_zoomcamp::config::{Config, ConfigError, Defect, Setting};

fn text(value: &str) -> Option<String> {
    Some(value.to_string())
}

#[test]
fn resolve_keeps_both_values_unchanged() {
    let config = Config::resolve(text("postgres://user:secret@db:5432/ny_taxi"), text("/data/trips.parquet"))
        .expect("both settings were supplied");
    assert_eq!(config.connection_url(), "postgres://user:secret@db:5432/ny_taxi");
    assert_eq!(config.source(), "/data/trips.parquet");
}

#[test]
fn resolve_keeps_quotes_and_spaces_verbatim() {
    let config = Config::resolve(text(" host=db user='a b' "), text("dir/o'clock.parquet"))
        .expect("both settings were supplied");
    assert_eq!(config.connection_url(), " host=db user='a b' ");
    assert_eq!(config.source(), "dir/o'clock.parquet");
}

#[test]
fn resolve_reports_unset_connection_url() {
    let resolved = Config::resolve(None, text("/data/trips.parquet"));
    assert_eq!(resolved, Err(ConfigError { setting: Setting::ConnectionUrl, defect: Defect::Unset }));
}

#[test]
fn resolve_reports_unset_source() {
    let resolved = Config::resolve(text("postgres://db"), None);
    assert_eq!(resolved, Err(ConfigError { setting: Setting::Source, defect: Defect::Unset }));
}

#[test]
fn resolve_reports_connection_url_first_when_both_are_unset() {
    let resolved = Config::resolve(None, None);
    assert_eq!(resolved, Err(ConfigError { setting: Setting::ConnectionUrl, defect: Defect::Unset }));
}

#[test]
fn resolve_reports_empty_connection_url() {
    let resolved = Config::resolve(text(""), text("/data/trips.parquet"));
    assert_eq!(resolved, Err(ConfigError { setting: Setting::ConnectionUrl, defect: Defect::Empty }));
}

#[test]
fn resolve_reports_empty_source() {
    let resolved = Config::resolve(text("postgres://db"), text(""));
    assert_eq!(resolved, Err(ConfigError { setting: Setting::Source, defect: Defect::Empty }));
}

#[test]
fn resolve_reports_empty_connection_url_before_unset_source() {
    let resolved = Config::resolve(text(""), None);
    assert_eq!(resolved, Err(ConfigError { setting: Setting::ConnectionUrl, defect: Defect::Empty }));
}

#[test]
fn resolve_accepts_a_single_character() {
    let config = Config::resolve(text("u"), text("f")).expect("one character is not empty");
    assert_eq!(config.connection_url(), "u");
    assert_eq!(config.source(), "f");
}

#[test]
fn settings_name_their_variables() {
    assert_eq!(Setting::ConnectionUrl.variable(), "DATABASE_URL");
    assert_eq!(Setting::Source.variable(), "DATA_FILE");
}

#[test]
fn config_error_messages_name_the_variable() {
    let unset_url = ConfigError { setting: Setting::ConnectionUrl, defect: Defect::Unset };
    assert_eq!(unset_url.message(), "DATABASE_URL environment variable is not set");
    let unset_file = ConfigError { setting: Setting::Source, defect: Defect::Unset };
    assert_eq!(unset_file.message(), "DATA_FILE environment variable is not set");
    let empty_url = ConfigError { setting: Setting::ConnectionUrl, defect: Defect::Empty };
    assert_eq!(empty_url.message(), "DATABASE_URL environment variable is empty");
    let empty_file = ConfigError { setting: Setting::Source, defect: Defect::Empty };
    assert_eq!(empty_file.message(), "DATA_FILE environment variable is empty");
}
