use grafana_migrate::config::{
    authorization, Config, ConfigError, Grafana, LogConfig, ServiceConfig,
    REQUEST_TIMEOUT_SECONDS,
};
use grafana_migrate::kind::Kind;
use grafana_migrate::orchestrator::Step;

fn grafana() -> Grafana {
    Grafana {
        src: ServiceConfig { host: "http://src".to_string(), api_key: "k1".to_string() },
        dst: ServiceConfig { host: "http://dst".to_string(), api_key: "k2".to_string() },
    }
}

#[test]
fn authorization_is_a_bearer_value() {
    assert_eq!(authorization("glsa_abc123"), Ok("Bearer glsa_abc123".to_string()));
    assert_eq!(authorization(""), Ok("Bearer ".to_string()));
    assert_eq!(authorization("with space\tand tab"), Ok("Bearer with space\tand tab".to_string()));
    assert_eq!(authorization("clé"), Ok("Bearer clé".to_string()));
}

#[test]
fn authorization_rejects_control_characters() {
    assert_eq!(authorization("line\nbreak"), Err(ConfigError::InvalidApiKey));
    assert_eq!(authorization("\r"), Err(ConfigError::InvalidApiKey));
    assert_eq!(authorization("nul\0"), Err(ConfigError::InvalidApiKey));
    assert_eq!(authorization("del\u{7f}"), Err(ConfigError::InvalidApiKey));
    assert_eq!(authorization("unit\u{1f}"), Err(ConfigError::InvalidApiKey));
}

#[test]
fn export_talks_to_the_source_and_import_to_the_destination() {
    let g = grafana();
    for kind in [Kind::Folder, Kind::Dashboard, Kind::Datasource] {
        assert_eq!(g.service(Step::Export(kind)), Some(&g.src));
        assert_eq!(g.service(Step::Import(kind)), Some(&g.dst));
    }
    assert_eq!(g.service(Step::Prepare), None);
    assert_eq!(g.service(Step::Done), None);
    assert_eq!(g.service(Step::Aborted), None);
}

#[test]
fn requests_time_out_after_five_seconds() {
    assert_eq!(REQUEST_TIMEOUT_SECONDS, 5);
}

#[test]
fn configuration_holds_what_it_was_given() {
    let config = Config {
        grafana: grafana(),
        log_config: LogConfig { filepath: "log4rs.yaml".to_string() },
    };
    assert_eq!(config.log_config.filepath, "log4rs.yaml");
    assert_eq!(config.grafana.src.host, "http://src");
    assert_eq!(config.clone(), config);
}

#[test]
fn authorization_accepts_exactly_the_header_characters() {
    for code in 0u32..=0x7f {
        let c = char::from_u32(code).unwrap();
        let key = format!("a{}b", c);
        let allowed = c == '\t' || (code >= 32 && code != 127);
        assert_eq!(authorization(&key).is_ok(), allowed, "character {}", code);
    }
    for c in ['\u{80}', '\u{ff}', 'é', '€', '\u{10000}', '\u{10ffff}'] {
        let key = c.to_string();
        assert_eq!(authorization(&key), Ok(format!("Bearer {}", key)));
    }
}
