use resweb::config::AppConfig;
use resweb::config::CommonConfig;
use resweb::config::InitTemplatesConfig;
use resweb::config::ServeConfig;
use resweb::config::config_file_name_acceptable;
use resweb::config::default_template_dir;
use resweb::config::resolve_template_dir;
use resweb::error::StringError;
use resweb::graphql_schema::Query;
use resweb::option_condition::OptionCondition;
use resweb::option_condition::OptionMiddleware;
use resweb::site::SiteList;
use resweb::text::u16_dec_str;

#[test]
fn common_config_defaults_to_nothing() {
    let c = CommonConfig::default();
    assert_eq!(c.logging, None);
    assert_eq!(c.template_dir, None);
}

#[test]
fn template_dir_resolution() {
    assert_eq!(default_template_dir(), "templates");
    let unset = CommonConfig::default();
    assert_eq!(resolve_template_dir(&unset), "templates");
    let set = CommonConfig { logging: None, template_dir: Some("custom/dir".to_string()) };
    assert_eq!(resolve_template_dir(&set), "custom/dir");
}

#[test]
fn app_config_common_reaches_both_variants() {
    let serve = AppConfig::Serve(ServeConfig {
        common: CommonConfig { logging: Some("debug".to_string()), template_dir: None },
        port: 8081,
        interface_addresses: vec!["127.0.0.1".to_string()],
        authorization_server_url: "https://idp".to_string(),
        client_id: "resweb".to_string(),
        site_list: SiteList::new(),
        dev_mode_enabled: false,
    });
    assert_eq!(serve.common().logging.as_deref(), Some("debug"));
    let init = AppConfig::InitTemplates(InitTemplatesConfig { common: CommonConfig::default() });
    assert_eq!(init.common().logging, None);
}

#[test]
fn string_error_carries_message_and_source() {
    let plain = StringError::from("boom".to_string());
    assert_eq!(plain.message(), "boom");
    assert!(plain.source().is_none());
    let from_str_msg = StringError::from("dry");
    assert_eq!(from_str_msg.message(), "dry");
    let chained = StringError::from_source("io failure".to_string(), "cannot read config");
    assert_eq!(chained.message(), "cannot read config");
    assert_eq!(chained.source().map(|s| s.as_str()), Some("io failure"));
}

#[test]
fn query_resolves_fixed_resources() {
    let v = Query::resources();
    assert_eq!(v.len(), 1);
    assert_eq!(v[0].id, 1);
    assert_eq!(v[0].name, "Uwe");
}

#[test]
fn option_condition_keeps_transform() {
    let some: OptionCondition<u32> = OptionCondition::new(Some(7));
    assert_eq!(some.trans_opt, Some(7));
    let none: OptionCondition<u32> = OptionCondition::from(None);
    assert_eq!(none.trans_opt, None);
    let mw: OptionMiddleware<u32, bool> = OptionMiddleware::Enable(1);
    assert!(matches!(mw, OptionMiddleware::Enable(1)));
    let off: OptionMiddleware<u32, bool> = OptionMiddleware::Disable(true);
    assert!(matches!(off, OptionMiddleware::Disable(true)));
}

#[test]
fn config_file_names_must_be_yaml() {
    assert!(config_file_name_acceptable("gateway.yaml"));
    assert!(config_file_name_acceptable("gateway.yml"));
    assert!(!config_file_name_acceptable("gateway.json"));
    assert!(!config_file_name_acceptable("yaml"));
    assert!(config_file_name_acceptable(".yml"));
}

#[test]
fn bind_addresses_skip_ipv6_and_join_port() {
    let cfg = ServeConfig {
        common: CommonConfig::default(),
        port: 8081,
        interface_addresses: vec![
            "127.0.0.1".to_string(),
            "::1".to_string(),
            "192.168.1.4".to_string(),
        ],
        authorization_server_url: "https://idp".to_string(),
        client_id: "resweb".to_string(),
        site_list: SiteList::new(),
        dev_mode_enabled: false,
    };
    assert_eq!(cfg.bind_addresses(), vec!["127.0.0.1:8081".to_string(), "192.168.1.4:8081".to_string()]);
}

#[test]
fn decimal_rendering_is_exact() {
    assert_eq!(u16_dec_str(0), "0");
    assert_eq!(u16_dec_str(7), "7");
    assert_eq!(u16_dec_str(10), "10");
    assert_eq!(u16_dec_str(404), "404");
    assert_eq!(u16_dec_str(65535), "65535");
}
