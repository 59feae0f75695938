use scree::db::alert::{
    delete_telegram_config, get_telegram_config, record, send_email, send_telegram,
    set_telegram_config, telegram_response, Alert, AlertSend, Channel, SendError, TelegramConfig,
};
use scree::db::config::{get_domain_or_default, set_domain, Parameter};
use scree::db::{
    create_schema, get_schema_version, init_schema, migrate_schema, property, set_property,
    DatabaseConfig, InitStep, PropertyInsert, PropertyWrite, SchemaStatus, VersionError, SCHEMA_VERSION,
};
use scree::time::Timestamp;

fn at(n: i64) -> Timestamp {
    Timestamp::new(n, 0).unwrap()
}

fn alert() -> Alert {
    Alert { subject: "S".to_string(), message: "M".to_string(), created_at: at(5) }
}

fn config() -> TelegramConfig {
    TelegramConfig { bot_token: "123:abc".to_string(), chat_id: "-42".to_string() }
}

fn upsert(write: &PropertyWrite) -> (&str, &str) {
    match write {
        PropertyWrite::Upsert { name, value } => (name.as_str(), value.as_str()),
        PropertyWrite::Delete { .. } => panic!("no value"),
    }
}

#[test]
fn connection_strings() {
    let config = DatabaseConfig::new("host=/run/postgresql dbname=scree").ok().unwrap();
    assert_eq!(config.pg_config.get_dbname(), Some("scree"));
    assert!(DatabaseConfig::new("host=localhost port=nonsense").is_err());
    assert!(DatabaseConfig::new("no settings").is_err());
}

#[test]
fn properties() {
    assert_eq!(upsert(&set_property("a", Some("b"))), ("a", "b"));
    assert!(matches!(set_property("a", None), PropertyWrite::Delete { name } if name == "a"));
}

#[test]
fn schema_versions() {
    assert_eq!(get_schema_version(None), Ok(None));
    assert_eq!(get_schema_version(Some("1".to_string())), Ok(Some(1)));
    assert_eq!(get_schema_version(Some("+17".to_string())), Ok(Some(17)));
    assert_eq!(get_schema_version(Some("4294967295".to_string())), Ok(Some(u32::MAX)));
    for bad in ["", "x", "-1", "4294967296", "1 ", "+"] {
        assert_eq!(get_schema_version(Some(bad.to_string())), Err(VersionError {}));
        assert!(bad.parse::<u32>().is_err());
    }
}

#[test]
fn schema_is_created_if_it_has_no_version() {
    assert_eq!(init_schema(None), InitStep::Create);
    assert_eq!(init_schema(Some(0)), InitStep::Migrate);
    assert_eq!(init_schema(Some(1)), InitStep::Migrate);
}

#[test]
fn created_schema_is_ready() {
    let writes = create_schema(at(0));
    assert_eq!(writes.len(), 2);
    assert_eq!((writes[0].name.as_str(), writes[0].value.as_str()), ("schema_version", "1"));
    assert_eq!(writes[1].name, "created_at");
    assert_eq!(writes[1].value, "1970-01-01T00:00:00+00:00");
    let version = get_schema_version(Some(writes[0].value.clone())).unwrap();
    assert_eq!(version, Some(SCHEMA_VERSION));
    assert_eq!(migrate_schema(version), SchemaStatus::Ready);
}

#[test]
fn schema_status_messages() {
    assert_eq!(migrate_schema(None), SchemaStatus::Unknown);
    assert_eq!(migrate_schema(Some(0)), SchemaStatus::Outdated(0));
    assert_eq!(migrate_schema(Some(12)), SchemaStatus::Unsupported(12));
    assert_eq!(SchemaStatus::Ready.message(), None);
    assert_eq!(SchemaStatus::Unknown.message().unwrap(), "unable to determine database schema version");
    assert_eq!(SchemaStatus::Outdated(0).message().unwrap(), "upgrade schema");
    assert_eq!(
        SchemaStatus::Unsupported(12).message().unwrap(),
        "unsupported schema version 12 (supported version is 1)"
    );
}

#[test]
fn domain() {
    assert_eq!(get_domain_or_default(None), "scree.example.com");
    assert_eq!(get_domain_or_default(Some("a.b".to_string())), "a.b");
    assert_eq!(upsert(&set_domain("a.b")), ("domain", "a.b"));
    assert_eq!(Parameter::Domain.property(), property::DOMAIN);
}

#[test]
fn telegram_config_is_stored_and_removed() {
    let writes = set_telegram_config(&config());
    assert_eq!(writes.len(), 2);
    assert_eq!(upsert(&writes[0]), ("telegram_bot_token", "123:abc"));
    assert_eq!(upsert(&writes[1]), ("telegram_chat_id", "-42"));
    let removed = delete_telegram_config();
    assert_eq!(removed.len(), 2);
    assert!(matches!(&removed[0], PropertyWrite::Delete { name } if name == "telegram_bot_token"));
    assert!(matches!(&removed[1], PropertyWrite::Delete { name } if name == "telegram_chat_id"));
}

#[test]
fn telegram_config_takes_both_properties() {
    let cfg = get_telegram_config(Some("t".to_string()), Some("c".to_string())).unwrap();
    assert_eq!(cfg.bot_token, "t");
    assert_eq!(cfg.chat_id, "c");
    assert!(get_telegram_config(None, Some("c".to_string())).is_none());
    assert!(get_telegram_config(Some("t".to_string()), None).is_none());
    assert!(get_telegram_config(None, None).is_none());
}

#[test]
fn channel_names() {
    assert_eq!(Channel::Email.as_str(), "email");
    assert_eq!(Channel::Telegram.as_str(), "telegram");
    assert_eq!(Channel::ALL, [Channel::Email, Channel::Telegram]);
}

#[test]
fn email_is_not_configured() {
    let e = send_email(&alert()).err().unwrap();
    assert!(matches!(e, SendError::NotConfigured));
    assert_eq!(e.message(), "channel has not been configured.");
}

#[test]
fn telegram_request() {
    let req = send_telegram(Some(config()), &alert()).ok().unwrap();
    assert_eq!(req.url, "https://api.telegram.org/bot123:abc/sendMessage");
    assert_eq!(req.parse_mode, "HTML");
    assert_eq!(req.chat_id, "-42");
    assert_eq!(req.text, "<b>S</b>\nM");
    assert!(matches!(send_telegram(None, &alert()), Err(SendError::NotConfigured)));
}

#[test]
fn telegram_answers() {
    assert!(telegram_response(true, None).is_ok());
    let e = telegram_response(false, Some("chat not found".to_string())).err().unwrap();
    assert!(matches!(e, SendError::Other(_)));
    assert_eq!(e.message(), "Telegram: failed to send message: chat not found");
    let e = telegram_response(false, None).err().unwrap();
    assert_eq!(e.message(), "Telegram: failed to send message: <unkown error>");
}

#[test]
fn history_entry() {
    let r = record("email", &alert(), true, at(9));
    assert_eq!(r.subject, "S");
    assert_eq!(r.message, "M");
    assert_eq!(r.channel, "email");
    assert_eq!(r.created_at, at(5));
    assert_eq!(r.delivered_at, Some(at(9)));
    assert_eq!(record("email", &alert(), false, at(9)).delivered_at, None);
}

#[test]
fn alert_goes_through_every_channel_once() {
    let mut send = AlertSend::new();
    assert_eq!(send.channel(), Some(Channel::Email));
    assert!(send.send(&alert(), &Err(SendError::NotConfigured), at(9)).is_none());
    assert_eq!(send.channel(), Some(Channel::Telegram));
    let r = send.send(&alert(), &Ok(()), at(9)).unwrap();
    assert_eq!(r.channel, "telegram");
    assert_eq!(r.delivered_at, Some(at(9)));
    assert_eq!(send.channel(), None);
}

#[test]
fn failed_delivery_has_no_date() {
    let mut send = AlertSend::new();
    let r = send.send(&alert(), &Err(SendError::Other("x".to_string())), at(9)).unwrap();
    assert_eq!(r.channel, "email");
    assert_eq!(r.delivered_at, None);
}

fn apply(properties: &mut std::collections::BTreeMap<String, String>, writes: Vec<PropertyWrite>) {
    for write in writes {
        match write {
            PropertyWrite::Upsert { name, value } => properties.insert(name, value),
            PropertyWrite::Delete { name } => properties.remove(&name),
        };
    }
}

/// Stores properties that must not have a value yet, all of them or none.
fn insert(
    properties: &mut std::collections::BTreeMap<String, String>,
    inserts: Vec<PropertyInsert>,
) -> bool {
    if inserts.iter().any(|i| properties.contains_key(&i.name)) {
        return false;
    }
    properties.extend(inserts.into_iter().map(|i| (i.name, i.value)));
    true
}

#[test]
fn schema_is_not_created_over_another() {
    let mut properties = std::collections::BTreeMap::new();
    properties.insert("created_at".to_string(), "before".to_string());
    assert!(!insert(&mut properties, create_schema(at(0))));
    assert_eq!(properties["created_at"], "before");
    assert_eq!(properties.len(), 1);
}

#[test]
fn settings_read_as_last_set() {
    let mut properties = std::collections::BTreeMap::new();
    assert!(insert(&mut properties, create_schema(at(0))));
    apply(&mut properties, vec![set_domain("old.example.com"), set_domain("new.example.com")]);
    apply(&mut properties, set_telegram_config(&config()));
    let read = |p: &std::collections::BTreeMap<String, String>, name: &str| p.get(name).cloned();
    assert_eq!(get_domain_or_default(read(&properties, property::DOMAIN)), "new.example.com");
    let cfg = get_telegram_config(
        read(&properties, property::TELEGRAM_BOT_TOKEN),
        read(&properties, property::TELEGRAM_CHAT_ID),
    );
    assert_eq!(cfg.unwrap().chat_id, "-42");
    apply(&mut properties, delete_telegram_config());
    assert!(get_telegram_config(
        read(&properties, property::TELEGRAM_BOT_TOKEN),
        read(&properties, property::TELEGRAM_CHAT_ID),
    )
    .is_none());
    assert_eq!(get_schema_version(read(&properties, property::SCHEMA_VERSION)), Ok(Some(1)));
    assert_eq!(get_domain_or_default(read(&properties, property::DOMAIN)), "new.example.com");
}
