use zknotes_core::config::{config_or_default, defcon, Config};
use zknotes_core::store::{Store, UserRecord};

#[test]
fn default_config_values() {
    let c = defcon();
    assert_eq!(c.ip, "127.0.0.1");
    assert_eq!(c.port, 8000);
    assert!(!c.createdirs);
    assert_eq!(c.db, "./mahbloag.db");
    assert_eq!(c.mainsite, "https:://mahbloag.practica.site/");
    assert_eq!(c.appname, "mahbloag");
    assert_eq!(c.domain, "practica.site");
    assert_eq!(c.admin_email, "admin@practica.site");
    assert_eq!(c.token_expiration_ms, 7 * 24 * 60 * 60 * 1000);
}

#[test]
fn missing_configuration_falls_back_to_defaults() {
    let c = config_or_default(None);
    assert_eq!(c.appname, "mahbloag");
    assert_eq!(c.token_expiration_ms, 604_800_000);
}

#[test]
fn loaded_configuration_is_used_as_is() {
    let loaded = Config {
        ip: "0.0.0.0".to_string(),
        port: 9001,
        createdirs: true,
        db: "/var/lib/notes.db".to_string(),
        mainsite: "https://notes.example/".to_string(),
        appname: "notes".to_string(),
        domain: "example".to_string(),
        admin_email: "root@example".to_string(),
        token_expiration_ms: 1000,
    };
    let c = config_or_default(Some(loaded));
    assert_eq!(c.ip, "0.0.0.0");
    assert_eq!(c.port, 9001);
    assert_eq!(c.token_expiration_ms, 1000);
}

#[test]
fn read_user_finds_only_existing_records() {
    let mut s = Store::new();
    assert!(s.add_user(UserRecord {
        id: "alice".to_string(),
        pwhash: "pw".to_string(),
        registration_key: None,
    }));
    let alice = "alice".to_string();
    let bob = "bob".to_string();
    let found = s.read_user(&alice).expect("alice exists");
    assert_eq!(found.id, "alice");
    assert_eq!(found.pwhash, "pw");
    assert!(s.read_user(&bob).is_none());
}

#[test]
fn duplicate_user_id_is_refused() {
    let mut s = Store::new();
    assert!(s.add_user(UserRecord {
        id: "alice".to_string(),
        pwhash: "pw1".to_string(),
        registration_key: None,
    }));
    let again = s.add_user(UserRecord {
        id: "alice".to_string(),
        pwhash: "pw2".to_string(),
        registration_key: None,
    });
    assert!(!again);
    assert_eq!(s.users.len(), 1);
    assert_eq!(s.users[0].pwhash, "pw1");
}

#[test]
fn update_user_replaces_the_matching_record() {
    let mut s = Store::new();
    assert!(s.add_user(UserRecord {
        id: "alice".to_string(),
        pwhash: "pw".to_string(),
        registration_key: Some("abc123".to_string()),
    }));
    let updated = UserRecord {
        id: "alice".to_string(),
        pwhash: "pw".to_string(),
        registration_key: None,
    };
    assert!(s.update_user(&updated));
    assert!(s.users[0].registration_key.is_none());

    let absent = UserRecord {
        id: "bob".to_string(),
        pwhash: "pw".to_string(),
        registration_key: None,
    };
    assert!(!s.update_user(&absent));
    assert_eq!(s.users.len(), 1);
}
