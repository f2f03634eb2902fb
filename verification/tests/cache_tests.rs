use settings_store::cache::{Settings, CACHE_TTL_MILLIS};
use settings_store::extensions::ExtensionRegistry;
use settings_store::kvmap::KvMap;
use settings_store::model::{MailMode, StorageDriver};
use settings_store::secret::SecretCipher;

fn cipher() -> SecretCipher {
    SecretCipher::new(vec![5, 4, 3, 2, 1])
}

fn fresh_cache(has_users: bool, now: u64) -> Settings {
    Settings::new(
        KvMap::new(),
        ExtensionRegistry::new(),
        cipher(),
        has_users,
        now,
    )
    .expect("first load")
}

#[test]
fn first_load_of_empty_store_serves_defaults() {
    let mut settings = fresh_cache(false, 1000);
    let view = settings.get(1000, false).expect("read").settings;
    assert_eq!(
        view.storage_driver,
        StorageDriver::Filesystem {
            path: "/var/lib/calagopus".to_string()
        }
    );
    assert_eq!(view.mail_mode, MailMode::Disabled);
    assert_eq!(view.oobe_step, Some("register".to_string()));
}

#[test]
fn fresh_reads_are_served_from_the_active_generation() {
    let mut settings = fresh_cache(false, 1000);
    // Within the freshness window the cached snapshot answers, so the
    // changed `has_users` flag cannot influence the outcome.
    let view = settings.get(1000 + CACHE_TTL_MILLIS - 1, true).expect("read").settings;
    assert_eq!(view.oobe_step, Some("register".to_string()));
}

#[test]
fn expired_reads_reload_from_the_store() {
    let mut settings = fresh_cache(false, 1000);
    // Past the window the read goes back to the (still empty) store; the
    // fresh `has_users` answer now decides the onboarding step.
    let view = settings.get(1000 + CACHE_TTL_MILLIS, true).expect("read").settings;
    assert_eq!(view.oobe_step, None);
}

#[test]
fn invalidate_cache_forces_the_very_next_read_to_reload() {
    let mut settings = fresh_cache(false, 1000);
    let first = settings.get(1000, true).expect("read").settings;
    assert_eq!(first.oobe_step, Some("register".to_string()));
    settings.invalidate_cache(1000);
    let second = settings.get(1000, true).expect("read").settings;
    assert_eq!(second.oobe_step, None);
}

#[test]
fn save_publishes_the_working_copy_and_persists_its_rows() {
    let mut settings = fresh_cache(true, 1000);
    let mut guard = settings.get_mut(true).expect("write session");
    guard.settings.storage_driver = StorageDriver::S3 {
        public_url: "https://cdn.example.com".to_string(),
        access_key: "AKIDEXAMPLE".to_string(),
        secret_key: "topsecret".to_string(),
        bucket: "panel-data".to_string(),
        region: "us-east-1".to_string(),
        endpoint: "https://s3.amazonaws.com".to_string(),
        path_style: false,
    };
    guard.save(&mut settings, 2000);

    // The flat store holds the secret as a token, never in plaintext.
    let token = settings
        .stored_value("storage_s3_secret_key")
        .expect("stored token");
    assert!(!token.is_empty());
    assert_ne!(token, "topsecret");
    assert_eq!(
        settings.stored_value("storage_driver").expect("stored row"),
        "s3"
    );

    // A read right after the save observes the whole published value.
    let view = settings.get(2000, true).expect("read").settings;
    match &view.storage_driver {
        StorageDriver::S3 {
            secret_key, bucket, ..
        } => {
            assert_eq!(secret_key, "topsecret");
            assert_eq!(bucket, "panel-data");
        }
        other => panic!("expected the S3 variant, got {:?}", other),
    }

    // A reload after expiry reads the same truth back from the store.
    let later = settings.get(2000 + CACHE_TTL_MILLIS, true).expect("read").settings;
    assert!(matches!(later.storage_driver, StorageDriver::S3 { .. }));
}

#[test]
fn dropping_the_write_guard_discards_the_mutation() {
    let mut settings = fresh_cache(true, 1000);
    {
        let mut guard = settings.get_mut(true).expect("write session");
        guard.settings.app.name = "Renamed".to_string();
        // No save: the edit must leave no trace.
    }
    let view = settings.get(1000, true).expect("read").settings;
    assert_eq!(view.app.name, "Calagopus");
    let reloaded = settings.get(1000 + CACHE_TTL_MILLIS, true).expect("read").settings;
    assert_eq!(reloaded.app.name, "Calagopus");
}

#[test]
fn get_as_projects_the_current_snapshot() {
    let mut settings = fresh_cache(false, 1000);
    let name = settings
        .get_as(1000, false, |s| s.app.name.clone())
        .expect("projection read");
    assert_eq!(name, "Calagopus");
    let step = settings
        .get_as(1000, false, |s| s.oobe_step.clone())
        .expect("projection read");
    assert_eq!(step, Some("register".to_string()));
}

#[test]
fn corrupt_store_fails_construction_with_the_offending_key() {
    let mut store = KvMap::new();
    store.insert("activity_keep_days".to_string(), "ninety".to_string());
    let result = Settings::new(store, ExtensionRegistry::new(), cipher(), true, 1000);
    match result {
        Err(settings_store::error::SettingsError::MalformedStoredValue(key)) => {
            assert_eq!(key, "activity_keep_days");
        }
        Err(other) => panic!("expected a malformed-value failure, got {:?}", other),
        Ok(_) => panic!("expected a malformed-value failure, got a loaded cache"),
    }
}

#[test]
fn successive_saves_publish_in_order() {
    let mut settings = fresh_cache(true, 1000);
    let mut guard = settings.get_mut(true).expect("write session");
    guard.settings.app.name = "Good".to_string();
    guard.save(&mut settings, 1000);
    assert_eq!(settings.get(1000, true).expect("read").settings.app.name, "Good");

    let mut guard = settings.get_mut(true).expect("write session");
    guard.settings.app.name = "Better".to_string();
    guard.save(&mut settings, 2000);
    assert_eq!(settings.get(2000, true).expect("read").settings.app.name, "Better");
}

#[test]
fn censored_rendering_masks_password_fields_only() {
    let mut settings = fresh_cache(true, 1000);
    let mut guard = settings.get_mut(true).expect("write session");
    guard.settings.mail_mode = MailMode::Smtp {
        host: "mail.example.com".to_string(),
        port: 587,
        username: Some("mailer".to_string()),
        password: Some("hunter2".to_string()),
        use_tls: true,
        from_address: "noreply@example.com".to_string(),
        from_name: Some("Panel".to_string()),
    };
    guard.settings.storage_driver = StorageDriver::S3 {
        public_url: "https://cdn.example.com".to_string(),
        access_key: "AKIDEXAMPLE".to_string(),
        secret_key: "s3secret".to_string(),
        bucket: "panel-data".to_string(),
        region: "us-east-1".to_string(),
        endpoint: "https://s3.amazonaws.com".to_string(),
        path_style: false,
    };
    let rendered = guard.censored();
    let find = |key: &str| -> String {
        rendered
            .iter()
            .find(|(k, _)| k == key)
            .map(|(_, v)| v.clone())
            .expect("leaf present")
    };
    // The mask has a fixed length: it reveals neither the text nor the
    // length of the secret.
    assert_eq!(find("mail_smtp_password"), "********");
    assert_eq!(find("mail_smtp_username"), "mailer");
    assert_eq!(find("mail_smtp_host"), "mail.example.com");
    // Only the name pattern decides masking, exactly as the reference
    // behavior has it: an S3 secret is not named like a password.
    assert_eq!(find("storage_s3_secret_key"), "s3secret");
    for (key, value) in rendered.iter() {
        if key.contains("password") {
            assert!(value.chars().all(|c| c == '*'));
        }
    }

    // A guard with a much longer password renders the very same mask.
    let mut other = settings.get_mut(true).expect("write session");
    other.settings.mail_mode = MailMode::Smtp {
        host: "mail.example.com".to_string(),
        port: 587,
        username: None,
        password: Some("a-much-longer-secret-phrase".to_string()),
        use_tls: true,
        from_address: "noreply@example.com".to_string(),
        from_name: Some("Panel".to_string()),
    };
    let other_rendered = other.censored();
    let other_mask = other_rendered
        .iter()
        .find(|(k, _)| k == "mail_smtp_password")
        .map(|(_, v)| v.clone())
        .expect("leaf present");
    assert_eq!(other_mask, "********");
}
