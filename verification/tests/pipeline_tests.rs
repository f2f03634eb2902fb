use settings_store::error::SettingsError;
use settings_store::extensions::{
    ExtensionDescriptor, ExtensionEntry, ExtensionField, ExtensionFieldSpec, ExtensionRegistry,
    ExtensionSettings,
};
use settings_store::kvmap::KvMap;
use settings_store::model::{
    AppSettings, AppSettingsActivity, AppSettingsApp, AppSettingsServer, AppSettingsWebauthn,
    CaptchaProvider, MailMode, StorageDriver,
};
use settings_store::pipeline::AppSettingsDeserializer;
use settings_store::secret::SecretCipher;

fn cipher() -> SecretCipher {
    SecretCipher::new(vec![7, 13, 42, 99])
}

fn registry_with_backups() -> ExtensionRegistry {
    let mut registry = ExtensionRegistry::new();
    registry.register(ExtensionDescriptor {
        identifier: "backups".to_string(),
        type_tag: "BackupSettings".to_string(),
        fields: vec![
            ExtensionFieldSpec {
                name: "retention".to_string(),
                default_value: "7".to_string(),
            },
            ExtensionFieldSpec {
                name: "target".to_string(),
                default_value: "local".to_string(),
            },
        ],
    });
    registry
}

fn full_settings() -> AppSettings {
    AppSettings {
        telemetry_uuid: Some(0x550e8400e29b41d4a716446655440000u128),
        telemetry_cron_schedule: Some("0 0 * * * *".to_string()),
        oobe_step: Some("completed".to_string()),
        storage_driver: StorageDriver::S3 {
            public_url: "https://cdn.example.com".to_string(),
            access_key: "AKIDEXAMPLE".to_string(),
            secret_key: "topsecret".to_string(),
            bucket: "panel-data".to_string(),
            region: "eu-central-1".to_string(),
            endpoint: "https://s3.example.com".to_string(),
            path_style: true,
        },
        mail_mode: MailMode::Smtp {
            host: "mail.example.com".to_string(),
            port: 2525,
            username: Some("mailer".to_string()),
            password: Some("hunter2".to_string()),
            use_tls: false,
            from_address: "panel@example.com".to_string(),
            from_name: Some("Panel".to_string()),
        },
        captcha_provider: CaptchaProvider::Recaptcha {
            v3: true,
            site_key: "site-123".to_string(),
            secret_key: "captcha-secret".to_string(),
        },
        app: AppSettingsApp {
            name: "My Panel".to_string(),
            url: "https://panel.example.com".to_string(),
            telemetry_enabled: false,
        },
        webauthn: AppSettingsWebauthn {
            rp_id: "panel.example.com".to_string(),
            rp_origin: "https://panel.example.com".to_string(),
        },
        server: AppSettingsServer {
            max_file_manager_view_size: 123456,
            allow_overwriting_custom_docker_image: true,
        },
        activity: AppSettingsActivity {
            keep_days: 30,
            prune_cron: "0 15 2 * * *".to_string(),
        },
        extensions: vec![ExtensionEntry {
            identifier: "backups".to_string(),
            settings: ExtensionSettings {
                type_tag: "BackupSettings".to_string(),
                fields: vec![
                    ExtensionField {
                        name: "retention".to_string(),
                        value: "14".to_string(),
                    },
                    ExtensionField {
                        name: "target".to_string(),
                        value: "s3".to_string(),
                    },
                ],
            },
        }],
    }
}

#[test]
fn round_trip_full_aggregate() {
    let cipher = cipher();
    let registry = registry_with_backups();
    let settings = full_settings();
    let rows = settings.serialize(&cipher);
    let deserializer = AppSettingsDeserializer;
    let back = deserializer
        .deserialize(&rows, &registry, &cipher, true)
        .expect("round trip load");
    assert_eq!(back, settings);
}

#[test]
fn round_trip_filesystem_and_sendmail() {
    let cipher = cipher();
    let registry = ExtensionRegistry::new();
    let mut settings = full_settings();
    settings.extensions = vec![];
    settings.storage_driver = StorageDriver::Filesystem {
        path: "/srv/panel".to_string(),
    };
    settings.mail_mode = MailMode::Sendmail {
        command: "sendmail".to_string(),
        from_address: "ops@example.com".to_string(),
        from_name: Some("".to_string()),
    };
    let rows = settings.serialize(&cipher);
    let deserializer = AppSettingsDeserializer;
    let back = deserializer
        .deserialize(&rows, &registry, &cipher, false)
        .expect("round trip load");
    assert_eq!(back, settings);
}

#[test]
fn empty_store_yields_documented_defaults() {
    let cipher = cipher();
    let registry = ExtensionRegistry::new();
    let store = KvMap::new();
    let deserializer = AppSettingsDeserializer;
    let loaded = deserializer
        .deserialize(&store, &registry, &cipher, false)
        .expect("load of empty store");
    assert_eq!(loaded.telemetry_uuid, None);
    assert_eq!(loaded.telemetry_cron_schedule, None);
    assert_eq!(loaded.oobe_step, Some("register".to_string()));
    assert_eq!(
        loaded.storage_driver,
        StorageDriver::Filesystem {
            path: "/var/lib/calagopus".to_string()
        }
    );
    assert_eq!(loaded.mail_mode, MailMode::Disabled);
    assert_eq!(loaded.captcha_provider, CaptchaProvider::Disabled);
    assert_eq!(loaded.app.name, "Calagopus");
    assert_eq!(loaded.app.url, "http://localhost");
    assert!(loaded.app.telemetry_enabled);
    assert_eq!(loaded.webauthn.rp_id, "localhost");
    assert_eq!(loaded.webauthn.rp_origin, "http://localhost");
    assert_eq!(loaded.server.max_file_manager_view_size, 10485760);
    assert!(!loaded.server.allow_overwriting_custom_docker_image);
    assert_eq!(loaded.activity.keep_days, 90);
    assert_eq!(loaded.activity.prune_cron, "0 30 0 * * *");
    assert!(loaded.extensions.is_empty());
}

#[test]
fn empty_store_with_users_skips_onboarding() {
    let cipher = cipher();
    let registry = ExtensionRegistry::new();
    let store = KvMap::new();
    let deserializer = AppSettingsDeserializer;
    let loaded = deserializer
        .deserialize(&store, &registry, &cipher, true)
        .expect("load of empty store");
    assert_eq!(loaded.oobe_step, None);
}

#[test]
fn stored_uuid_is_the_hyphenated_form() {
    let cipher = cipher();
    let value = 0x550e8400e29b41d4a716446655440000u128;
    let mut settings = full_settings();
    settings.telemetry_uuid = Some(value);
    let rows = settings.serialize(&cipher);
    let stored = rows.get("telemetry_uuid").expect("uuid row");
    assert_eq!(stored, &uuid::Uuid::from_u128(value).to_string());
    assert_eq!(stored, "550e8400-e29b-41d4-a716-446655440000");
}

#[test]
fn malformed_uuid_degrades_to_absent() {
    let cipher = cipher();
    let registry = ExtensionRegistry::new();
    let mut store = KvMap::new();
    store.insert("telemetry_uuid".to_string(), "not-a-uuid".to_string());
    let deserializer = AppSettingsDeserializer;
    let loaded = deserializer
        .deserialize(&store, &registry, &cipher, true)
        .expect("load");
    assert_eq!(loaded.telemetry_uuid, None);
}

#[test]
fn invalid_cron_expression_degrades_to_absent() {
    let cipher = cipher();
    let registry = ExtensionRegistry::new();
    let mut store = KvMap::new();
    store.insert(
        "telemetry_cron_schedule".to_string(),
        "definitely not cron".to_string(),
    );
    let deserializer = AppSettingsDeserializer;
    let loaded = deserializer
        .deserialize(&store, &registry, &cipher, true)
        .expect("load");
    assert_eq!(loaded.telemetry_cron_schedule, None);
    let mut store2 = KvMap::new();
    store2.insert(
        "telemetry_cron_schedule".to_string(),
        "0 5 4 * * *".to_string(),
    );
    let loaded2 = deserializer
        .deserialize(&store2, &registry, &cipher, true)
        .expect("load");
    assert_eq!(loaded2.telemetry_cron_schedule, Some("0 5 4 * * *".to_string()));
}

#[test]
fn malformed_port_fails_the_load() {
    let cipher = cipher();
    let registry = ExtensionRegistry::new();
    let mut store = KvMap::new();
    store.insert("mail_mode".to_string(), "smtp".to_string());
    store.insert("mail_smtp_port".to_string(), "not-a-number".to_string());
    let deserializer = AppSettingsDeserializer;
    let result = deserializer.deserialize(&store, &registry, &cipher, true);
    assert_eq!(
        result,
        Err(SettingsError::MalformedStoredValue(
            "mail_smtp_port".to_string()
        ))
    );
}

#[test]
fn malformed_boolean_fails_the_load() {
    let cipher = cipher();
    let registry = ExtensionRegistry::new();
    let mut store = KvMap::new();
    store.insert("app_telemetry_enabled".to_string(), "yes".to_string());
    let deserializer = AppSettingsDeserializer;
    let result = deserializer.deserialize(&store, &registry, &cipher, true);
    assert_eq!(
        result,
        Err(SettingsError::MalformedStoredValue(
            "app_telemetry_enabled".to_string()
        ))
    );
}

#[test]
fn secret_under_wrong_key_fails_the_load() {
    let writing_cipher = SecretCipher::new(vec![1]);
    let reading_cipher = SecretCipher::new(vec![2]);
    let registry = ExtensionRegistry::new();
    let settings = full_settings();
    let rows = settings.serialize(&writing_cipher);
    let deserializer = AppSettingsDeserializer;
    let result = deserializer.deserialize(&rows, &registry, &reading_cipher, true);
    assert_eq!(
        result,
        Err(SettingsError::SecretDecryptionFailure(
            "storage_s3_access_key".to_string()
        ))
    );
}

#[test]
fn undecodable_secret_token_degrades_to_placeholder() {
    let cipher = cipher();
    let registry = ExtensionRegistry::new();
    let mut store = KvMap::new();
    store.insert("storage_driver".to_string(), "s3".to_string());
    store.insert("storage_s3_access_key".to_string(), "???".to_string());
    let deserializer = AppSettingsDeserializer;
    let loaded = deserializer
        .deserialize(&store, &registry, &cipher, true)
        .expect("load despite undecodable token");
    match loaded.storage_driver {
        StorageDriver::S3 { access_key, .. } => {
            assert_eq!(access_key, "your-access-key");
        }
        other => panic!("expected the S3 variant, got {:?}", other),
    }
}

#[test]
fn stored_secret_token_uses_the_storable_alphabet() {
    let cipher = cipher();
    let settings = full_settings();
    let rows = settings.serialize(&cipher);
    let token = rows.get("storage_s3_secret_key").expect("token row");
    assert!(!token.is_empty());
    assert_ne!(token, "topsecret");
    for c in token.chars() {
        assert!(
            "ybndrfg8ejkmcpqxot1uwisza345h769".contains(c),
            "character {:?} outside the storable alphabet",
            c
        );
    }
}

#[test]
fn unicode_secret_round_trips() {
    let cipher = cipher();
    let registry = ExtensionRegistry::new();
    let mut settings = full_settings();
    settings.extensions = vec![];
    settings.mail_mode = MailMode::Smtp {
        host: "mail.example.com".to_string(),
        port: 587,
        username: Some("grüße".to_string()),
        password: Some("pässword→🔑".to_string()),
        use_tls: true,
        from_address: "noreply@example.com".to_string(),
        from_name: Some("Gruß".to_string()),
    };
    let rows = settings.serialize(&cipher);
    let deserializer = AppSettingsDeserializer;
    let back = deserializer
        .deserialize(&rows, &registry, &cipher, true)
        .expect("round trip load");
    assert_eq!(back, settings);
}

#[test]
fn absent_optional_mail_secrets_stay_absent() {
    let cipher = cipher();
    let registry = ExtensionRegistry::new();
    let mut settings = full_settings();
    settings.extensions = vec![];
    settings.mail_mode = MailMode::Smtp {
        host: "mail.example.com".to_string(),
        port: 25,
        username: None,
        password: None,
        use_tls: true,
        from_address: "noreply@example.com".to_string(),
        from_name: Some("Panel".to_string()),
    };
    let rows = settings.serialize(&cipher);
    assert_eq!(rows.get("mail_smtp_username").expect("row"), "");
    let deserializer = AppSettingsDeserializer;
    let back = deserializer
        .deserialize(&rows, &registry, &cipher, true)
        .expect("round trip load");
    assert_eq!(back, settings);
}

#[test]
fn unknown_discriminants_fall_back() {
    let cipher = cipher();
    let registry = ExtensionRegistry::new();
    let mut store = KvMap::new();
    store.insert("storage_driver".to_string(), "carrier-pigeon".to_string());
    store.insert("mail_mode".to_string(), "smoke-signals".to_string());
    store.insert("captcha_provider".to_string(), "quiz".to_string());
    let deserializer = AppSettingsDeserializer;
    let loaded = deserializer
        .deserialize(&store, &registry, &cipher, true)
        .expect("load");
    assert!(matches!(
        loaded.storage_driver,
        StorageDriver::Filesystem { .. }
    ));
    assert_eq!(loaded.mail_mode, MailMode::Disabled);
    assert_eq!(loaded.captcha_provider, CaptchaProvider::Disabled);
}

#[test]
fn extension_fields_default_when_absent_and_round_trip_when_present() {
    let cipher = cipher();
    let registry = registry_with_backups();
    let store = KvMap::new();
    let deserializer = AppSettingsDeserializer;
    let loaded = deserializer
        .deserialize(&store, &registry, &cipher, true)
        .expect("load");
    assert_eq!(loaded.extensions.len(), 1);
    let entry = &loaded.extensions[0];
    assert_eq!(entry.identifier, "backups");
    assert_eq!(entry.settings.type_tag, "BackupSettings");
    assert_eq!(entry.settings.fields[0].value, "7");
    assert_eq!(entry.settings.fields[1].value, "local");

    let rows = loaded.serialize(&cipher);
    assert_eq!(rows.get("backups_retention").expect("row"), "7");
    let reloaded = deserializer
        .deserialize(&rows, &registry, &cipher, true)
        .expect("load");
    assert_eq!(reloaded.extensions, loaded.extensions);
}

#[test]
fn unregistered_extension_rows_leave_no_trace() {
    let cipher = cipher();
    let registry = ExtensionRegistry::new();
    let mut store = KvMap::new();
    store.insert("backups_retention".to_string(), "14".to_string());
    let deserializer = AppSettingsDeserializer;
    let loaded = deserializer
        .deserialize(&store, &registry, &cipher, true)
        .expect("load");
    assert!(loaded.extensions.is_empty());
}
