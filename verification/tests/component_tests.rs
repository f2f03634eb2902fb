use settings_store::eggs::{
    validate_config_allocations, validate_docker_images, NestEggConfigAllocations,
    NestEggConfigAllocationsUserSelfAssign,
};
use settings_store::error::SettingsError;
use settings_store::extensions::{
    ExtensionDescriptor, ExtensionField, ExtensionFieldSpec, ExtensionRegistry, ExtensionSettings,
};
use settings_store::kvmap::KvMap;
use settings_store::model::{CaptchaProvider, PublicCaptchaProvider};
use settings_store::pipeline::AppSettingsDeserializer;
use settings_store::scalar::{parse_bool, parse_u16, parse_u64, u64_to_dec};
use settings_store::secret::SecretCipher;
use settings_store::strutil::{contains_password, mask_of_len, str_eq};

#[test]
fn decimal_rendering_and_parsing_are_inverse() {
    assert_eq!(u64_to_dec(0), "0");
    assert_eq!(u64_to_dec(587), "587");
    assert_eq!(u64_to_dec(u64::MAX), "18446744073709551615");
    assert_eq!(parse_u64("0"), Some(0));
    assert_eq!(parse_u64("587"), Some(587));
    assert_eq!(parse_u64("18446744073709551615"), Some(u64::MAX));
    assert_eq!(parse_u64("18446744073709551616"), None);
    assert_eq!(parse_u64(""), None);
    assert_eq!(parse_u64("12a"), None);
    assert_eq!(parse_u64("-1"), None);
    assert_eq!(parse_u16("65535"), Some(65535));
    assert_eq!(parse_u16("65536"), None);
    assert_eq!(parse_bool("true"), Some(true));
    assert_eq!(parse_bool("false"), Some(false));
    assert_eq!(parse_bool("1"), None);
}

#[test]
fn string_helpers_behave() {
    assert!(str_eq("abc", "abc"));
    assert!(!str_eq("abc", "abd"));
    assert!(contains_password("password"));
    assert!(contains_password("mail_smtp_password"));
    assert!(contains_password("password_confirmation"));
    assert!(!contains_password("passwort"));
    assert!(!contains_password("secret_key"));
    assert_eq!(mask_of_len(4), "****");
    assert_eq!(mask_of_len(0), "");
}

#[test]
fn kvmap_upserts_and_looks_up() {
    let mut map = KvMap::new();
    map.insert("a".to_string(), "1".to_string());
    map.insert("b".to_string(), "2".to_string());
    map.insert("a".to_string(), "3".to_string());
    assert_eq!(map.get("a"), Some(&"3".to_string()));
    assert_eq!(map.get("b"), Some(&"2".to_string()));
    assert_eq!(map.get("c"), None);
    assert_eq!(map.row_count(), 2);

    let mut other = KvMap::new();
    other.insert("b".to_string(), "9".to_string());
    other.insert("c".to_string(), "8".to_string());
    map.upsert_all(&other);
    assert_eq!(map.get("a"), Some(&"3".to_string()));
    assert_eq!(map.get("b"), Some(&"9".to_string()));
    assert_eq!(map.get("c"), Some(&"8".to_string()));
}

#[test]
fn typed_extension_lookup_distinguishes_its_failures() {
    let cipher = SecretCipher::new(vec![1, 2, 3]);
    let mut registry = ExtensionRegistry::new();
    registry.register(ExtensionDescriptor {
        identifier: "backups".to_string(),
        type_tag: "BackupSettings".to_string(),
        fields: vec![ExtensionFieldSpec {
            name: "retention".to_string(),
            default_value: "7".to_string(),
        }],
    });
    let deserializer = AppSettingsDeserializer;
    let mut loaded = deserializer
        .deserialize(&KvMap::new(), &registry, &cipher, true)
        .expect("load");

    let found = loaded
        .get_extension_settings("backups", "BackupSettings")
        .expect("typed lookup");
    assert_eq!(found.fields[0].value, "7");

    assert_eq!(
        loaded.get_extension_settings("backups", "OtherSettings"),
        Err(SettingsError::ExtensionTypeMismatch)
    );
    assert_eq!(
        loaded.get_extension_settings("unknown", "BackupSettings"),
        Err(SettingsError::MissingExtensionSettings)
    );

    let by_tag = loaded
        .find_extension_settings("BackupSettings")
        .expect("tag lookup");
    assert_eq!(by_tag.type_tag, "BackupSettings");
    assert_eq!(
        loaded.find_extension_settings("OtherSettings"),
        Err(SettingsError::MissingExtensionSettings)
    );

    let replacement = ExtensionSettings {
        type_tag: "BackupSettings".to_string(),
        fields: vec![ExtensionField {
            name: "retention".to_string(),
            value: "30".to_string(),
        }],
    };
    loaded
        .set_extension_settings("backups", replacement)
        .expect("typed replacement");
    assert_eq!(
        loaded
            .get_extension_settings("backups", "BackupSettings")
            .expect("typed lookup")
            .fields[0]
            .value,
        "30"
    );
    let wrong_tag = ExtensionSettings {
        type_tag: "OtherSettings".to_string(),
        fields: vec![],
    };
    assert_eq!(
        loaded.set_extension_settings("backups", wrong_tag),
        Err(SettingsError::ExtensionTypeMismatch)
    );
}

#[test]
fn registering_an_identifier_twice_replaces_the_first() {
    let mut registry = ExtensionRegistry::new();
    registry.register(ExtensionDescriptor {
        identifier: "backups".to_string(),
        type_tag: "BackupSettings".to_string(),
        fields: vec![ExtensionFieldSpec {
            name: "retention".to_string(),
            default_value: "7".to_string(),
        }],
    });
    registry.register(ExtensionDescriptor {
        identifier: "backups".to_string(),
        type_tag: "BackupSettingsV2".to_string(),
        fields: vec![ExtensionFieldSpec {
            name: "retention".to_string(),
            default_value: "14".to_string(),
        }],
    });
    assert_eq!(registry.len(), 1);
    assert_eq!(registry.descriptor_at(0).type_tag, "BackupSettingsV2");

    let cipher = SecretCipher::new(vec![9]);
    let deserializer = AppSettingsDeserializer;
    let loaded = deserializer
        .deserialize(&KvMap::new(), &registry, &cipher, true)
        .expect("load");
    assert_eq!(loaded.extensions.len(), 1);
    assert_eq!(loaded.extensions[0].settings.type_tag, "BackupSettingsV2");
    assert_eq!(loaded.extensions[0].settings.fields[0].value, "14");
}

#[test]
fn public_captcha_provider_never_carries_the_secret() {
    let provider = CaptchaProvider::Recaptcha {
        v3: true,
        site_key: "site-key".to_string(),
        secret_key: "server-secret".to_string(),
    };
    match provider.to_public_provider() {
        PublicCaptchaProvider::Recaptcha { v3, site_key } => {
            assert!(v3);
            assert_eq!(site_key, "site-key");
        }
        _ => panic!("expected the recaptcha variant"),
    }
    assert_eq!(
        provider.to_csp_script_src(),
        "https://www.google.com/recaptcha/ https://www.gstatic.com/recaptcha/"
    );
    assert_eq!(
        provider.to_csp_frame_src(),
        "https://www.google.com/recaptcha/ https://recaptcha.google.com/recaptcha/"
    );
    assert_eq!(provider.to_csp_style_src(), "");
    let hcaptcha = CaptchaProvider::Hcaptcha {
        site_key: "s".to_string(),
        secret_key: "k".to_string(),
    };
    assert_eq!(
        hcaptcha.to_csp_style_src(),
        "https://hcaptcha.com https://*.hcaptcha.com"
    );
}

#[test]
fn port_range_validity() {
    let defaults = NestEggConfigAllocationsUserSelfAssign::default();
    assert!(!defaults.enabled);
    assert!(defaults.require_primary_allocation);
    assert_eq!(defaults.start_port, 49152);
    assert_eq!(defaults.end_port, 65535);
    assert!(defaults.is_valid());

    let below_wellknown = NestEggConfigAllocationsUserSelfAssign {
        start_port: 80,
        end_port: 8080,
        ..defaults
    };
    assert!(!below_wellknown.is_valid());
    let inverted = NestEggConfigAllocationsUserSelfAssign {
        start_port: 4000,
        end_port: 3000,
        ..defaults
    };
    assert!(!inverted.is_valid());

    assert!(validate_config_allocations(&NestEggConfigAllocations::default()).is_ok());
    assert!(validate_config_allocations(&NestEggConfigAllocations {
        user_self_assign: inverted
    })
    .is_err());
}

#[test]
fn docker_image_lists_must_be_duplicate_free() {
    let unique = vec![
        ("java17".to_string(), "ghcr.io/example/java:17".to_string()),
        ("java21".to_string(), "ghcr.io/example/java:21".to_string()),
    ];
    assert!(validate_docker_images(&unique).is_ok());

    let duplicated = vec![
        ("java17".to_string(), "ghcr.io/example/java:17".to_string()),
        ("legacy".to_string(), "ghcr.io/example/java:17".to_string()),
    ];
    let err = validate_docker_images(&duplicated).expect_err("duplicate must be refused");
    assert_eq!(err, "duplicate docker image: ghcr.io/example/java:17");
}

#[test]
fn error_messages_name_the_offending_key() {
    let e = SettingsError::MalformedStoredValue("mail_smtp_port".to_string());
    assert_eq!(e.message(), "malformed stored value for key mail_smtp_port");
    let e = SettingsError::SecretDecryptionFailure("storage_s3_access_key".to_string());
    assert_eq!(
        e.message(),
        "stored secret could not be decrypted for key storage_s3_access_key"
    );
    assert_eq!(
        SettingsError::StoreUnavailable.message(),
        "settings store is unavailable"
    );
    assert_eq!(
        SettingsError::ExtensionTypeMismatch.message(),
        "failed to downcast extension settings"
    );
    assert_eq!(
        SettingsError::MissingExtensionSettings.message(),
        "failed to find extension settings"
    );
}

#[test]
fn cron_expressions_are_checked_with_the_cron_crate() {
    // The default prune schedule the store falls back to parses.
    assert!("0 30 0 * * *".parse::<cron::Schedule>().is_ok());
}
