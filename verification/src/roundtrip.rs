//! The round-trip law of the serialization pipeline: flattening a typed
//! aggregate and reading the rows back yields the same aggregate.
//!
//! The law holds of every aggregate whose optional fields are populated the
//! way a load produces them (a kept cron expression is one the cron crate
//! accepts, a kept onboarding step is non-empty, a mail sender name is
//! present), and whose extension map corresponds to the registry it will be
//! read back against, with namespaced keys that collide neither with the
//! built-in keys nor with each other.

use vstd::prelude::*;

use crate::error::ErrorKind;
use crate::extensions::{ExtensionDescriptorModel, ExtensionEntryModel, ExtensionFieldModel};
use crate::model::{
    AppSettingsActivityModel, AppSettingsAppModel, AppSettingsModel, AppSettingsServerModel,
    AppSettingsWebauthnModel, CaptchaProviderModel, MailModeModel, StorageDriverModel,
};
use crate::pipeline::{
    bool_out, cron_accepts, deser_activity, deser_app, deser_captcha, deser_extensions,
    deser_ext_fields, deser_mail, deser_oobe, deser_server, deser_storage, deser_telemetry_cron,
    deser_telemetry_uuid, deser_webauthn, ext_key, lookup, opt_out, read_bool, read_str, read_u64,
    secret_opt_out, ser_activity, ser_app, ser_captcha, ser_extensions, ser_ext_fields,
    ser_mail, ser_scalars, ser_server, ser_storage, ser_webauthn, spec_deserialize,
    spec_serialize, uuid_out, uuid_parse_spec, uuid_text,
};
use crate::scalar::{dec_rep, lemma_dec_round_trip, spec_parse_bool, spec_parse_u64};
use crate::secret::spec_secret_encode;

verus! {

/// Whether `k` is one of the built-in flat keys the pipeline itself writes.
pub open spec fn is_base_key(k: Seq<char>) -> bool {
    k == "telemetry_uuid"@ || k == "telemetry_cron_schedule"@ || k == "oobe_step"@ || k
        == "storage_driver"@ || k == "storage_filesystem_path"@ || k == "storage_s3_public_url"@
        || k == "storage_s3_access_key"@ || k == "storage_s3_secret_key"@ || k
        == "storage_s3_bucket"@ || k == "storage_s3_region"@ || k == "storage_s3_endpoint"@ || k
        == "storage_s3_path_style"@ || k == "mail_mode"@ || k == "mail_smtp_host"@ || k
        == "mail_smtp_port"@ || k == "mail_smtp_username"@ || k == "mail_smtp_password"@ || k
        == "mail_smtp_use_tls"@ || k == "mail_smtp_from_address"@ || k == "mail_smtp_from_name"@
        || k == "mail_sendmail_command"@ || k == "mail_sendmail_from_address"@ || k
        == "mail_sendmail_from_name"@ || k == "mail_filesystem_path"@ || k
        == "mail_filesystem_from_address"@ || k == "mail_filesystem_from_name"@ || k
        == "captcha_provider"@ || k == "turnstile_site_key"@ || k == "turnstile_secret_key"@ || k
        == "recaptcha_v3"@ || k == "recaptcha_site_key"@ || k == "recaptcha_secret_key"@ || k
        == "hcaptcha_site_key"@ || k == "hcaptcha_secret_key"@ || k == "friendlycaptcha_site_key"@
        || k == "friendlycaptcha_api_key"@ || k == "app_name"@ || k == "app_url"@ || k
        == "app_telemetry_enabled"@ || k == "webauthn_rp_id"@ || k == "webauthn_rp_origin"@ || k
        == "server_max_file_manager_view_size"@ || k
        == "server_allow_overwriting_custom_docker_image"@ || k == "activity_keep_days"@ || k
        == "activity_prune_cron"@
}

/// No extension-emitted key is a built-in key.
pub open spec fn ext_keys_not_base(exts: Seq<ExtensionEntryModel>) -> bool {
    forall|k: int, j: int|
        0 <= k < exts.len() && 0 <= j < exts[k].settings.fields.len() ==> !is_base_key(
            #[trigger] ext_key(exts[k].identifier, exts[k].settings.fields[j].name),
        )
}

/// Extension-emitted keys are pairwise distinct, across entries and within
/// each entry.
pub open spec fn ext_keys_distinct(exts: Seq<ExtensionEntryModel>) -> bool {
    forall|k1: int, j1: int, k2: int, j2: int|
        #![trigger ext_key(exts[k1].identifier, exts[k1].settings.fields[j1].name), ext_key(exts[k2].identifier, exts[k2].settings.fields[j2].name)]
        0 <= k1 < exts.len() && 0 <= j1 < exts[k1].settings.fields.len() && 0 <= k2 < exts.len()
            && 0 <= j2 < exts[k2].settings.fields.len() && (k1 != k2 || j1 != j2) ==> ext_key(
            exts[k1].identifier,
            exts[k1].settings.fields[j1].name,
        ) != ext_key(exts[k2].identifier, exts[k2].settings.fields[j2].name)
}

/// The aggregate's extension map corresponds to the registry: same length,
/// and entry by entry the same identifier, tag, and field names in order.
pub open spec fn matches_registry(
    exts: Seq<ExtensionEntryModel>,
    reg: Seq<ExtensionDescriptorModel>,
) -> bool {
    exts.len() == reg.len() && (forall|k: int|
        0 <= k < reg.len() ==> (#[trigger] exts[k].identifier == reg[k].identifier
            && exts[k].settings.type_tag == reg[k].type_tag && exts[k].settings.fields.len()
            == reg[k].fields.len())) && (forall|k: int, j: int|
        0 <= k < reg.len() && 0 <= j < reg[k].fields.len()
            ==> #[trigger] exts[k].settings.fields[j].name == reg[k].fields[j].name)
}

/// The active mail variant's sender name is populated; when it is absent,
/// the flat shape cannot distinguish it from an empty one.
pub open spec fn from_name_populated(mm: MailModeModel) -> bool {
    match mm {
        MailModeModel::Disabled => true,
        MailModeModel::Smtp { from_name, .. } => from_name is Some,
        MailModeModel::Sendmail { from_name, .. } => from_name is Some,
        MailModeModel::Filesystem { from_name, .. } => from_name is Some,
    }
}

/// The tokens of the active mail variant's optional secrets are non-empty,
/// as the byte encoding in fact guarantees and the serializer's contract
/// states of the tokens it wrote.
pub open spec fn mail_tokens_nonempty(key: Seq<u8>, mm: MailModeModel) -> bool {
    match mm {
        MailModeModel::Smtp { username, password, .. } => (username matches Some(u)
            ==> spec_secret_encode(key, u).len() > 0) && (password matches Some(p)
            ==> spec_secret_encode(key, p).len() > 0),
        _ => true,
    }
}

/// Everything the round-trip law asks of an aggregate and the registry it
/// is read back against.
pub open spec fn round_trip_ready(a: AppSettingsModel, reg: Seq<ExtensionDescriptorModel>) -> bool {
    (a.telemetry_cron_schedule matches Some(s) ==> cron_accepts(s)) && (a.oobe_step matches Some(s)
        ==> s.len() > 0) && from_name_populated(a.mail_mode) && matches_registry(a.extensions, reg)
        && ext_keys_not_base(a.extensions) && ext_keys_distinct(a.extensions)
}

/// The technical side condition the secret codec supplies: see
/// [`mail_tokens_nonempty`].
pub open spec fn secret_tokens_ok(key: Seq<u8>, a: AppSettingsModel) -> bool {
    mail_tokens_nonempty(key, a.mail_mode)
}

/// The flat rows carry this storage configuration.
pub open spec fn storage_matches(
    m: Map<Seq<char>, Seq<char>>,
    key: Seq<u8>,
    s: StorageDriverModel,
) -> bool {
    match s {
        StorageDriverModel::Filesystem { path } => lookup(m, "storage_driver"@) == Some(
            "filesystem"@,
        ) && lookup(m, "storage_filesystem_path"@) == Some(path),
        StorageDriverModel::S3 {
            public_url,
            access_key,
            secret_key,
            bucket,
            region,
            endpoint,
            path_style,
        } => lookup(m, "storage_driver"@) == Some("s3"@) && lookup(m, "storage_s3_public_url"@)
            == Some(public_url) && lookup(m, "storage_s3_access_key"@) == Some(
            spec_secret_encode(key, access_key),
        ) && lookup(m, "storage_s3_secret_key"@) == Some(spec_secret_encode(key, secret_key))
            && lookup(m, "storage_s3_bucket"@) == Some(bucket) && lookup(m, "storage_s3_region"@)
            == Some(region) && lookup(m, "storage_s3_endpoint"@) == Some(endpoint) && lookup(
            m,
            "storage_s3_path_style"@,
        ) == Some(bool_out(path_style)),
    }
}

/// The flat rows carry this mail configuration, with non-empty secret
/// tokens and a populated sender name where the variant has them.
pub open spec fn mail_matches(
    m: Map<Seq<char>, Seq<char>>,
    key: Seq<u8>,
    mm: MailModeModel,
) -> bool {
    match mm {
        MailModeModel::Disabled => lookup(m, "mail_mode"@) == Some("none"@),
        MailModeModel::Smtp { host, port, username, password, use_tls, from_address, from_name } => (
        lookup(m, "mail_mode"@) == Some("smtp"@) && lookup(m, "mail_smtp_host"@) == Some(host)
            && lookup(m, "mail_smtp_port"@) == Some(dec_rep(port as nat)) && lookup(
            m,
            "mail_smtp_username"@,
        ) == Some(secret_opt_out(key, username)) && (username matches Some(u)
            ==> spec_secret_encode(key, u).len() > 0) && lookup(m, "mail_smtp_password"@) == Some(
            secret_opt_out(key, password),
        ) && (password matches Some(p) ==> spec_secret_encode(key, p).len() > 0) && lookup(
            m,
            "mail_smtp_use_tls"@,
        ) == Some(bool_out(use_tls)) && lookup(m, "mail_smtp_from_address"@) == Some(from_address)
            && (from_name matches Some(f) && lookup(m, "mail_smtp_from_name"@) == Some(f))),
        MailModeModel::Sendmail { command, from_address, from_name } => (lookup(m, "mail_mode"@)
            == Some("sendmail"@) && lookup(m, "mail_sendmail_command"@) == Some(command) && lookup(
            m,
            "mail_sendmail_from_address"@,
        ) == Some(from_address) && (from_name matches Some(f) && lookup(
            m,
            "mail_sendmail_from_name"@,
        ) == Some(f))),
        MailModeModel::Filesystem { path, from_address, from_name } => (lookup(m, "mail_mode"@)
            == Some("filesystem"@) && lookup(m, "mail_filesystem_path"@) == Some(path) && lookup(
            m,
            "mail_filesystem_from_address"@,
        ) == Some(from_address) && (from_name matches Some(f) && lookup(
            m,
            "mail_filesystem_from_name"@,
        ) == Some(f))),
    }
}

/// The flat rows carry this captcha configuration.
pub open spec fn captcha_matches(m: Map<Seq<char>, Seq<char>>, c: CaptchaProviderModel) -> bool {
    match c {
        CaptchaProviderModel::Disabled => lookup(m, "captcha_provider"@) == Some("none"@),
        CaptchaProviderModel::Turnstile { site_key, secret_key } => (lookup(m, "captcha_provider"@)
            == Some("turnstile"@) && lookup(m, "turnstile_site_key"@) == Some(site_key) && lookup(
            m,
            "turnstile_secret_key"@,
        ) == Some(secret_key)),
        CaptchaProviderModel::Recaptcha { v3, site_key, secret_key } => (lookup(
            m,
            "captcha_provider"@,
        ) == Some("recaptcha"@) && lookup(m, "recaptcha_v3"@) == Some(bool_out(v3)) && lookup(
            m,
            "recaptcha_site_key"@,
        ) == Some(site_key) && lookup(m, "recaptcha_secret_key"@) == Some(secret_key)),
        CaptchaProviderModel::Hcaptcha { site_key, secret_key } => (lookup(m, "captcha_provider"@)
            == Some("hcaptcha"@) && lookup(m, "hcaptcha_site_key"@) == Some(site_key) && lookup(
            m,
            "hcaptcha_secret_key"@,
        ) == Some(secret_key)),
        CaptchaProviderModel::FriendlyCaptcha { site_key, api_key } => (lookup(
            m,
            "captcha_provider"@,
        ) == Some("friendlycaptcha"@) && lookup(m, "friendlycaptcha_site_key"@) == Some(site_key)
            && lookup(m, "friendlycaptcha_api_key"@) == Some(api_key)),
    }
}

/// The flat rows carry this application section.
pub open spec fn app_matches(m: Map<Seq<char>, Seq<char>>, a: AppSettingsAppModel) -> bool {
    lookup(m, "app_name"@) == Some(a.name) && lookup(m, "app_url"@) == Some(a.url) && lookup(
        m,
        "app_telemetry_enabled"@,
    ) == Some(bool_out(a.telemetry_enabled))
}

/// The flat rows carry this webauthn section.
pub open spec fn webauthn_matches(
    m: Map<Seq<char>, Seq<char>>,
    w: AppSettingsWebauthnModel,
) -> bool {
    lookup(m, "webauthn_rp_id"@) == Some(w.rp_id) && lookup(m, "webauthn_rp_origin"@) == Some(
        w.rp_origin,
    )
}

/// The flat rows carry this server section.
pub open spec fn server_matches(m: Map<Seq<char>, Seq<char>>, s: AppSettingsServerModel) -> bool {
    lookup(m, "server_max_file_manager_view_size"@) == Some(
        dec_rep(s.max_file_manager_view_size as nat),
    ) && lookup(m, "server_allow_overwriting_custom_docker_image"@) == Some(
        bool_out(s.allow_overwriting_custom_docker_image),
    )
}

/// The flat rows carry this activity section.
pub open spec fn activity_matches(
    m: Map<Seq<char>, Seq<char>>,
    a: AppSettingsActivityModel,
) -> bool {
    lookup(m, "activity_keep_days"@) == Some(dec_rep(a.keep_days as nat)) && lookup(
        m,
        "activity_prune_cron"@,
    ) == Some(a.prune_cron)
}

/// The reader honors any storage configuration the rows carry: the fact the
/// storage reader establishes about itself on every path, with the secret
/// codec's behavior on the tokens it saw folded in.
pub open spec fn storage_deser_fact(m: Map<Seq<char>, Seq<char>>, key: Seq<u8>) -> bool {
    forall|s: StorageDriverModel|
        #[trigger] storage_matches(m, key, s) ==> deser_storage(m, key) == Ok::<
            StorageDriverModel,
            ErrorKind,
        >(s)
}

/// The counterpart of [`storage_deser_fact`] for the mail reader.
pub open spec fn mail_deser_fact(m: Map<Seq<char>, Seq<char>>, key: Seq<u8>) -> bool {
    forall|mm: MailModeModel|
        #[trigger] mail_matches(m, key, mm) ==> deser_mail(m, key) == Ok::<
            MailModeModel,
            ErrorKind,
        >(mm)
}

/// What the uuid parser is known to do to this stored text: it inverts the
/// uuid printer, and rejects emptiness.
pub open spec fn uuid_parse_fact(stored: Seq<char>) -> bool {
    (forall|u: u128| stored == #[trigger] uuid_text(u) ==> uuid_parse_spec(stored) == Some(u)) && (
    stored.len() == 0 ==> uuid_parse_spec(stored) is None)
}

proof fn lemma_ext_fields_preserve(
    m0: Map<Seq<char>, Seq<char>>,
    id: Seq<char>,
    fields: Seq<ExtensionFieldModel>,
    bk: Seq<char>,
)
    requires
        forall|j: int| 0 <= j < fields.len() ==> #[trigger] ext_key(id, fields[j].name) != bk,
    ensures
        lookup(ser_ext_fields(m0, id, fields), bk) == lookup(m0, bk),
    decreases fields.len(),
{
    if fields.len() > 0 {
        assert forall|j: int| 0 <= j < fields.drop_last().len() implies #[trigger] ext_key(
            id,
            fields.drop_last()[j].name,
        ) != bk by {
            assert(fields.drop_last()[j] == fields[j]);
        }
        lemma_ext_fields_preserve(m0, id, fields.drop_last(), bk);
        assert(ext_key(id, fields[fields.len() - 1].name) != bk);
    }
}

proof fn lemma_exts_preserve(
    m0: Map<Seq<char>, Seq<char>>,
    exts: Seq<ExtensionEntryModel>,
    bk: Seq<char>,
)
    requires
        forall|k: int, j: int|
            0 <= k < exts.len() && 0 <= j < exts[k].settings.fields.len() ==> #[trigger] ext_key(
                exts[k].identifier,
                exts[k].settings.fields[j].name,
            ) != bk,
    ensures
        lookup(ser_extensions(m0, exts), bk) == lookup(m0, bk),
    decreases exts.len(),
{
    if exts.len() > 0 {
        assert forall|k: int, j: int|
            0 <= k < exts.drop_last().len() && 0 <= j
                < exts.drop_last()[k].settings.fields.len() implies #[trigger] ext_key(
            exts.drop_last()[k].identifier,
            exts.drop_last()[k].settings.fields[j].name,
        ) != bk by {
            assert(exts.drop_last()[k] == exts[k]);
        }
        lemma_exts_preserve(m0, exts.drop_last(), bk);
        let last = exts[exts.len() - 1];
        assert forall|j: int| 0 <= j < last.settings.fields.len() implies #[trigger] ext_key(
            last.identifier,
            last.settings.fields[j].name,
        ) != bk by {
            assert(exts[exts.len() - 1].settings.fields[j] == last.settings.fields[j]);
        }
        lemma_ext_fields_preserve(
            ser_extensions(m0, exts.drop_last()),
            last.identifier,
            last.settings.fields,
            bk,
        );
    }
}

/// Extension rows sit on top of the built-in rows without shadowing any of
/// them.
proof fn lemma_exts_preserve_base(m0: Map<Seq<char>, Seq<char>>, exts: Seq<ExtensionEntryModel>)
    requires
        ext_keys_not_base(exts),
    ensures
        forall|bk: Seq<char>|
            is_base_key(bk) ==> #[trigger] lookup(ser_extensions(m0, exts), bk) == lookup(m0, bk),
{
    assert forall|bk: Seq<char>| is_base_key(bk) implies #[trigger] lookup(
        ser_extensions(m0, exts),
        bk,
    ) == lookup(m0, bk) by {
        assert forall|k: int, j: int|
            0 <= k < exts.len() && 0 <= j < exts[k].settings.fields.len() implies #[trigger] ext_key(
            exts[k].identifier,
            exts[k].settings.fields[j].name,
        ) != bk by {
            assert(!is_base_key(ext_key(exts[k].identifier, exts[k].settings.fields[j].name)));
        }
        lemma_exts_preserve(m0, exts, bk);
    }
}

proof fn lemma_ext_fields_lookup(
    m0: Map<Seq<char>, Seq<char>>,
    id: Seq<char>,
    fields: Seq<ExtensionFieldModel>,
    j: int,
)
    requires
        0 <= j < fields.len(),
        forall|j2: int|
            j < j2 < fields.len() ==> #[trigger] ext_key(id, fields[j2].name) != ext_key(
                id,
                fields[j].name,
            ),
    ensures
        lookup(ser_ext_fields(m0, id, fields), ext_key(id, fields[j].name)) == Some(
            fields[j].value,
        ),
    decreases fields.len(),
{
    if j == fields.len() - 1 {
    } else {
        assert forall|j2: int|
            j < j2 < fields.drop_last().len() implies #[trigger] ext_key(
            id,
            fields.drop_last()[j2].name,
        ) != ext_key(id, fields.drop_last()[j].name) by {
            assert(fields.drop_last()[j2] == fields[j2]);
            assert(fields.drop_last()[j] == fields[j]);
        }
        lemma_ext_fields_lookup(m0, id, fields.drop_last(), j);
        assert(fields.drop_last()[j] == fields[j]);
        assert(ext_key(id, fields[fields.len() - 1].name) != ext_key(id, fields[j].name));
    }
}

proof fn lemma_exts_lookup(
    m0: Map<Seq<char>, Seq<char>>,
    exts: Seq<ExtensionEntryModel>,
    k: int,
    j: int,
)
    requires
        ext_keys_distinct(exts),
        0 <= k < exts.len(),
        0 <= j < exts[k].settings.fields.len(),
    ensures
        lookup(ser_extensions(m0, exts), ext_key(exts[k].identifier, exts[k].settings.fields[j].name))
            == Some(exts[k].settings.fields[j].value),
    decreases exts.len(),
{
    let target = ext_key(exts[k].identifier, exts[k].settings.fields[j].name);
    if k == exts.len() - 1 {
        let last = exts[k];
        assert forall|j2: int|
            j < j2 < last.settings.fields.len() implies #[trigger] ext_key(
            last.identifier,
            last.settings.fields[j2].name,
        ) != ext_key(last.identifier, last.settings.fields[j].name) by {
            assert(exts[k].settings.fields[j2] == last.settings.fields[j2]);
        }
        lemma_ext_fields_lookup(
            ser_extensions(m0, exts.drop_last()),
            last.identifier,
            last.settings.fields,
            j,
        );
    } else {
        assert forall|k1: int, j1: int, k2: int, j2: int|
            #![trigger ext_key(exts.drop_last()[k1].identifier, exts.drop_last()[k1].settings.fields[j1].name), ext_key(exts.drop_last()[k2].identifier, exts.drop_last()[k2].settings.fields[j2].name)]
            0 <= k1 < exts.drop_last().len() && 0 <= j1 < exts.drop_last()[k1].settings.fields.len()
                && 0 <= k2 < exts.drop_last().len() && 0 <= j2
                < exts.drop_last()[k2].settings.fields.len() && (k1 != k2 || j1 != j2) implies (
        ext_key(exts.drop_last()[k1].identifier, exts.drop_last()[k1].settings.fields[j1].name)
            != ext_key(
            exts.drop_last()[k2].identifier,
            exts.drop_last()[k2].settings.fields[j2].name,
        )) by {
            assert(exts.drop_last()[k1] == exts[k1]);
            assert(exts.drop_last()[k2] == exts[k2]);
        }
        assert(exts.drop_last()[k] == exts[k]);
        lemma_exts_lookup(m0, exts.drop_last(), k, j);
        let last = exts[exts.len() - 1];
        assert forall|j2: int| 0 <= j2 < last.settings.fields.len() implies #[trigger] ext_key(
            last.identifier,
            last.settings.fields[j2].name,
        ) != target by {
            assert(exts[exts.len() - 1].settings.fields[j2] == last.settings.fields[j2]);
        }
        lemma_ext_fields_preserve(
            ser_extensions(m0, exts.drop_last()),
            last.identifier,
            last.settings.fields,
            target,
        );
    }
}

/// The flat keys the storage union can write.
pub open spec fn is_storage_key(k: Seq<char>) -> bool {
    k == "storage_driver"@ || k == "storage_filesystem_path"@ || k == "storage_s3_public_url"@
        || k == "storage_s3_access_key"@ || k == "storage_s3_secret_key"@ || k
        == "storage_s3_bucket"@ || k == "storage_s3_region"@ || k == "storage_s3_endpoint"@ || k
        == "storage_s3_path_style"@
}

/// The flat keys the mail union can write.
pub open spec fn is_mail_key(k: Seq<char>) -> bool {
    k == "mail_mode"@ || k == "mail_smtp_host"@ || k == "mail_smtp_port"@ || k
        == "mail_smtp_username"@ || k == "mail_smtp_password"@ || k == "mail_smtp_use_tls"@ || k
        == "mail_smtp_from_address"@ || k == "mail_smtp_from_name"@ || k == "mail_sendmail_command"@
        || k == "mail_sendmail_from_address"@ || k == "mail_sendmail_from_name"@ || k
        == "mail_filesystem_path"@ || k == "mail_filesystem_from_address"@ || k
        == "mail_filesystem_from_name"@
}

/// The flat keys the captcha union can write.
pub open spec fn is_captcha_key(k: Seq<char>) -> bool {
    k == "captcha_provider"@ || k == "turnstile_site_key"@ || k == "turnstile_secret_key"@ || k
        == "recaptcha_v3"@ || k == "recaptcha_site_key"@ || k == "recaptcha_secret_key"@ || k
        == "hcaptcha_site_key"@ || k == "hcaptcha_secret_key"@ || k == "friendlycaptcha_site_key"@
        || k == "friendlycaptcha_api_key"@
}

/// The flat keys of the application section.
pub open spec fn is_app_key(k: Seq<char>) -> bool {
    k == "app_name"@ || k == "app_url"@ || k == "app_telemetry_enabled"@
}

/// The flat keys of the webauthn section.
pub open spec fn is_webauthn_key(k: Seq<char>) -> bool {
    k == "webauthn_rp_id"@ || k == "webauthn_rp_origin"@
}

/// The flat keys of the server section.
pub open spec fn is_server_key(k: Seq<char>) -> bool {
    k == "server_max_file_manager_view_size"@ || k
        == "server_allow_overwriting_custom_docker_image"@
}

/// The flat keys of the activity section.
pub open spec fn is_activity_key(k: Seq<char>) -> bool {
    k == "activity_keep_days"@ || k == "activity_prune_cron"@
}

/// Ground facts about every string literal the pipeline writes: their
/// lengths, and enough characters to tell any two of them apart.
pub proof fn lemma_key_facts()
    ensures
        "telemetry_uuid"@.len() == 14,
        "telemetry_uuid"@[0] == 't',
        "telemetry_cron_schedule"@.len() == 23,
        "telemetry_cron_schedule"@[0] == 't',
        "oobe_step"@.len() == 9,
        "oobe_step"@[0] == 'o',
        "storage_driver"@.len() == 14,
        "storage_driver"@[0] == 's',
        "storage_filesystem_path"@.len() == 23,
        "storage_filesystem_path"@[0] == 's',
        "storage_s3_public_url"@.len() == 21,
        "storage_s3_public_url"@[0] == 's',
        "storage_s3_public_url"@[11] == 'p',
        "storage_s3_public_url"@[12] == 'u',
        "storage_s3_access_key"@.len() == 21,
        "storage_s3_access_key"@[0] == 's',
        "storage_s3_access_key"@[11] == 'a',
        "storage_s3_secret_key"@.len() == 21,
        "storage_s3_secret_key"@[0] == 's',
        "storage_s3_secret_key"@[11] == 's',
        "storage_s3_bucket"@.len() == 17,
        "storage_s3_bucket"@[0] == 's',
        "storage_s3_bucket"@[11] == 'b',
        "storage_s3_region"@.len() == 17,
        "storage_s3_region"@[0] == 's',
        "storage_s3_region"@[11] == 'r',
        "storage_s3_endpoint"@.len() == 19,
        "storage_s3_endpoint"@[0] == 's',
        "storage_s3_path_style"@.len() == 21,
        "storage_s3_path_style"@[0] == 's',
        "storage_s3_path_style"@[11] == 'p',
        "storage_s3_path_style"@[12] == 'a',
        "mail_mode"@.len() == 9,
        "mail_mode"@[0] == 'm',
        "mail_smtp_host"@.len() == 14,
        "mail_smtp_host"@[0] == 'm',
        "mail_smtp_host"@[10] == 'h',
        "mail_smtp_port"@.len() == 14,
        "mail_smtp_port"@[0] == 'm',
        "mail_smtp_port"@[10] == 'p',
        "mail_smtp_username"@.len() == 18,
        "mail_smtp_username"@[0] == 'm',
        "mail_smtp_username"@[10] == 'u',
        "mail_smtp_password"@.len() == 18,
        "mail_smtp_password"@[0] == 'm',
        "mail_smtp_password"@[10] == 'p',
        "mail_smtp_use_tls"@.len() == 17,
        "mail_smtp_use_tls"@[0] == 'm',
        "mail_smtp_from_address"@.len() == 22,
        "mail_smtp_from_name"@.len() == 19,
        "mail_smtp_from_name"@[0] == 'm',
        "mail_sendmail_command"@.len() == 21,
        "mail_sendmail_command"@[0] == 'm',
        "mail_sendmail_from_address"@.len() == 26,
        "mail_sendmail_from_name"@.len() == 23,
        "mail_sendmail_from_name"@[0] == 'm',
        "mail_filesystem_path"@.len() == 20,
        "mail_filesystem_path"@[0] == 'm',
        "mail_filesystem_from_address"@.len() == 28,
        "mail_filesystem_from_name"@.len() == 25,
        "captcha_provider"@.len() == 16,
        "turnstile_site_key"@.len() == 18,
        "turnstile_site_key"@[0] == 't',
        "turnstile_secret_key"@.len() == 20,
        "turnstile_secret_key"@[0] == 't',
        "recaptcha_v3"@.len() == 12,
        "recaptcha_site_key"@.len() == 18,
        "recaptcha_site_key"@[0] == 'r',
        "recaptcha_secret_key"@.len() == 20,
        "recaptcha_secret_key"@[0] == 'r',
        "hcaptcha_site_key"@.len() == 17,
        "hcaptcha_site_key"@[0] == 'h',
        "hcaptcha_secret_key"@.len() == 19,
        "hcaptcha_secret_key"@[0] == 'h',
        "friendlycaptcha_site_key"@.len() == 24,
        "friendlycaptcha_api_key"@.len() == 23,
        "friendlycaptcha_api_key"@[0] == 'f',
        "app_name"@.len() == 8,
        "app_name"@[0] == 'a',
        "app_url"@.len() == 7,
        "app_telemetry_enabled"@.len() == 21,
        "app_telemetry_enabled"@[0] == 'a',
        "webauthn_rp_id"@.len() == 14,
        "webauthn_rp_id"@[0] == 'w',
        "webauthn_rp_origin"@.len() == 18,
        "webauthn_rp_origin"@[0] == 'w',
        "server_max_file_manager_view_size"@.len() == 33,
        "server_allow_overwriting_custom_docker_image"@.len() == 44,
        "activity_keep_days"@.len() == 18,
        "activity_keep_days"@[0] == 'a',
        "activity_prune_cron"@.len() == 19,
        "activity_prune_cron"@[0] == 'a',
        "filesystem"@.len() == 10,
        "s3"@.len() == 2,
        "none"@.len() == 4,
        "none"@[0] == 'n',
        "smtp"@.len() == 4,
        "smtp"@[0] == 's',
        "sendmail"@.len() == 8,
        "sendmail"@[0] == 's',
        "turnstile"@.len() == 9,
        "turnstile"@[0] == 't',
        "recaptcha"@.len() == 9,
        "recaptcha"@[0] == 'r',
        "hcaptcha"@.len() == 8,
        "hcaptcha"@[0] == 'h',
        "friendlycaptcha"@.len() == 15,
        "true"@.len() == 4,
        "true"@[0] == 't',
        "false"@.len() == 5,
{
    reveal_strlit("telemetry_uuid");
    reveal_strlit("telemetry_cron_schedule");
    reveal_strlit("oobe_step");
    reveal_strlit("storage_driver");
    reveal_strlit("storage_filesystem_path");
    reveal_strlit("storage_s3_public_url");
    reveal_strlit("storage_s3_access_key");
    reveal_strlit("storage_s3_secret_key");
    reveal_strlit("storage_s3_bucket");
    reveal_strlit("storage_s3_region");
    reveal_strlit("storage_s3_endpoint");
    reveal_strlit("storage_s3_path_style");
    reveal_strlit("mail_mode");
    reveal_strlit("mail_smtp_host");
    reveal_strlit("mail_smtp_port");
    reveal_strlit("mail_smtp_username");
    reveal_strlit("mail_smtp_password");
    reveal_strlit("mail_smtp_use_tls");
    reveal_strlit("mail_smtp_from_address");
    reveal_strlit("mail_smtp_from_name");
    reveal_strlit("mail_sendmail_command");
    reveal_strlit("mail_sendmail_from_address");
    reveal_strlit("mail_sendmail_from_name");
    reveal_strlit("mail_filesystem_path");
    reveal_strlit("mail_filesystem_from_address");
    reveal_strlit("mail_filesystem_from_name");
    reveal_strlit("captcha_provider");
    reveal_strlit("turnstile_site_key");
    reveal_strlit("turnstile_secret_key");
    reveal_strlit("recaptcha_v3");
    reveal_strlit("recaptcha_site_key");
    reveal_strlit("recaptcha_secret_key");
    reveal_strlit("hcaptcha_site_key");
    reveal_strlit("hcaptcha_secret_key");
    reveal_strlit("friendlycaptcha_site_key");
    reveal_strlit("friendlycaptcha_api_key");
    reveal_strlit("app_name");
    reveal_strlit("app_url");
    reveal_strlit("app_telemetry_enabled");
    reveal_strlit("webauthn_rp_id");
    reveal_strlit("webauthn_rp_origin");
    reveal_strlit("server_max_file_manager_view_size");
    reveal_strlit("server_allow_overwriting_custom_docker_image");
    reveal_strlit("activity_keep_days");
    reveal_strlit("activity_prune_cron");
    reveal_strlit("filesystem");
    reveal_strlit("s3");
    reveal_strlit("none");
    reveal_strlit("smtp");
    reveal_strlit("sendmail");
    reveal_strlit("turnstile");
    reveal_strlit("recaptcha");
    reveal_strlit("hcaptcha");
    reveal_strlit("friendlycaptcha");
    reveal_strlit("true");
    reveal_strlit("false");
}

proof fn lemma_storage_preserve(m0: Map<Seq<char>, Seq<char>>, s: StorageDriverModel, key: Seq<u8>)
    ensures
        forall|bk: Seq<char>|
            !is_storage_key(bk) ==> #[trigger] lookup(ser_storage(m0, s, key), bk) == lookup(
                m0,
                bk,
            ),
{
    match s {
        StorageDriverModel::Filesystem { .. } => {
            assert forall|bk: Seq<char>| !is_storage_key(bk) implies #[trigger] lookup(
                ser_storage(m0, s, key),
                bk,
            ) == lookup(m0, bk) by {}
        },
        StorageDriverModel::S3 { .. } => {
            assert forall|bk: Seq<char>| !is_storage_key(bk) implies #[trigger] lookup(
                ser_storage(m0, s, key),
                bk,
            ) == lookup(m0, bk) by {}
        },
    }
}

proof fn lemma_mail_preserve(m0: Map<Seq<char>, Seq<char>>, mm: MailModeModel, key: Seq<u8>)
    ensures
        forall|bk: Seq<char>|
            !is_mail_key(bk) ==> #[trigger] lookup(ser_mail(m0, mm, key), bk) == lookup(m0, bk),
{
    match mm {
        MailModeModel::Disabled => {
            assert forall|bk: Seq<char>| !is_mail_key(bk) implies #[trigger] lookup(
                ser_mail(m0, mm, key),
                bk,
            ) == lookup(m0, bk) by {}
        },
        MailModeModel::Smtp { .. } => {
            assert forall|bk: Seq<char>| !is_mail_key(bk) implies #[trigger] lookup(
                ser_mail(m0, mm, key),
                bk,
            ) == lookup(m0, bk) by {}
        },
        MailModeModel::Sendmail { .. } => {
            assert forall|bk: Seq<char>| !is_mail_key(bk) implies #[trigger] lookup(
                ser_mail(m0, mm, key),
                bk,
            ) == lookup(m0, bk) by {}
        },
        MailModeModel::Filesystem { .. } => {
            assert forall|bk: Seq<char>| !is_mail_key(bk) implies #[trigger] lookup(
                ser_mail(m0, mm, key),
                bk,
            ) == lookup(m0, bk) by {}
        },
    }
}

proof fn lemma_captcha_preserve(m0: Map<Seq<char>, Seq<char>>, c: CaptchaProviderModel)
    ensures
        forall|bk: Seq<char>|
            !is_captcha_key(bk) ==> #[trigger] lookup(ser_captcha(m0, c), bk) == lookup(m0, bk),
{
    match c {
        CaptchaProviderModel::Disabled => {
            assert forall|bk: Seq<char>| !is_captcha_key(bk) implies #[trigger] lookup(
                ser_captcha(m0, c),
                bk,
            ) == lookup(m0, bk) by {}
        },
        CaptchaProviderModel::Turnstile { .. } => {
            assert forall|bk: Seq<char>| !is_captcha_key(bk) implies #[trigger] lookup(
                ser_captcha(m0, c),
                bk,
            ) == lookup(m0, bk) by {}
        },
        CaptchaProviderModel::Recaptcha { .. } => {
            assert forall|bk: Seq<char>| !is_captcha_key(bk) implies #[trigger] lookup(
                ser_captcha(m0, c),
                bk,
            ) == lookup(m0, bk) by {}
        },
        CaptchaProviderModel::Hcaptcha { .. } => {
            assert forall|bk: Seq<char>| !is_captcha_key(bk) implies #[trigger] lookup(
                ser_captcha(m0, c),
                bk,
            ) == lookup(m0, bk) by {}
        },
        CaptchaProviderModel::FriendlyCaptcha { .. } => {
            assert forall|bk: Seq<char>| !is_captcha_key(bk) implies #[trigger] lookup(
                ser_captcha(m0, c),
                bk,
            ) == lookup(m0, bk) by {}
        },
    }
}

proof fn lemma_app_preserve(m0: Map<Seq<char>, Seq<char>>, a: AppSettingsAppModel)
    ensures
        forall|bk: Seq<char>|
            !is_app_key(bk) ==> #[trigger] lookup(ser_app(m0, a), bk) == lookup(m0, bk),
{
}

proof fn lemma_webauthn_preserve(m0: Map<Seq<char>, Seq<char>>, w: AppSettingsWebauthnModel)
    ensures
        forall|bk: Seq<char>|
            !is_webauthn_key(bk) ==> #[trigger] lookup(ser_webauthn(m0, w), bk) == lookup(m0, bk),
{
}

proof fn lemma_server_preserve(m0: Map<Seq<char>, Seq<char>>, s: AppSettingsServerModel)
    ensures
        forall|bk: Seq<char>|
            !is_server_key(bk) ==> #[trigger] lookup(ser_server(m0, s), bk) == lookup(m0, bk),
{
}

proof fn lemma_activity_preserve(m0: Map<Seq<char>, Seq<char>>, a: AppSettingsActivityModel)
    ensures
        forall|bk: Seq<char>|
            !is_activity_key(bk) ==> #[trigger] lookup(ser_activity(m0, a), bk) == lookup(m0, bk),
{
}

proof fn lemma_scalars_values(m0: Map<Seq<char>, Seq<char>>, a: AppSettingsModel)
    ensures
        lookup(ser_scalars(m0, a), "telemetry_uuid"@) == Some(uuid_out(a.telemetry_uuid)),
        lookup(ser_scalars(m0, a), "telemetry_cron_schedule"@) == Some(
            opt_out(a.telemetry_cron_schedule),
        ),
        lookup(ser_scalars(m0, a), "oobe_step"@) == Some(opt_out(a.oobe_step)),
{
    lemma_key_facts();
}

proof fn lemma_storage_values(m0: Map<Seq<char>, Seq<char>>, s: StorageDriverModel, key: Seq<u8>)
    ensures
        storage_matches(ser_storage(m0, s, key), key, s),
{
    lemma_key_facts();
    match s {
        StorageDriverModel::Filesystem { .. } => {
            assert(storage_matches(ser_storage(m0, s, key), key, s));
        },
        StorageDriverModel::S3 { .. } => {
            assert(storage_matches(ser_storage(m0, s, key), key, s));
        },
    }
}

proof fn lemma_mail_values(m0: Map<Seq<char>, Seq<char>>, mm: MailModeModel, key: Seq<u8>)
    ensures
        (from_name_populated(mm) && mail_tokens_nonempty(key, mm)) ==> mail_matches(
            ser_mail(m0, mm, key),
            key,
            mm,
        ),
{
    lemma_key_facts();
    if from_name_populated(mm) && mail_tokens_nonempty(key, mm) {
        match mm {
            MailModeModel::Disabled => {
                assert(mail_matches(ser_mail(m0, mm, key), key, mm));
            },
            MailModeModel::Smtp { .. } => {
                assert(mail_matches(ser_mail(m0, mm, key), key, mm));
            },
            MailModeModel::Sendmail { .. } => {
                assert(mail_matches(ser_mail(m0, mm, key), key, mm));
            },
            MailModeModel::Filesystem { .. } => {
                assert(mail_matches(ser_mail(m0, mm, key), key, mm));
            },
        }
    }
}

proof fn lemma_captcha_values(m0: Map<Seq<char>, Seq<char>>, c: CaptchaProviderModel)
    ensures
        captcha_matches(ser_captcha(m0, c), c),
{
    lemma_key_facts();
    match c {
        CaptchaProviderModel::Disabled => {
            assert(captcha_matches(ser_captcha(m0, c), c));
        },
        CaptchaProviderModel::Turnstile { .. } => {
            assert(captcha_matches(ser_captcha(m0, c), c));
        },
        CaptchaProviderModel::Recaptcha { .. } => {
            assert(captcha_matches(ser_captcha(m0, c), c));
        },
        CaptchaProviderModel::Hcaptcha { .. } => {
            assert(captcha_matches(ser_captcha(m0, c), c));
        },
        CaptchaProviderModel::FriendlyCaptcha { .. } => {
            assert(captcha_matches(ser_captcha(m0, c), c));
        },
    }
}

proof fn lemma_app_values(m0: Map<Seq<char>, Seq<char>>, a: AppSettingsAppModel)
    ensures
        app_matches(ser_app(m0, a), a),
{
    lemma_key_facts();
}

proof fn lemma_webauthn_values(m0: Map<Seq<char>, Seq<char>>, w: AppSettingsWebauthnModel)
    ensures
        webauthn_matches(ser_webauthn(m0, w), w),
{
    lemma_key_facts();
}

proof fn lemma_server_values(m0: Map<Seq<char>, Seq<char>>, s: AppSettingsServerModel)
    ensures
        server_matches(ser_server(m0, s), s),
{
    lemma_key_facts();
}

proof fn lemma_activity_values(m0: Map<Seq<char>, Seq<char>>, a: AppSettingsActivityModel)
    ensures
        activity_matches(ser_activity(m0, a), a),
{
    lemma_key_facts();
}

/// Every built-in key of the flattened aggregate reads back the value the
/// serializer wrote for it.
pub proof fn lemma_serialize_lookups(a: AppSettingsModel, key: Seq<u8>)
    requires
        ext_keys_not_base(a.extensions),
    ensures
        lookup(spec_serialize(a, key), "telemetry_uuid"@) == Some(uuid_out(a.telemetry_uuid)),
        lookup(spec_serialize(a, key), "telemetry_cron_schedule"@) == Some(
            opt_out(a.telemetry_cron_schedule),
        ),
        lookup(spec_serialize(a, key), "oobe_step"@) == Some(opt_out(a.oobe_step)),
        storage_matches(spec_serialize(a, key), key, a.storage_driver),
        (from_name_populated(a.mail_mode) && mail_tokens_nonempty(key, a.mail_mode))
            ==> mail_matches(spec_serialize(a, key), key, a.mail_mode),
        captcha_matches(spec_serialize(a, key), a.captcha_provider),
        app_matches(spec_serialize(a, key), a.app),
        webauthn_matches(spec_serialize(a, key), a.webauthn),
        server_matches(spec_serialize(a, key), a.server),
        activity_matches(spec_serialize(a, key), a.activity),
{
    lemma_key_facts();
    let m0 = Map::<Seq<char>, Seq<char>>::empty();
    let m1 = ser_scalars(m0, a);
    let m2 = ser_storage(m1, a.storage_driver, key);
    let m3 = ser_mail(m2, a.mail_mode, key);
    let m4 = ser_captcha(m3, a.captcha_provider);
    let m5 = ser_app(m4, a.app);
    let m6 = ser_webauthn(m5, a.webauthn);
    let m7 = ser_server(m6, a.server);
    let m8 = ser_activity(m7, a.activity);
    lemma_scalars_values(m0, a);
    lemma_storage_values(m1, a.storage_driver, key);
    lemma_mail_values(m2, a.mail_mode, key);
    lemma_captcha_values(m3, a.captcha_provider);
    lemma_app_values(m4, a.app);
    lemma_webauthn_values(m5, a.webauthn);
    lemma_server_values(m6, a.server);
    lemma_activity_values(m7, a.activity);
    lemma_storage_preserve(m1, a.storage_driver, key);
    lemma_mail_preserve(m2, a.mail_mode, key);
    lemma_captcha_preserve(m3, a.captcha_provider);
    lemma_app_preserve(m4, a.app);
    lemma_webauthn_preserve(m5, a.webauthn);
    lemma_server_preserve(m6, a.server);
    lemma_activity_preserve(m7, a.activity);
    lemma_exts_preserve_base(m8, a.extensions);
    assert(spec_serialize(a, key) == ser_extensions(m8, a.extensions));
}

/// Rows lying under an upsert batch do not show through: wherever the
/// batch has a value, the merged table has the batch's value.
pub proof fn lemma_union_pin_all(base: Map<Seq<char>, Seq<char>>, m: Map<Seq<char>, Seq<char>>)
    ensures
        forall|k: Seq<char>|
            lookup(m, k) is Some ==> #[trigger] lookup(base.union_prefer_right(m), k) == lookup(
                m,
                k,
            ),
{
    assert forall|k: Seq<char>|
        lookup(m, k) is Some implies #[trigger] lookup(base.union_prefer_right(m), k) == lookup(
        m,
        k,
    ) by {
        assert(m.contains_key(k));
        assert(base.union_prefer_right(m).contains_key(k));
        assert(base.union_prefer_right(m)[k] == m[k]);
    }
}

/// A captcha configuration the rows carry reads back whole.
pub proof fn lemma_captcha_round(m: Map<Seq<char>, Seq<char>>, c: CaptchaProviderModel)
    requires
        captcha_matches(m, c),
    ensures
        deser_captcha(m) == Ok::<CaptchaProviderModel, ErrorKind>(c),
{
    lemma_key_facts();
    match c {
        CaptchaProviderModel::Disabled => {
            assert(deser_captcha(m) == Ok::<CaptchaProviderModel, ErrorKind>(c));
        },
        CaptchaProviderModel::Turnstile { .. } => {
            assert(deser_captcha(m) == Ok::<CaptchaProviderModel, ErrorKind>(c));
        },
        CaptchaProviderModel::Recaptcha { v3, .. } => {
            assert(lookup(m, "recaptcha_v3"@) == Some(bool_out(v3)));
            if v3 {
                assert(spec_parse_bool(bool_out(v3)) == Some(true));
            } else {
                assert(spec_parse_bool(bool_out(v3)) == Some(false));
            }
            assert(read_bool(m, "recaptcha_v3"@, false) == Ok::<bool, ErrorKind>(v3));
            assert(deser_captcha(m) == Ok::<CaptchaProviderModel, ErrorKind>(c));
        },
        CaptchaProviderModel::Hcaptcha { .. } => {
            assert(deser_captcha(m) == Ok::<CaptchaProviderModel, ErrorKind>(c));
        },
        CaptchaProviderModel::FriendlyCaptcha { .. } => {
            assert(deser_captcha(m) == Ok::<CaptchaProviderModel, ErrorKind>(c));
        },
    }
}

/// An application section the rows carry reads back whole.
pub proof fn lemma_app_round(m: Map<Seq<char>, Seq<char>>, a: AppSettingsAppModel)
    requires
        app_matches(m, a),
    ensures
        deser_app(m) == Ok::<AppSettingsAppModel, ErrorKind>(a),
{
    lemma_key_facts();
    let te = a.telemetry_enabled;
    assert(lookup(m, "app_telemetry_enabled"@) == Some(bool_out(te)));
    if te {
        assert(spec_parse_bool(bool_out(te)) == Some(true));
    } else {
        assert(spec_parse_bool(bool_out(te)) == Some(false));
    }
    assert(read_bool(m, "app_telemetry_enabled"@, true) == Ok::<bool, ErrorKind>(te));
}

/// A webauthn section the rows carry reads back whole.
pub proof fn lemma_webauthn_round(m: Map<Seq<char>, Seq<char>>, w: AppSettingsWebauthnModel)
    requires
        webauthn_matches(m, w),
    ensures
        deser_webauthn(m) == w,
{
}

/// A server section the rows carry reads back whole.
pub proof fn lemma_server_round(m: Map<Seq<char>, Seq<char>>, s: AppSettingsServerModel)
    requires
        server_matches(m, s),
    ensures
        deser_server(m) == Ok::<AppSettingsServerModel, ErrorKind>(s),
{
    lemma_key_facts();
    let n = s.max_file_manager_view_size;
    lemma_dec_round_trip(n as nat);
    assert(spec_parse_u64(dec_rep(n as nat)) == Some(n));
    assert(read_u64(m, "server_max_file_manager_view_size"@, 10485760) == Ok::<u64, ErrorKind>(n));
    let b = s.allow_overwriting_custom_docker_image;
    if b {
        assert(spec_parse_bool(bool_out(b)) == Some(true));
    } else {
        assert(spec_parse_bool(bool_out(b)) == Some(false));
    }
    assert(read_bool(m, "server_allow_overwriting_custom_docker_image"@, false) == Ok::<
        bool,
        ErrorKind,
    >(b));
}

/// An activity section the rows carry reads back whole.
pub proof fn lemma_activity_round(m: Map<Seq<char>, Seq<char>>, a: AppSettingsActivityModel)
    requires
        activity_matches(m, a),
    ensures
        deser_activity(m) == Ok::<AppSettingsActivityModel, ErrorKind>(a),
{
    let n = a.keep_days;
    lemma_dec_round_trip(n as nat);
    assert(spec_parse_u64(dec_rep(n as nat)) == Some(n));
    assert(read_u64(m, "activity_keep_days"@, 90) == Ok::<u64, ErrorKind>(n));
}

/// The extension map reads back whole from its rows, given the registry it
/// was written against.
pub proof fn lemma_extensions_round(
    base: Map<Seq<char>, Seq<char>>,
    a: AppSettingsModel,
    reg: Seq<ExtensionDescriptorModel>,
    key: Seq<u8>,
)
    requires
        matches_registry(a.extensions, reg),
        ext_keys_distinct(a.extensions),
    ensures
        deser_extensions(base.union_prefer_right(spec_serialize(a, key)), reg) == a.extensions,
{
    let m = base.union_prefer_right(spec_serialize(a, key));
    lemma_union_pin_all(base, spec_serialize(a, key));
    let m8 = ser_activity(
        ser_server(
            ser_webauthn(
                ser_app(
                    ser_captcha(
                        ser_mail(
                            ser_storage(
                                ser_scalars(Map::<Seq<char>, Seq<char>>::empty(), a),
                                a.storage_driver,
                                key,
                            ),
                            a.mail_mode,
                            key,
                        ),
                        a.captcha_provider,
                    ),
                    a.app,
                ),
                a.webauthn,
            ),
            a.server,
        ),
        a.activity,
    );
    let back = deser_extensions(m, reg);
    assert forall|k: int| 0 <= k < reg.len() implies back[k] == a.extensions[k] by {
        assert(a.extensions[k].identifier == reg[k].identifier);
        assert(a.extensions[k].settings.type_tag == reg[k].type_tag);
        let fields_back = deser_ext_fields(m, reg[k].identifier, reg[k].fields);
        assert forall|j: int|
            0 <= j < reg[k].fields.len() implies fields_back[j]
            == a.extensions[k].settings.fields[j] by {
            assert(a.extensions[k].settings.fields[j].name == reg[k].fields[j].name);
            lemma_exts_lookup(m8, a.extensions, k, j);
            assert(lookup(
                spec_serialize(a, key),
                ext_key(a.extensions[k].identifier, a.extensions[k].settings.fields[j].name),
            ) == Some(a.extensions[k].settings.fields[j].value));
            assert(lookup(
                m,
                ext_key(a.extensions[k].identifier, a.extensions[k].settings.fields[j].name),
            ) == Some(a.extensions[k].settings.fields[j].value));
            assert(read_str(
                m,
                ext_key(reg[k].identifier, reg[k].fields[j].name),
                reg[k].fields[j].default_value,
            ) == a.extensions[k].settings.fields[j].value);
            assert(fields_back[j] =~= a.extensions[k].settings.fields[j]);
        }
        assert(fields_back =~= a.extensions[k].settings.fields);
        assert(back[k] =~= a.extensions[k]);
    }
    assert(back =~= a.extensions);
}

/// The round-trip law: flattening a ready aggregate and reading the rows
/// back yields the same aggregate, given what the readers learned of the
/// uuid parser and the secret codec on the rows at hand.
pub proof fn lemma_round_trip(
    base: Map<Seq<char>, Seq<char>>,
    a: AppSettingsModel,
    reg: Seq<ExtensionDescriptorModel>,
    key: Seq<u8>,
    has_users: bool,
)
    requires
        round_trip_ready(a, reg),
        secret_tokens_ok(key, a),
        uuid_parse_fact(uuid_out(a.telemetry_uuid)),
        a.telemetry_cron_schedule is None ==> !cron_accepts(Seq::<char>::empty()),
        storage_deser_fact(base.union_prefer_right(spec_serialize(a, key)), key),
        mail_deser_fact(base.union_prefer_right(spec_serialize(a, key)), key),
    ensures
        spec_deserialize(base.union_prefer_right(spec_serialize(a, key)), reg, key, has_users)
            == Ok::<AppSettingsModel, ErrorKind>(a),
{
    let m = base.union_prefer_right(spec_serialize(a, key));
    lemma_serialize_lookups(a, key);
    lemma_union_pin_all(base, spec_serialize(a, key));
    assert(storage_matches(m, key, a.storage_driver));
    assert(deser_storage(m, key) == Ok::<StorageDriverModel, ErrorKind>(a.storage_driver));
    assert(mail_matches(m, key, a.mail_mode));
    assert(deser_mail(m, key) == Ok::<MailModeModel, ErrorKind>(a.mail_mode));
    lemma_captcha_round(m, a.captcha_provider);
    lemma_app_round(m, a.app);
    lemma_webauthn_round(m, a.webauthn);
    lemma_server_round(m, a.server);
    lemma_activity_round(m, a.activity);
    lemma_extensions_round(base, a, reg, key);
    match a.telemetry_uuid {
        Some(u) => {
            assert(uuid_out(a.telemetry_uuid) == uuid_text(u));
            assert(uuid_parse_spec(uuid_text(u)) == Some(u));
            assert(deser_telemetry_uuid(m) == Some(u));
        },
        None => {
            assert(uuid_out(a.telemetry_uuid).len() == 0);
            assert(deser_telemetry_uuid(m) is None);
        },
    }
    match a.telemetry_cron_schedule {
        Some(s) => {
            assert(deser_telemetry_cron(m) == Some(s));
        },
        None => {
            assert(opt_out(a.telemetry_cron_schedule) =~= Seq::<char>::empty());
            assert(deser_telemetry_cron(m) is None);
        },
    }
    match a.oobe_step {
        Some(s) => {
            assert(deser_oobe(m, has_users) == Some(s));
        },
        None => {
            assert(deser_oobe(m, has_users) is None);
        },
    }
    let result = spec_deserialize(m, reg, key, has_users);
    assert(result matches Ok(b) && b =~= a);
}

} // verus!
