//! The serialization pipeline: the bijective mapping between the typed
//! aggregate and the flat store's key/value shape.
//!
//! Each scalar leaf maps to one key, prefixed with the dotted-out path of
//! its section. A tagged union writes a discriminant key plus its active
//! variant's fields; the other variants' keys are simply left absent.
//! Secret-bearing fields pass through the secret codec on the way out.
//! Reading substitutes a per-field default for every absent key instead of
//! failing; a present key that does not parse fails the whole load.

use vstd::prelude::*;

use crate::error::{ErrorKind, SettingsError};
use crate::extensions::{
    ExtensionEntry, ExtensionEntryModel, ExtensionField, ExtensionFieldModel,
    ExtensionFieldSpecModel, ExtensionRegistry, ExtensionSettings, ExtensionSettingsModel,
};
use crate::kvmap::KvMap;
use crate::model::{
    AppSettings, AppSettingsActivity, AppSettingsActivityModel, AppSettingsApp,
    AppSettingsAppModel, AppSettingsModel, AppSettingsServer, AppSettingsServerModel,
    AppSettingsWebauthn, AppSettingsWebauthnModel, CaptchaProvider, CaptchaProviderModel, MailMode,
    MailModeModel, StorageDriver, StorageDriverModel,
};
use crate::scalar::{
    bool_to_str, dec_rep, parse_bool, parse_u16, parse_u64, spec_parse_bool, spec_parse_u16,
    spec_parse_u64, u64_to_dec,
};
use crate::secret::{
    secret_decode, secret_encode, spec_secret_decode, spec_secret_encode, SecretCipher,
    SecretOutcome, SecretRead,
};

verus! {

/// What `uuid::Uuid::from_u128` followed by `Display` yields: the
/// hyphenated text of the 128-bit value, a function of the value alone.
pub uninterp spec fn uuid_text(u: u128) -> Seq<char>;

/// What parsing text with the uuid crate yields, as a function of the text
/// alone.
pub uninterp spec fn uuid_parse_spec(s: Seq<char>) -> Option<u128>;

/// Relies on `uuid::Uuid::from_u128` and its `Display`: the hyphenated
/// rendering of the value.
#[verifier::external_body]
pub(crate) fn uuid_to_string(u: u128) -> (r: String)
    ensures
        r@ == uuid_text(u),
{
    uuid::Uuid::from_u128(u).to_string()
}

/// Relies on `uuid::Uuid::parse_str` and `as_u128`: it accepts every format
/// the uuid crate prints, the hyphenated one among them, and an empty
/// string is never a uuid.
#[verifier::external_body]
fn uuid_parse(s: &str) -> (r: Option<u128>)
    ensures
        r == uuid_parse_spec(s@),
        forall|u: u128| s@ == #[trigger] uuid_text(u) ==> r == Some(u),
        s@.len() == 0 ==> r is None,
{
    match uuid::Uuid::parse_str(s) {
        Ok(u) => Some(u.as_u128()),
        Err(_) => None,
    }
}

/// What parsing text with `cron::Schedule::from_str` yields, as a function
/// of the text alone.
pub uninterp spec fn cron_accepts(s: Seq<char>) -> bool;

/// Relies on `cron::Schedule::from_str`: whether the text is a well-formed
/// cron expression; the empty string is not one.
#[verifier::external_body]
fn cron_valid(s: &str) -> (r: bool)
    ensures
        r == cron_accepts(s@),
        s@.len() == 0 ==> r == false,
{
    <cron::Schedule as core::str::FromStr>::from_str(s).is_ok()
}

/// The flat key of an extension's field: the extension identifier is the
/// namespace.
pub open spec fn ext_key(id: Seq<char>, field: Seq<char>) -> Seq<char> {
    id + "_"@ + field
}

/// The stored text of an optional uuid: its hyphenated form, or empty.
pub open spec fn uuid_out(o: Option<u128>) -> Seq<char> {
    match o {
        Some(u) => uuid_text(u),
        None => Seq::empty(),
    }
}

/// The stored text of an optional string: itself, or empty.
pub open spec fn opt_out(o: Option<Seq<char>>) -> Seq<char> {
    match o {
        Some(s) => s,
        None => Seq::empty(),
    }
}

/// The stored text of a boolean.
pub open spec fn bool_out(b: bool) -> Seq<char> {
    if b {
        "true"@
    } else {
        "false"@
    }
}

/// The stored text of an optional secret: its token, or empty.
pub open spec fn secret_opt_out(key: Seq<u8>, o: Option<Seq<char>>) -> Seq<char> {
    match o {
        Some(s) => spec_secret_encode(key, s),
        None => Seq::empty(),
    }
}

/// The three flat scalars of the aggregate written into a map.
pub open spec fn ser_scalars(
    m0: Map<Seq<char>, Seq<char>>,
    a: AppSettingsModel,
) -> Map<Seq<char>, Seq<char>> {
    m0.insert("telemetry_uuid"@, uuid_out(a.telemetry_uuid)).insert(
        "telemetry_cron_schedule"@,
        opt_out(a.telemetry_cron_schedule),
    ).insert("oobe_step"@, opt_out(a.oobe_step))
}

/// The storage union written into a map: the discriminant plus the active
/// variant's fields, credentials through the secret codec.
pub open spec fn ser_storage(
    m0: Map<Seq<char>, Seq<char>>,
    s: StorageDriverModel,
    key: Seq<u8>,
) -> Map<Seq<char>, Seq<char>> {
    match s {
        StorageDriverModel::Filesystem { path } => m0.insert(
            "storage_driver"@,
            "filesystem"@,
        ).insert("storage_filesystem_path"@, path),
        StorageDriverModel::S3 {
            public_url,
            access_key,
            secret_key,
            bucket,
            region,
            endpoint,
            path_style,
        } => m0.insert("storage_driver"@, "s3"@).insert(
            "storage_s3_public_url"@,
            public_url,
        ).insert("storage_s3_access_key"@, spec_secret_encode(key, access_key)).insert(
            "storage_s3_secret_key"@,
            spec_secret_encode(key, secret_key),
        ).insert("storage_s3_bucket"@, bucket).insert("storage_s3_region"@, region).insert(
            "storage_s3_endpoint"@,
            endpoint,
        ).insert("storage_s3_path_style"@, bool_out(path_style)),
    }
}

/// The mail union written into a map.
pub open spec fn ser_mail(
    m0: Map<Seq<char>, Seq<char>>,
    m: MailModeModel,
    key: Seq<u8>,
) -> Map<Seq<char>, Seq<char>> {
    match m {
        MailModeModel::Disabled => m0.insert("mail_mode"@, "none"@),
        MailModeModel::Smtp { host, port, username, password, use_tls, from_address, from_name } => (
        m0.insert("mail_mode"@, "smtp"@).insert("mail_smtp_host"@, host).insert(
            "mail_smtp_port"@,
            dec_rep(port as nat),
        ).insert("mail_smtp_username"@, secret_opt_out(key, username)).insert(
            "mail_smtp_password"@,
            secret_opt_out(key, password),
        ).insert("mail_smtp_use_tls"@, bool_out(use_tls)).insert(
            "mail_smtp_from_address"@,
            from_address,
        ).insert("mail_smtp_from_name"@, opt_out(from_name))),
        MailModeModel::Sendmail { command, from_address, from_name } => m0.insert(
            "mail_mode"@,
            "sendmail"@,
        ).insert("mail_sendmail_command"@, command).insert(
            "mail_sendmail_from_address"@,
            from_address,
        ).insert("mail_sendmail_from_name"@, opt_out(from_name)),
        MailModeModel::Filesystem { path, from_address, from_name } => m0.insert(
            "mail_mode"@,
            "filesystem"@,
        ).insert("mail_filesystem_path"@, path).insert(
            "mail_filesystem_from_address"@,
            from_address,
        ).insert("mail_filesystem_from_name"@, opt_out(from_name)),
    }
}

/// The captcha union written into a map.
pub open spec fn ser_captcha(
    m0: Map<Seq<char>, Seq<char>>,
    c: CaptchaProviderModel,
) -> Map<Seq<char>, Seq<char>> {
    match c {
        CaptchaProviderModel::Disabled => m0.insert("captcha_provider"@, "none"@),
        CaptchaProviderModel::Turnstile { site_key, secret_key } => m0.insert(
            "captcha_provider"@,
            "turnstile"@,
        ).insert("turnstile_site_key"@, site_key).insert("turnstile_secret_key"@, secret_key),
        CaptchaProviderModel::Recaptcha { v3, site_key, secret_key } => m0.insert(
            "captcha_provider"@,
            "recaptcha"@,
        ).insert("recaptcha_v3"@, bool_out(v3)).insert("recaptcha_site_key"@, site_key).insert(
            "recaptcha_secret_key"@,
            secret_key,
        ),
        CaptchaProviderModel::Hcaptcha { site_key, secret_key } => m0.insert(
            "captcha_provider"@,
            "hcaptcha"@,
        ).insert("hcaptcha_site_key"@, site_key).insert("hcaptcha_secret_key"@, secret_key),
        CaptchaProviderModel::FriendlyCaptcha { site_key, api_key } => m0.insert(
            "captcha_provider"@,
            "friendlycaptcha"@,
        ).insert("friendlycaptcha_site_key"@, site_key).insert(
            "friendlycaptcha_api_key"@,
            api_key,
        ),
    }
}

/// The application section written into a map.
pub open spec fn ser_app(
    m0: Map<Seq<char>, Seq<char>>,
    a: AppSettingsAppModel,
) -> Map<Seq<char>, Seq<char>> {
    m0.insert("app_name"@, a.name).insert("app_url"@, a.url).insert(
        "app_telemetry_enabled"@,
        bool_out(a.telemetry_enabled),
    )
}

/// The webauthn section written into a map.
pub open spec fn ser_webauthn(
    m0: Map<Seq<char>, Seq<char>>,
    w: AppSettingsWebauthnModel,
) -> Map<Seq<char>, Seq<char>> {
    m0.insert("webauthn_rp_id"@, w.rp_id).insert("webauthn_rp_origin"@, w.rp_origin)
}

/// The server section written into a map.
pub open spec fn ser_server(
    m0: Map<Seq<char>, Seq<char>>,
    s: AppSettingsServerModel,
) -> Map<Seq<char>, Seq<char>> {
    m0.insert(
        "server_max_file_manager_view_size"@,
        dec_rep(s.max_file_manager_view_size as nat),
    ).insert(
        "server_allow_overwriting_custom_docker_image"@,
        bool_out(s.allow_overwriting_custom_docker_image),
    )
}

/// The activity section written into a map.
pub open spec fn ser_activity(
    m0: Map<Seq<char>, Seq<char>>,
    a: AppSettingsActivityModel,
) -> Map<Seq<char>, Seq<char>> {
    m0.insert("activity_keep_days"@, dec_rep(a.keep_days as nat)).insert(
        "activity_prune_cron"@,
        a.prune_cron,
    )
}

/// One extension entry's fields written into a map under its namespace.
pub open spec fn ser_ext_fields(
    m0: Map<Seq<char>, Seq<char>>,
    id: Seq<char>,
    fields: Seq<ExtensionFieldModel>,
) -> Map<Seq<char>, Seq<char>>
    decreases fields.len(),
{
    if fields.len() == 0 {
        m0
    } else {
        ser_ext_fields(m0, id, fields.drop_last()).insert(
            ext_key(id, fields.last().name),
            fields.last().value,
        )
    }
}

/// Every extension entry of the aggregate written into a map.
pub open spec fn ser_extensions(
    m0: Map<Seq<char>, Seq<char>>,
    exts: Seq<ExtensionEntryModel>,
) -> Map<Seq<char>, Seq<char>>
    decreases exts.len(),
{
    if exts.len() == 0 {
        m0
    } else {
        ser_ext_fields(
            ser_extensions(m0, exts.drop_last()),
            exts.last().identifier,
            exts.last().settings.fields,
        )
    }
}

/// The whole aggregate flattened to its key/value rows.
pub open spec fn spec_serialize(a: AppSettingsModel, key: Seq<u8>) -> Map<Seq<char>, Seq<char>> {
    ser_extensions(
        ser_activity(
            ser_server(
                ser_webauthn(
                    ser_app(
                        ser_captcha(
                            ser_mail(
                                ser_storage(
                                    ser_scalars(Map::empty(), a),
                                    a.storage_driver,
                                    key,
                                ),
                                a.mail_mode,
                                key,
                            ),
                            a.captcha_provider,
                        ),
                        a.app,
                    ),
                    a.webauthn,
                ),
                a.server,
            ),
            a.activity,
        ),
        a.extensions,
    )
}

fn put(out: &mut KvMap, k: &str, v: String)
    requires
        old(out).wf(),
    ensures
        final(out).wf(),
        final(out)@ == old(out)@.insert(k@, v@),
{
    out.insert(k.to_owned(), v);
}

fn opt_string_out(o: &Option<String>) -> (r: String)
    ensures
        r@ == opt_out(crate::model::opt_view(*o)),
{
    match o {
        Some(s) => s.clone(),
        None => String::new(),
    }
}

fn secret_opt_string_out(cipher: &SecretCipher, o: &Option<String>) -> (r: String)
    requires
        cipher.wf(),
    ensures
        r@ == secret_opt_out(cipher.spec_key(), crate::model::opt_view(*o)),
        *o matches Some(s) ==> spec_secret_encode(cipher.spec_key(), s@).len() > 0,
{
    match o {
        Some(s) => secret_encode(cipher, s.as_str()),
        None => String::new(),
    }
}

fn write_scalars(out: &mut KvMap, a: &AppSettings)
    requires
        old(out).wf(),
    ensures
        final(out).wf(),
        final(out)@ == ser_scalars(old(out)@, a@),
{
    let uuid_text_out: String = match &a.telemetry_uuid {
        Some(u) => uuid_to_string(*u),
        None => String::new(),
    };
    put(out, "telemetry_uuid", uuid_text_out);
    put(out, "telemetry_cron_schedule", opt_string_out(&a.telemetry_cron_schedule));
    put(out, "oobe_step", opt_string_out(&a.oobe_step));
}

fn write_storage(out: &mut KvMap, s: &StorageDriver, cipher: &SecretCipher)
    requires
        old(out).wf(),
        cipher.wf(),
    ensures
        final(out).wf(),
        final(out)@ == ser_storage(old(out)@, s@, cipher.spec_key()),
{
    match s {
        StorageDriver::Filesystem { path } => {
            put(out, "storage_driver", "filesystem".to_owned());
            put(out, "storage_filesystem_path", path.clone());
        },
        StorageDriver::S3 {
            public_url,
            access_key,
            secret_key,
            bucket,
            region,
            endpoint,
            path_style,
        } => {
            put(out, "storage_driver", "s3".to_owned());
            put(out, "storage_s3_public_url", public_url.clone());
            put(out, "storage_s3_access_key", secret_encode(cipher, access_key.as_str()));
            put(out, "storage_s3_secret_key", secret_encode(cipher, secret_key.as_str()));
            put(out, "storage_s3_bucket", bucket.clone());
            put(out, "storage_s3_region", region.clone());
            put(out, "storage_s3_endpoint", endpoint.clone());
            put(out, "storage_s3_path_style", bool_to_str(*path_style).to_owned());
        },
    }
}

fn write_mail(out: &mut KvMap, m: &MailMode, cipher: &SecretCipher)
    requires
        old(out).wf(),
        cipher.wf(),
    ensures
        final(out).wf(),
        final(out)@ == ser_mail(old(out)@, m@, cipher.spec_key()),
        crate::roundtrip::mail_tokens_nonempty(cipher.spec_key(), m@),
{
    match m {
        MailMode::Disabled => {
            put(out, "mail_mode", "none".to_owned());
        },
        MailMode::Smtp { host, port, username, password, use_tls, from_address, from_name } => {
            put(out, "mail_mode", "smtp".to_owned());
            put(out, "mail_smtp_host", host.clone());
            put(out, "mail_smtp_port", u64_to_dec(*port as u64));
            put(out, "mail_smtp_username", secret_opt_string_out(cipher, username));
            put(out, "mail_smtp_password", secret_opt_string_out(cipher, password));
            put(out, "mail_smtp_use_tls", bool_to_str(*use_tls).to_owned());
            put(out, "mail_smtp_from_address", from_address.clone());
            put(out, "mail_smtp_from_name", opt_string_out(from_name));
        },
        MailMode::Sendmail { command, from_address, from_name } => {
            put(out, "mail_mode", "sendmail".to_owned());
            put(out, "mail_sendmail_command", command.clone());
            put(out, "mail_sendmail_from_address", from_address.clone());
            put(out, "mail_sendmail_from_name", opt_string_out(from_name));
        },
        MailMode::Filesystem { path, from_address, from_name } => {
            put(out, "mail_mode", "filesystem".to_owned());
            put(out, "mail_filesystem_path", path.clone());
            put(out, "mail_filesystem_from_address", from_address.clone());
            put(out, "mail_filesystem_from_name", opt_string_out(from_name));
        },
    }
}

fn write_captcha(out: &mut KvMap, c: &CaptchaProvider)
    requires
        old(out).wf(),
    ensures
        final(out).wf(),
        final(out)@ == ser_captcha(old(out)@, c@),
{
    match c {
        CaptchaProvider::Disabled => {
            put(out, "captcha_provider", "none".to_owned());
        },
        CaptchaProvider::Turnstile { site_key, secret_key } => {
            put(out, "captcha_provider", "turnstile".to_owned());
            put(out, "turnstile_site_key", site_key.clone());
            put(out, "turnstile_secret_key", secret_key.clone());
        },
        CaptchaProvider::Recaptcha { v3, site_key, secret_key } => {
            put(out, "captcha_provider", "recaptcha".to_owned());
            put(out, "recaptcha_v3", bool_to_str(*v3).to_owned());
            put(out, "recaptcha_site_key", site_key.clone());
            put(out, "recaptcha_secret_key", secret_key.clone());
        },
        CaptchaProvider::Hcaptcha { site_key, secret_key } => {
            put(out, "captcha_provider", "hcaptcha".to_owned());
            put(out, "hcaptcha_site_key", site_key.clone());
            put(out, "hcaptcha_secret_key", secret_key.clone());
        },
        CaptchaProvider::FriendlyCaptcha { site_key, api_key } => {
            put(out, "captcha_provider", "friendlycaptcha".to_owned());
            put(out, "friendlycaptcha_site_key", site_key.clone());
            put(out, "friendlycaptcha_api_key", api_key.clone());
        },
    }
}

fn write_sections(out: &mut KvMap, a: &AppSettings)
    requires
        old(out).wf(),
    ensures
        final(out).wf(),
        final(out)@ == ser_activity(
            ser_server(ser_webauthn(ser_app(old(out)@, a@.app), a@.webauthn), a@.server),
            a@.activity,
        ),
{
    put(out, "app_name", a.app.name.clone());
    put(out, "app_url", a.app.url.clone());
    put(out, "app_telemetry_enabled", bool_to_str(a.app.telemetry_enabled).to_owned());
    put(out, "webauthn_rp_id", a.webauthn.rp_id.clone());
    put(out, "webauthn_rp_origin", a.webauthn.rp_origin.clone());
    put(out, "server_max_file_manager_view_size", u64_to_dec(a.server.max_file_manager_view_size));
    put(
        out,
        "server_allow_overwriting_custom_docker_image",
        bool_to_str(a.server.allow_overwriting_custom_docker_image).to_owned(),
    );
    put(out, "activity_keep_days", u64_to_dec(a.activity.keep_days));
    put(out, "activity_prune_cron", a.activity.prune_cron.clone());
}

pub(crate) fn ext_field_key(id: &String, field: &String) -> (r: String)
    ensures
        r@ == ext_key(id@, field@),
{
    let mut k: String = id.clone();
    k.append("_");
    k.append(field.as_str());
    k
}

fn write_extensions(out: &mut KvMap, exts: &Vec<ExtensionEntry>)
    requires
        old(out).wf(),
    ensures
        final(out).wf(),
        final(out)@ == ser_extensions(
            old(out)@,
            exts@.map_values(|e: ExtensionEntry| e@),
        ),
{
    let ghost exts_model = exts@.map_values(|e: ExtensionEntry| e@);
    let n: usize = exts.len();
    let mut i: usize = 0;
    while i < n
        invariant
            out.wf(),
            n == exts@.len(),
            exts_model == exts@.map_values(|e: ExtensionEntry| e@),
            i <= n,
            out@ == ser_extensions(old(out)@, exts_model.take(i as int)),
        decreases n - i,
    {
        let entry: &ExtensionEntry = &exts[i];
        let m: usize = entry.settings.fields.len();
        let mut j: usize = 0;
        let ghost fields_model = entry.settings.fields@.map_values(|f: ExtensionField| f@);
        let ghost before_entry = out@;
        while j < m
            invariant
                out.wf(),
                m == entry.settings.fields@.len(),
                fields_model == entry.settings.fields@.map_values(|f: ExtensionField| f@),
                j <= m,
                out@ == ser_ext_fields(before_entry, entry@.identifier, fields_model.take(j as int)),
            decreases m - j,
        {
            let field: &ExtensionField = &entry.settings.fields[j];
            let k: String = ext_field_key(&entry.identifier, &field.name);
            proof {
                let taken = fields_model.take(j as int + 1);
                assert(taken.drop_last() =~= fields_model.take(j as int));
                assert(taken.last() == fields_model[j as int]);
            }
            put(out, k.as_str(), field.value.clone());
            j = j + 1;
        }
        proof {
            assert(fields_model.take(m as int) =~= fields_model);
            assert(fields_model =~= entry@.settings.fields);
            let taken = exts_model.take(i as int + 1);
            assert(taken.drop_last() =~= exts_model.take(i as int));
            assert(taken.last() == exts_model[i as int]);
        }
        i = i + 1;
    }
    proof {
        assert(exts_model.take(n as int) =~= exts_model);
    }
}

impl AppSettings {
    /// Flattens the aggregate to its key/value rows, credentials through
    /// the secret codec.
    pub fn serialize(&self, cipher: &SecretCipher) -> (out: KvMap)
        requires
            cipher.wf(),
        ensures
            out.wf(),
            out@ == spec_serialize(self@, cipher.spec_key()),
            crate::roundtrip::secret_tokens_ok(cipher.spec_key(), self@),
    {
        let mut out: KvMap = KvMap::new();
        write_scalars(&mut out, self);
        write_storage(&mut out, &self.storage_driver, cipher);
        write_mail(&mut out, &self.mail_mode, cipher);
        write_captcha(&mut out, &self.captcha_provider);
        write_sections(&mut out, self);
        write_extensions(&mut out, &self.extensions);
        out
    }
}

/// A key's stored text, or nothing when the store has no row for it.
pub open spec fn lookup(m: Map<Seq<char>, Seq<char>>, k: Seq<char>) -> Option<Seq<char>> {
    if m.contains_key(k) {
        Some(m[k])
    } else {
        None
    }
}

/// A plain string leaf: stored text verbatim, or the field's default.
pub open spec fn read_str(m: Map<Seq<char>, Seq<char>>, k: Seq<char>, dflt: Seq<char>) -> Seq<
    char,
> {
    match lookup(m, k) {
        Some(s) => s,
        None => dflt,
    }
}

/// A boolean leaf: absent means the default, present text must parse.
pub open spec fn read_bool(m: Map<Seq<char>, Seq<char>>, k: Seq<char>, dflt: bool) -> Result<
    bool,
    ErrorKind,
> {
    match lookup(m, k) {
        Some(s) => match spec_parse_bool(s) {
            Some(b) => Ok(b),
            None => Err(ErrorKind::Malformed(k)),
        },
        None => Ok(dflt),
    }
}

/// A `u16` leaf: absent means the default, present text must parse.
pub open spec fn read_u16(m: Map<Seq<char>, Seq<char>>, k: Seq<char>, dflt: u16) -> Result<
    u16,
    ErrorKind,
> {
    match lookup(m, k) {
        Some(s) => match spec_parse_u16(s) {
            Some(v) => Ok(v),
            None => Err(ErrorKind::Malformed(k)),
        },
        None => Ok(dflt),
    }
}

/// A `u64` leaf: absent means the default, present text must parse.
pub open spec fn read_u64(m: Map<Seq<char>, Seq<char>>, k: Seq<char>, dflt: u64) -> Result<
    u64,
    ErrorKind,
> {
    match lookup(m, k) {
        Some(s) => match spec_parse_u64(s) {
            Some(v) => Ok(v),
            None => Err(ErrorKind::Malformed(k)),
        },
        None => Ok(dflt),
    }
}

/// A required secret leaf: absent or not-a-token degrades to the default
/// placeholder; a token that does not decrypt fails the load.
pub open spec fn read_secret_required(
    m: Map<Seq<char>, Seq<char>>,
    key: Seq<u8>,
    k: Seq<char>,
    dflt: Seq<char>,
) -> Result<Seq<char>, ErrorKind> {
    match lookup(m, k) {
        Some(tok) => match spec_secret_decode(key, tok) {
            SecretOutcome::Plain(p) => Ok(p),
            SecretOutcome::NotToken => Ok(dflt),
            SecretOutcome::Unreadable => Err(ErrorKind::SecretUnreadable(k)),
        },
        None => Ok(dflt),
    }
}

/// An optional secret leaf: absent or empty means none, not-a-token
/// degrades to none, a token that does not decrypt fails the load.
pub open spec fn read_secret_optional(
    m: Map<Seq<char>, Seq<char>>,
    key: Seq<u8>,
    k: Seq<char>,
) -> Result<Option<Seq<char>>, ErrorKind> {
    match lookup(m, k) {
        Some(tok) => if tok.len() == 0 {
            Ok(None)
        } else {
            match spec_secret_decode(key, tok) {
                SecretOutcome::Plain(p) => Ok(Some(p)),
                SecretOutcome::NotToken => Ok(None),
                SecretOutcome::Unreadable => Err(ErrorKind::SecretUnreadable(k)),
            }
        },
        None => Ok(None),
    }
}

/// The optional telemetry uuid: unparseable or absent text means none.
pub open spec fn deser_telemetry_uuid(m: Map<Seq<char>, Seq<char>>) -> Option<u128> {
    match lookup(m, "telemetry_uuid"@) {
        Some(s) => uuid_parse_spec(s),
        None => None,
    }
}

/// The optional telemetry cron expression: kept only when the cron crate
/// accepts it.
pub open spec fn deser_telemetry_cron(m: Map<Seq<char>, Seq<char>>) -> Option<Seq<char>> {
    match lookup(m, "telemetry_cron_schedule"@) {
        Some(s) => if cron_accepts(s) {
            Some(s)
        } else {
            None
        },
        None => None,
    }
}

/// The onboarding step: an empty stored value means done; when the key was
/// never written, a store with no users yet starts at registration.
pub open spec fn deser_oobe(m: Map<Seq<char>, Seq<char>>, has_users: bool) -> Option<Seq<char>> {
    match lookup(m, "oobe_step"@) {
        Some(s) => if s.len() == 0 {
            None
        } else {
            Some(s)
        },
        None => if has_users {
            None
        } else {
            Some("register"@)
        },
    }
}

/// The storage union read back: `s3` selects the S3 variant, anything else
/// falls back to filesystem storage at the platform default path.
pub open spec fn deser_storage(m: Map<Seq<char>, Seq<char>>, key: Seq<u8>) -> Result<
    StorageDriverModel,
    ErrorKind,
> {
    if lookup(m, "storage_driver"@) == Some("s3"@) {
        match read_secret_required(m, key, "storage_s3_access_key"@, "your-access-key"@) {
            Err(e) => Err(e),
            Ok(access_key) => match read_secret_required(
                m,
                key,
                "storage_s3_secret_key"@,
                "your-secret-key"@,
            ) {
                Err(e) => Err(e),
                Ok(secret_key) => match read_bool(m, "storage_s3_path_style"@, false) {
                    Err(e) => Err(e),
                    Ok(path_style) => Ok(
                        StorageDriverModel::S3 {
                            public_url: read_str(
                                m,
                                "storage_s3_public_url"@,
                                "https://your-s3-bucket.s3.amazonaws.com"@,
                            ),
                            access_key,
                            secret_key,
                            bucket: read_str(m, "storage_s3_bucket"@, "your-s3-bucket"@),
                            region: read_str(m, "storage_s3_region"@, "us-east-1"@),
                            endpoint: read_str(
                                m,
                                "storage_s3_endpoint"@,
                                "https://s3.amazonaws.com"@,
                            ),
                            path_style,
                        },
                    ),
                },
            },
        }
    } else {
        Ok(
            StorageDriverModel::Filesystem {
                path: read_str(m, "storage_filesystem_path"@, "/var/lib/calagopus"@),
            },
        )
    }
}

/// The mail union read back; an unknown discriminant means mail is off.
pub open spec fn deser_mail(m: Map<Seq<char>, Seq<char>>, key: Seq<u8>) -> Result<
    MailModeModel,
    ErrorKind,
> {
    if lookup(m, "mail_mode"@) == Some("smtp"@) {
        match read_u16(m, "mail_smtp_port"@, 587) {
            Err(e) => Err(e),
            Ok(port) => match read_secret_optional(m, key, "mail_smtp_username"@) {
                Err(e) => Err(e),
                Ok(username) => match read_secret_optional(m, key, "mail_smtp_password"@) {
                    Err(e) => Err(e),
                    Ok(password) => match read_bool(m, "mail_smtp_use_tls"@, true) {
                        Err(e) => Err(e),
                        Ok(use_tls) => Ok(
                            MailModeModel::Smtp {
                                host: read_str(m, "mail_smtp_host"@, "smtp.example.com"@),
                                port,
                                username,
                                password,
                                use_tls,
                                from_address: read_str(
                                    m,
                                    "mail_smtp_from_address"@,
                                    "noreply@example.com"@,
                                ),
                                from_name: lookup(m, "mail_smtp_from_name"@),
                            },
                        ),
                    },
                },
            },
        }
    } else if lookup(m, "mail_mode"@) == Some("sendmail"@) {
        Ok(
            MailModeModel::Sendmail {
                command: read_str(m, "mail_sendmail_command"@, "sendmail"@),
                from_address: read_str(m, "mail_sendmail_from_address"@, "noreply@example.com"@),
                from_name: lookup(m, "mail_sendmail_from_name"@),
            },
        )
    } else if lookup(m, "mail_mode"@) == Some("filesystem"@) {
        Ok(
            MailModeModel::Filesystem {
                path: read_str(m, "mail_filesystem_path"@, "/var/lib/calagopus/mail"@),
                from_address: read_str(m, "mail_filesystem_from_address"@, "noreply@example.com"@),
                from_name: lookup(m, "mail_filesystem_from_name"@),
            },
        )
    } else {
        Ok(MailModeModel::Disabled)
    }
}

/// The captcha union read back; an unknown discriminant means no captcha.
pub open spec fn deser_captcha(m: Map<Seq<char>, Seq<char>>) -> Result<
    CaptchaProviderModel,
    ErrorKind,
> {
    if lookup(m, "captcha_provider"@) == Some("turnstile"@) {
        Ok(
            CaptchaProviderModel::Turnstile {
                site_key: read_str(m, "turnstile_site_key"@, ""@),
                secret_key: read_str(m, "turnstile_secret_key"@, ""@),
            },
        )
    } else if lookup(m, "captcha_provider"@) == Some("recaptcha"@) {
        match read_bool(m, "recaptcha_v3"@, false) {
            Err(e) => Err(e),
            Ok(v3) => Ok(
                CaptchaProviderModel::Recaptcha {
                    v3,
                    site_key: read_str(m, "recaptcha_site_key"@, ""@),
                    secret_key: read_str(m, "recaptcha_secret_key"@, ""@),
                },
            ),
        }
    } else if lookup(m, "captcha_provider"@) == Some("hcaptcha"@) {
        Ok(
            CaptchaProviderModel::Hcaptcha {
                site_key: read_str(m, "hcaptcha_site_key"@, ""@),
                secret_key: read_str(m, "hcaptcha_secret_key"@, ""@),
            },
        )
    } else if lookup(m, "captcha_provider"@) == Some("friendlycaptcha"@) {
        Ok(
            CaptchaProviderModel::FriendlyCaptcha {
                site_key: read_str(m, "friendlycaptcha_site_key"@, ""@),
                api_key: read_str(m, "friendlycaptcha_api_key"@, ""@),
            },
        )
    } else {
        Ok(CaptchaProviderModel::Disabled)
    }
}

/// The application section read back.
pub open spec fn deser_app(m: Map<Seq<char>, Seq<char>>) -> Result<AppSettingsAppModel, ErrorKind> {
    match read_bool(m, "app_telemetry_enabled"@, true) {
        Err(e) => Err(e),
        Ok(telemetry_enabled) => Ok(
            AppSettingsAppModel {
                name: read_str(m, "app_name"@, "Calagopus"@),
                url: read_str(m, "app_url"@, "http://localhost"@),
                telemetry_enabled,
            },
        ),
    }
}

/// The webauthn section read back.
pub open spec fn deser_webauthn(m: Map<Seq<char>, Seq<char>>) -> AppSettingsWebauthnModel {
    AppSettingsWebauthnModel {
        rp_id: read_str(m, "webauthn_rp_id"@, "localhost"@),
        rp_origin: read_str(m, "webauthn_rp_origin"@, "http://localhost"@),
    }
}

/// The server section read back.
pub open spec fn deser_server(m: Map<Seq<char>, Seq<char>>) -> Result<
    AppSettingsServerModel,
    ErrorKind,
> {
    match read_u64(m, "server_max_file_manager_view_size"@, 10485760) {
        Err(e) => Err(e),
        Ok(max_file_manager_view_size) => match read_bool(
            m,
            "server_allow_overwriting_custom_docker_image"@,
            false,
        ) {
            Err(e) => Err(e),
            Ok(allow_overwriting_custom_docker_image) => Ok(
                AppSettingsServerModel {
                    max_file_manager_view_size,
                    allow_overwriting_custom_docker_image,
                },
            ),
        },
    }
}

/// The activity section read back. The prune schedule is one of the fields
/// that are only defaulted when absent: once present it is kept verbatim.
pub open spec fn deser_activity(m: Map<Seq<char>, Seq<char>>) -> Result<
    AppSettingsActivityModel,
    ErrorKind,
> {
    match read_u64(m, "activity_keep_days"@, 90) {
        Err(e) => Err(e),
        Ok(keep_days) => Ok(
            AppSettingsActivityModel {
                keep_days,
                prune_cron: read_str(m, "activity_prune_cron"@, "0 30 0 * * *"@),
            },
        ),
    }
}

/// One registered sub-section's fields read back under its namespace.
pub open spec fn deser_ext_fields(
    m: Map<Seq<char>, Seq<char>>,
    id: Seq<char>,
    fields: Seq<ExtensionFieldSpecModel>,
) -> Seq<ExtensionFieldModel> {
    Seq::new(
        fields.len(),
        |j: int|
            ExtensionFieldModel {
                name: fields[j].name,
                value: read_str(m, ext_key(id, fields[j].name), fields[j].default_value),
            },
    )
}

/// Every registered sub-section read back, in registration order. An
/// identifier with no registration leaves no trace in the aggregate.
pub open spec fn deser_extensions(
    m: Map<Seq<char>, Seq<char>>,
    reg: Seq<crate::extensions::ExtensionDescriptorModel>,
) -> Seq<ExtensionEntryModel> {
    Seq::new(
        reg.len(),
        |k: int|
            ExtensionEntryModel {
                identifier: reg[k].identifier,
                settings: ExtensionSettingsModel {
                    type_tag: reg[k].type_tag,
                    fields: deser_ext_fields(m, reg[k].identifier, reg[k].fields),
                },
            },
    )
}

/// The whole aggregate read back from its key/value rows: the exact
/// mathematical account of deserialization, error cases and all.
pub open spec fn spec_deserialize(
    m: Map<Seq<char>, Seq<char>>,
    reg: Seq<crate::extensions::ExtensionDescriptorModel>,
    key: Seq<u8>,
    has_users: bool,
) -> Result<AppSettingsModel, ErrorKind> {
    match deser_storage(m, key) {
        Err(e) => Err(e),
        Ok(storage_driver) => match deser_mail(m, key) {
            Err(e) => Err(e),
            Ok(mail_mode) => match deser_captcha(m) {
                Err(e) => Err(e),
                Ok(captcha_provider) => match deser_app(m) {
                    Err(e) => Err(e),
                    Ok(app) => match deser_server(m) {
                        Err(e) => Err(e),
                        Ok(server) => match deser_activity(m) {
                            Err(e) => Err(e),
                            Ok(activity) => Ok(
                                AppSettingsModel {
                                    telemetry_uuid: deser_telemetry_uuid(m),
                                    telemetry_cron_schedule: deser_telemetry_cron(m),
                                    oobe_step: deser_oobe(m, has_users),
                                    storage_driver,
                                    mail_mode,
                                    captcha_provider,
                                    app,
                                    webauthn: deser_webauthn(m),
                                    server,
                                    activity,
                                    extensions: deser_extensions(m, reg),
                                },
                            ),
                        },
                    },
                },
            },
        },
    }
}

fn read_str_field(store: &KvMap, k: &str, dflt: &str) -> (r: String)
    requires
        store.wf(),
    ensures
        r@ == read_str(store@, k@, dflt@),
{
    match store.get(k) {
        Some(v) => v.clone(),
        None => dflt.to_owned(),
    }
}

fn read_bool_field(store: &KvMap, k: &str, dflt: bool) -> (r: Result<bool, SettingsError>)
    requires
        store.wf(),
    ensures
        r matches Ok(b) ==> read_bool(store@, k@, dflt) == Ok::<bool, ErrorKind>(b),
        r matches Err(e) ==> read_bool(store@, k@, dflt) == Err::<bool, ErrorKind>(e@),
{
    match store.get(k) {
        Some(v) => match parse_bool(v.as_str()) {
            Some(b) => Ok(b),
            None => Err(SettingsError::MalformedStoredValue(k.to_owned())),
        },
        None => Ok(dflt),
    }
}

fn read_u16_field(store: &KvMap, k: &str, dflt: u16) -> (r: Result<u16, SettingsError>)
    requires
        store.wf(),
    ensures
        r matches Ok(v) ==> read_u16(store@, k@, dflt) == Ok::<u16, ErrorKind>(v),
        r matches Err(e) ==> read_u16(store@, k@, dflt) == Err::<u16, ErrorKind>(e@),
{
    match store.get(k) {
        Some(v) => match parse_u16(v.as_str()) {
            Some(v) => Ok(v),
            None => Err(SettingsError::MalformedStoredValue(k.to_owned())),
        },
        None => Ok(dflt),
    }
}

fn read_u64_field(store: &KvMap, k: &str, dflt: u64) -> (r: Result<u64, SettingsError>)
    requires
        store.wf(),
    ensures
        r matches Ok(v) ==> read_u64(store@, k@, dflt) == Ok::<u64, ErrorKind>(v),
        r matches Err(e) ==> read_u64(store@, k@, dflt) == Err::<u64, ErrorKind>(e@),
{
    match store.get(k) {
        Some(v) => match parse_u64(v.as_str()) {
            Some(v) => Ok(v),
            None => Err(SettingsError::MalformedStoredValue(k.to_owned())),
        },
        None => Ok(dflt),
    }
}

fn read_secret_required_field(store: &KvMap, cipher: &SecretCipher, k: &str, dflt: &str) -> (r:
    Result<String, SettingsError>)
    requires
        store.wf(),
        cipher.wf(),
    ensures
        r matches Ok(s) ==> read_secret_required(store@, cipher.spec_key(), k@, dflt@) == Ok::<
            Seq<char>,
            ErrorKind,
        >(s@),
        r matches Err(e) ==> read_secret_required(store@, cipher.spec_key(), k@, dflt@) == Err::<
            Seq<char>,
            ErrorKind,
        >(e@),
        forall|p: Seq<char>|
            lookup(store@, k@) == Some(#[trigger] spec_secret_encode(cipher.spec_key(), p))
                ==> read_secret_required(store@, cipher.spec_key(), k@, dflt@) == Ok::<
                Seq<char>,
                ErrorKind,
            >(p),
{
    match store.get(k) {
        Some(tok) => match secret_decode(cipher, tok.as_str()) {
            SecretRead::Plain(s) => Ok(s),
            SecretRead::NotToken => Ok(dflt.to_owned()),
            SecretRead::Unreadable => Err(SettingsError::SecretDecryptionFailure(k.to_owned())),
        },
        None => Ok(dflt.to_owned()),
    }
}

fn read_secret_optional_field(store: &KvMap, cipher: &SecretCipher, k: &str) -> (r: Result<
    Option<String>,
    SettingsError,
>)
    requires
        store.wf(),
        cipher.wf(),
    ensures
        r matches Ok(o) ==> read_secret_optional(store@, cipher.spec_key(), k@) == Ok::<
            Option<Seq<char>>,
            ErrorKind,
        >(crate::model::opt_view(o)),
        r matches Err(e) ==> read_secret_optional(store@, cipher.spec_key(), k@) == Err::<
            Option<Seq<char>>,
            ErrorKind,
        >(e@),
        forall|p: Seq<char>|
            (lookup(store@, k@) == Some(#[trigger] spec_secret_encode(cipher.spec_key(), p))
                && spec_secret_encode(cipher.spec_key(), p).len() > 0) ==> read_secret_optional(
                store@,
                cipher.spec_key(),
                k@,
            ) == Ok::<Option<Seq<char>>, ErrorKind>(Some(p)),
{
    match store.get(k) {
        Some(tok) => {
            if tok.as_str().is_empty() {
                Ok(None)
            } else {
                match secret_decode(cipher, tok.as_str()) {
                    SecretRead::Plain(s) => Ok(Some(s)),
                    SecretRead::NotToken => Ok(None),
                    SecretRead::Unreadable => Err(
                        SettingsError::SecretDecryptionFailure(k.to_owned()),
                    ),
                }
            }
        },
        None => Ok(None),
    }
}

fn read_opt_field(store: &KvMap, k: &str) -> (r: Option<String>)
    requires
        store.wf(),
    ensures
        crate::model::opt_view(r) == lookup(store@, k@),
{
    match store.get(k) {
        Some(v) => Some(v.clone()),
        None => None,
    }
}

fn read_storage(store: &KvMap, cipher: &SecretCipher) -> (r: Result<StorageDriver, SettingsError>)
    requires
        store.wf(),
        cipher.wf(),
    ensures
        r matches Ok(v) ==> deser_storage(store@, cipher.spec_key()) == Ok::<
            StorageDriverModel,
            ErrorKind,
        >(v@),
        r matches Err(e) ==> deser_storage(store@, cipher.spec_key()) == Err::<
            StorageDriverModel,
            ErrorKind,
        >(e@),
        crate::roundtrip::storage_deser_fact(store@, cipher.spec_key()),
{
    let driver: String = read_str_field(store, "storage_driver", "");
    let is_s3: bool = crate::strutil::str_eq(driver.as_str(), "s3")
        && store.get("storage_driver").is_some();
    if is_s3 {
        let access_key: String = match read_secret_required_field(
            store,
            cipher,
            "storage_s3_access_key",
            "your-access-key",
        ) {
            Ok(s) => s,
            Err(e) => {
                proof {
                    crate::roundtrip::lemma_key_facts();
                    assert forall|sm: StorageDriverModel|
                    crate::roundtrip::storage_matches(store@, cipher.spec_key(), sm) implies (
                        deser_storage(store@, cipher.spec_key()) == Ok::<StorageDriverModel, ErrorKind>(
                            sm,
                    )) by {
                        match sm {
                            StorageDriverModel::Filesystem { .. } => {},
                            StorageDriverModel::S3 { .. } => {},
                        }
                    }
                }
                return Err(e);
            },
        };
        let secret_key: String = match read_secret_required_field(
            store,
            cipher,
            "storage_s3_secret_key",
            "your-secret-key",
        ) {
            Ok(s) => s,
            Err(e) => {
                proof {
                    crate::roundtrip::lemma_key_facts();
                    assert forall|sm: StorageDriverModel|
                    crate::roundtrip::storage_matches(store@, cipher.spec_key(), sm) implies (
                        deser_storage(store@, cipher.spec_key()) == Ok::<StorageDriverModel, ErrorKind>(
                            sm,
                    )) by {
                        match sm {
                            StorageDriverModel::Filesystem { .. } => {},
                            StorageDriverModel::S3 { .. } => {},
                        }
                    }
                }
                return Err(e);
            },
        };
        let path_style: bool = match read_bool_field(store, "storage_s3_path_style", false) {
            Ok(b) => b,
            Err(e) => {
                proof {
                    crate::roundtrip::lemma_key_facts();
                    assert forall|sm: StorageDriverModel|
                    crate::roundtrip::storage_matches(store@, cipher.spec_key(), sm) implies (
                        deser_storage(store@, cipher.spec_key()) == Ok::<StorageDriverModel, ErrorKind>(
                            sm,
                    )) by {
                        match sm {
                            StorageDriverModel::Filesystem { .. } => {},
                            StorageDriverModel::S3 { .. } => {},
                        }
                    }
                }
                return Err(e);
            },
        };
        proof {
            crate::roundtrip::lemma_key_facts();
            assert forall|sm: StorageDriverModel|
                crate::roundtrip::storage_matches(store@, cipher.spec_key(), sm) implies (
            deser_storage(store@, cipher.spec_key()) == Ok::<StorageDriverModel, ErrorKind>(
                sm,
            )) by {
                match sm {
                    StorageDriverModel::Filesystem { .. } => {},
                    StorageDriverModel::S3 { .. } => {},
                }
            }
        }

        Ok(
            StorageDriver::S3 {
                public_url: read_str_field(
                    store,
                    "storage_s3_public_url",
                    "https://your-s3-bucket.s3.amazonaws.com",
                ),
                access_key,
                secret_key,
                bucket: read_str_field(store, "storage_s3_bucket", "your-s3-bucket"),
                region: read_str_field(store, "storage_s3_region", "us-east-1"),
                endpoint: read_str_field(store, "storage_s3_endpoint", "https://s3.amazonaws.com"),
                path_style,
            },
        )
    } else {
        proof {
            crate::roundtrip::lemma_key_facts();
            assert forall|sm: StorageDriverModel|
                crate::roundtrip::storage_matches(store@, cipher.spec_key(), sm) implies (
            deser_storage(store@, cipher.spec_key()) == Ok::<StorageDriverModel, ErrorKind>(
                sm,
            )) by {
                match sm {
                    StorageDriverModel::Filesystem { .. } => {},
                    StorageDriverModel::S3 { .. } => {},
                }
            }
        }

        Ok(
            StorageDriver::Filesystem {
                path: read_str_field(store, "storage_filesystem_path", "/var/lib/calagopus"),
            },
        )
    }
}

fn read_mail(store: &KvMap, cipher: &SecretCipher) -> (r: Result<MailMode, SettingsError>)
    requires
        store.wf(),
        cipher.wf(),
    ensures
        r matches Ok(v) ==> deser_mail(store@, cipher.spec_key()) == Ok::<
            MailModeModel,
            ErrorKind,
        >(v@),
        r matches Err(e) ==> deser_mail(store@, cipher.spec_key()) == Err::<
            MailModeModel,
            ErrorKind,
        >(e@),
        crate::roundtrip::mail_deser_fact(store@, cipher.spec_key()),
{
    let mode: String = read_str_field(store, "mail_mode", "");
    let present: bool = store.get("mail_mode").is_some();
    if present && crate::strutil::str_eq(mode.as_str(), "smtp") {
        let port: u16 = match read_u16_field(store, "mail_smtp_port", 587) {
            Ok(v) => v,
            Err(e) => {
                proof {
                    crate::roundtrip::lemma_key_facts();
                    assert forall|mm: MailModeModel|
                    crate::roundtrip::mail_matches(store@, cipher.spec_key(), mm) implies (deser_mail(
                            store@,
                            cipher.spec_key(),
                        ) == Ok::<MailModeModel, ErrorKind>(mm)) by {
                        match mm {
                            MailModeModel::Disabled => {},
                            MailModeModel::Smtp { port, .. } => {
                                crate::scalar::lemma_dec_round_trip(port as nat);
                            },
                            MailModeModel::Sendmail { .. } => {},
                            MailModeModel::Filesystem { .. } => {},
                        }
                    }
                }
                return Err(e);
            },
        };
        let username: Option<String> = match read_secret_optional_field(
            store,
            cipher,
            "mail_smtp_username",
        ) {
            Ok(v) => v,
            Err(e) => {
                proof {
                    crate::roundtrip::lemma_key_facts();
                    assert forall|mm: MailModeModel|
                    crate::roundtrip::mail_matches(store@, cipher.spec_key(), mm) implies (deser_mail(
                            store@,
                            cipher.spec_key(),
                        ) == Ok::<MailModeModel, ErrorKind>(mm)) by {
                        match mm {
                            MailModeModel::Disabled => {},
                            MailModeModel::Smtp { port, .. } => {
                                crate::scalar::lemma_dec_round_trip(port as nat);
                            },
                            MailModeModel::Sendmail { .. } => {},
                            MailModeModel::Filesystem { .. } => {},
                        }
                    }
                }
                return Err(e);
            },
        };
        let password: Option<String> = match read_secret_optional_field(
            store,
            cipher,
            "mail_smtp_password",
        ) {
            Ok(v) => v,
            Err(e) => {
                proof {
                    crate::roundtrip::lemma_key_facts();
                    assert forall|mm: MailModeModel|
                    crate::roundtrip::mail_matches(store@, cipher.spec_key(), mm) implies (deser_mail(
                            store@,
                            cipher.spec_key(),
                        ) == Ok::<MailModeModel, ErrorKind>(mm)) by {
                        match mm {
                            MailModeModel::Disabled => {},
                            MailModeModel::Smtp { port, .. } => {
                                crate::scalar::lemma_dec_round_trip(port as nat);
                            },
                            MailModeModel::Sendmail { .. } => {},
                            MailModeModel::Filesystem { .. } => {},
                        }
                    }
                }
                return Err(e);
            },
        };
        let use_tls: bool = match read_bool_field(store, "mail_smtp_use_tls", true) {
            Ok(v) => v,
            Err(e) => {
                proof {
                    crate::roundtrip::lemma_key_facts();
                    assert forall|mm: MailModeModel|
                    crate::roundtrip::mail_matches(store@, cipher.spec_key(), mm) implies (deser_mail(
                            store@,
                            cipher.spec_key(),
                        ) == Ok::<MailModeModel, ErrorKind>(mm)) by {
                        match mm {
                            MailModeModel::Disabled => {},
                            MailModeModel::Smtp { port, .. } => {
                                crate::scalar::lemma_dec_round_trip(port as nat);
                            },
                            MailModeModel::Sendmail { .. } => {},
                            MailModeModel::Filesystem { .. } => {},
                        }
                    }
                }
                return Err(e);
            },
        };
        proof {
            crate::roundtrip::lemma_key_facts();
            assert forall|mm: MailModeModel|
                crate::roundtrip::mail_matches(store@, cipher.spec_key(), mm) implies (deser_mail(
                store@,
                cipher.spec_key(),
            ) == Ok::<MailModeModel, ErrorKind>(mm)) by {
                match mm {
                    MailModeModel::Disabled => {},
                    MailModeModel::Smtp { port, .. } => {
                        crate::scalar::lemma_dec_round_trip(port as nat);
                    },
                    MailModeModel::Sendmail { .. } => {},
                    MailModeModel::Filesystem { .. } => {},
                }
            }
        }

        Ok(
            MailMode::Smtp {
                host: read_str_field(store, "mail_smtp_host", "smtp.example.com"),
                port,
                username,
                password,
                use_tls,
                from_address: read_str_field(store, "mail_smtp_from_address", "noreply@example.com"),
                from_name: read_opt_field(store, "mail_smtp_from_name"),
            },
        )
    } else if present && crate::strutil::str_eq(mode.as_str(), "sendmail") {
        proof {
            crate::roundtrip::lemma_key_facts();
            assert forall|mm: MailModeModel|
                crate::roundtrip::mail_matches(store@, cipher.spec_key(), mm) implies (deser_mail(
                store@,
                cipher.spec_key(),
            ) == Ok::<MailModeModel, ErrorKind>(mm)) by {
                match mm {
                    MailModeModel::Disabled => {},
                    MailModeModel::Smtp { port, .. } => {
                        crate::scalar::lemma_dec_round_trip(port as nat);
                    },
                    MailModeModel::Sendmail { .. } => {},
                    MailModeModel::Filesystem { .. } => {},
                }
            }
        }

        Ok(
            MailMode::Sendmail {
                command: read_str_field(store, "mail_sendmail_command", "sendmail"),
                from_address: read_str_field(
                    store,
                    "mail_sendmail_from_address",
                    "noreply@example.com",
                ),
                from_name: read_opt_field(store, "mail_sendmail_from_name"),
            },
        )
    } else if present && crate::strutil::str_eq(mode.as_str(), "filesystem") {
        proof {
            crate::roundtrip::lemma_key_facts();
            assert forall|mm: MailModeModel|
                crate::roundtrip::mail_matches(store@, cipher.spec_key(), mm) implies (deser_mail(
                store@,
                cipher.spec_key(),
            ) == Ok::<MailModeModel, ErrorKind>(mm)) by {
                match mm {
                    MailModeModel::Disabled => {},
                    MailModeModel::Smtp { port, .. } => {
                        crate::scalar::lemma_dec_round_trip(port as nat);
                    },
                    MailModeModel::Sendmail { .. } => {},
                    MailModeModel::Filesystem { .. } => {},
                }
            }
        }

        Ok(
            MailMode::Filesystem {
                path: read_str_field(store, "mail_filesystem_path", "/var/lib/calagopus/mail"),
                from_address: read_str_field(
                    store,
                    "mail_filesystem_from_address",
                    "noreply@example.com",
                ),
                from_name: read_opt_field(store, "mail_filesystem_from_name"),
            },
        )
    } else {
        Ok(MailMode::Disabled)
    }
}

fn read_captcha(store: &KvMap) -> (r: Result<CaptchaProvider, SettingsError>)
    requires
        store.wf(),
    ensures
        r matches Ok(v) ==> deser_captcha(store@) == Ok::<CaptchaProviderModel, ErrorKind>(v@),
        r matches Err(e) ==> deser_captcha(store@) == Err::<CaptchaProviderModel, ErrorKind>(e@),
{
    let prov: String = read_str_field(store, "captcha_provider", "");
    let present: bool = store.get("captcha_provider").is_some();
    if present && crate::strutil::str_eq(prov.as_str(), "turnstile") {
        Ok(
            CaptchaProvider::Turnstile {
                site_key: read_str_field(store, "turnstile_site_key", ""),
                secret_key: read_str_field(store, "turnstile_secret_key", ""),
            },
        )
    } else if present && crate::strutil::str_eq(prov.as_str(), "recaptcha") {
        let v3: bool = match read_bool_field(store, "recaptcha_v3", false) {
            Ok(v) => v,
            Err(e) => {
                return Err(e);
            },
        };
        Ok(
            CaptchaProvider::Recaptcha {
                v3,
                site_key: read_str_field(store, "recaptcha_site_key", ""),
                secret_key: read_str_field(store, "recaptcha_secret_key", ""),
            },
        )
    } else if present && crate::strutil::str_eq(prov.as_str(), "hcaptcha") {
        Ok(
            CaptchaProvider::Hcaptcha {
                site_key: read_str_field(store, "hcaptcha_site_key", ""),
                secret_key: read_str_field(store, "hcaptcha_secret_key", ""),
            },
        )
    } else if present && crate::strutil::str_eq(prov.as_str(), "friendlycaptcha") {
        Ok(
            CaptchaProvider::FriendlyCaptcha {
                site_key: read_str_field(store, "friendlycaptcha_site_key", ""),
                api_key: read_str_field(store, "friendlycaptcha_api_key", ""),
            },
        )
    } else {
        Ok(CaptchaProvider::Disabled)
    }
}

fn read_extensions(store: &KvMap, registry: &ExtensionRegistry) -> (r: Vec<ExtensionEntry>)
    requires
        store.wf(),
    ensures
        r@.map_values(|e: ExtensionEntry| e@) == deser_extensions(store@, registry@),
{
    let n: usize = registry.len();
    let mut out: Vec<ExtensionEntry> = Vec::new();
    let mut i: usize = 0;
    while i < n
        invariant
            store.wf(),
            n == registry@.len(),
            i <= n,
            out@.len() == i,
            forall|k: int|
                0 <= k < i ==> #[trigger] out@[k]@ == deser_extensions(store@, registry@)[k],
        decreases n - i,
    {
        let descriptor = registry.descriptor_at(i);
        let m: usize = descriptor.fields.len();
        let mut fields: Vec<ExtensionField> = Vec::new();
        let mut j: usize = 0;
        while j < m
            invariant
                store.wf(),
                m == descriptor.fields@.len(),
                j <= m,
                fields@.len() == j,
                forall|t: int|
                    0 <= t < j ==> #[trigger] fields@[t]@ == deser_ext_fields(
                        store@,
                        descriptor@.identifier,
                        descriptor@.fields,
                    )[t],
            decreases m - j,
        {
            let field_spec = &descriptor.fields[j];
            let k: String = ext_field_key(&descriptor.identifier, &field_spec.name);
            let value: String = read_str_field(store, k.as_str(), field_spec.default_value.as_str());
            let name: String = field_spec.name.clone();
            fields.push(ExtensionField { name, value });
            proof {
                assert(descriptor@.fields[j as int] == descriptor.fields@[j as int]@);
            }
            j = j + 1;
        }
        let entry = ExtensionEntry {
            identifier: descriptor.identifier.clone(),
            settings: ExtensionSettings { type_tag: descriptor.type_tag.clone(), fields },
        };
        proof {
            assert(entry@.settings.fields =~= deser_ext_fields(
                store@,
                descriptor@.identifier,
                descriptor@.fields,
            ));
            assert(entry@ == deser_extensions(store@, registry@)[i as int]);
        }
        out.push(entry);
        i = i + 1;
    }
    proof {
        assert(out@.map_values(|e: ExtensionEntry| e@) =~= deser_extensions(store@, registry@));
    }
    out
}

/// Reads the whole typed aggregate back out of the flat rows.
pub struct AppSettingsDeserializer;

impl AppSettingsDeserializer {
    /// Deserializes the aggregate: every absent key falls back to its
    /// documented default, a present key that does not read back fails the
    /// whole load. `has_users` is the surrounding system's answer to
    /// whether any user exists yet; it decides the default onboarding step.
    ///
    /// The last clause is the round-trip law: the rows the serializer wrote
    /// for a ready aggregate — upserted over whatever rows the store held
    /// before — read back to that same aggregate, field for field.
    pub fn deserialize(
        &self,
        store: &KvMap,
        registry: &ExtensionRegistry,
        cipher: &SecretCipher,
        has_users: bool,
    ) -> (r: Result<AppSettings, SettingsError>)
        requires
            store.wf(),
            cipher.wf(),
        ensures
            r matches Ok(a) ==> spec_deserialize(store@, registry@, cipher.spec_key(), has_users)
                == Ok::<AppSettingsModel, ErrorKind>(a@),
            r matches Err(e) ==> spec_deserialize(store@, registry@, cipher.spec_key(), has_users)
                == Err::<AppSettingsModel, ErrorKind>(e@),
            forall|a: AppSettingsModel, base: Map<Seq<char>, Seq<char>>|
                (crate::roundtrip::round_trip_ready(a, registry@)
                    && crate::roundtrip::secret_tokens_ok(cipher.spec_key(), a) && store@
                    == #[trigger] base.union_prefer_right(spec_serialize(a, cipher.spec_key())))
                    ==> (r matches Ok(res) && res@ == a),
    {
        let extensions: Vec<ExtensionEntry> = read_extensions(store, registry);
        let telemetry_uuid: Option<u128> = match read_opt_field(store, "telemetry_uuid") {
            Some(s) => uuid_parse(s.as_str()),
            None => None,
        };
        let telemetry_cron_schedule: Option<String> = match read_opt_field(
            store,
            "telemetry_cron_schedule",
        ) {
            Some(s) => {
                if cron_valid(s.as_str()) {
                    Some(s)
                } else {
                    None
                }
            },
            None => None,
        };
        let oobe_step: Option<String> = match read_opt_field(store, "oobe_step") {
            Some(s) => {
                if s.as_str().is_empty() {
                    None
                } else {
                    Some(s)
                }
            },
            None => {
                if has_users {
                    None
                } else {
                    Some("register".to_owned())
                }
            },
        };
        let storage_driver: StorageDriver = match read_storage(store, cipher) {
            Ok(v) => v,
            Err(e) => {
                proof {
                    assert forall|a: AppSettingsModel, base: Map<Seq<char>, Seq<char>>|
                        (crate::roundtrip::round_trip_ready(a, registry@)
                        && crate::roundtrip::secret_tokens_ok(cipher.spec_key(), a) && store@
                        == #[trigger] base.union_prefer_right(spec_serialize(
                        a,
                        cipher.spec_key(),
                    ))) implies false by {
                        crate::roundtrip::lemma_serialize_lookups(a, cipher.spec_key());
                        crate::roundtrip::lemma_union_pin_all(
                            base,
                            spec_serialize(a, cipher.spec_key()),
                        );
                        assert(crate::roundtrip::storage_matches(
                            store@,
                            cipher.spec_key(),
                            a.storage_driver,
                        ));
                        assert(deser_storage(store@, cipher.spec_key()) == Ok::<
                            StorageDriverModel,
                            ErrorKind,
                        >(a.storage_driver));
                    }
                }
                return Err(e);
            },
        };
        let mail_mode: MailMode = match read_mail(store, cipher) {
            Ok(v) => v,
            Err(e) => {
                proof {
                    assert forall|a: AppSettingsModel, base: Map<Seq<char>, Seq<char>>|
                        (crate::roundtrip::round_trip_ready(a, registry@)
                        && crate::roundtrip::secret_tokens_ok(cipher.spec_key(), a) && store@
                        == #[trigger] base.union_prefer_right(spec_serialize(
                        a,
                        cipher.spec_key(),
                    ))) implies false by {
                        crate::roundtrip::lemma_serialize_lookups(a, cipher.spec_key());
                        crate::roundtrip::lemma_union_pin_all(
                            base,
                            spec_serialize(a, cipher.spec_key()),
                        );
                        assert(crate::roundtrip::mail_matches(
                            store@,
                            cipher.spec_key(),
                            a.mail_mode,
                        ));
                        assert(deser_mail(store@, cipher.spec_key()) == Ok::<
                            MailModeModel,
                            ErrorKind,
                        >(a.mail_mode));
                    }
                }
                return Err(e);
            },
        };
        let captcha_provider: CaptchaProvider = match read_captcha(store) {
            Ok(v) => v,
            Err(e) => {
                proof {
                    assert forall|a: AppSettingsModel, base: Map<Seq<char>, Seq<char>>|
                        (crate::roundtrip::round_trip_ready(a, registry@)
                        && crate::roundtrip::secret_tokens_ok(cipher.spec_key(), a) && store@
                        == #[trigger] base.union_prefer_right(spec_serialize(
                        a,
                        cipher.spec_key(),
                    ))) implies false by {
                        crate::roundtrip::lemma_serialize_lookups(a, cipher.spec_key());
                        crate::roundtrip::lemma_union_pin_all(
                            base,
                            spec_serialize(a, cipher.spec_key()),
                        );
                        crate::roundtrip::lemma_captcha_round(store@, a.captcha_provider);
                    }
                }
                return Err(e);
            },
        };
        let telemetry_enabled: bool = match read_bool_field(store, "app_telemetry_enabled", true) {
            Ok(v) => v,
            Err(e) => {
                proof {
                    assert forall|a: AppSettingsModel, base: Map<Seq<char>, Seq<char>>|
                        (crate::roundtrip::round_trip_ready(a, registry@)
                        && crate::roundtrip::secret_tokens_ok(cipher.spec_key(), a) && store@
                        == #[trigger] base.union_prefer_right(spec_serialize(
                        a,
                        cipher.spec_key(),
                    ))) implies false by {
                        crate::roundtrip::lemma_serialize_lookups(a, cipher.spec_key());
                        crate::roundtrip::lemma_union_pin_all(
                            base,
                            spec_serialize(a, cipher.spec_key()),
                        );
                        crate::roundtrip::lemma_app_round(store@, a.app);
                    }
                }
                return Err(e);
            },
        };
        let app = AppSettingsApp {
            name: read_str_field(store, "app_name", "Calagopus"),
            url: read_str_field(store, "app_url", "http://localhost"),
            telemetry_enabled,
        };
        let webauthn = AppSettingsWebauthn {
            rp_id: read_str_field(store, "webauthn_rp_id", "localhost"),
            rp_origin: read_str_field(store, "webauthn_rp_origin", "http://localhost"),
        };
        let max_view: u64 = match read_u64_field(store, "server_max_file_manager_view_size", 10485760) {
            Ok(v) => v,
            Err(e) => {
                proof {
                    assert forall|a: AppSettingsModel, base: Map<Seq<char>, Seq<char>>|
                        (crate::roundtrip::round_trip_ready(a, registry@)
                        && crate::roundtrip::secret_tokens_ok(cipher.spec_key(), a) && store@
                        == #[trigger] base.union_prefer_right(spec_serialize(
                        a,
                        cipher.spec_key(),
                    ))) implies false by {
                        crate::roundtrip::lemma_serialize_lookups(a, cipher.spec_key());
                        crate::roundtrip::lemma_union_pin_all(
                            base,
                            spec_serialize(a, cipher.spec_key()),
                        );
                        crate::roundtrip::lemma_server_round(store@, a.server);
                    }
                }
                return Err(e);
            },
        };
        let allow_overwrite: bool = match read_bool_field(
            store,
            "server_allow_overwriting_custom_docker_image",
            false,
        ) {
            Ok(v) => v,
            Err(e) => {
                proof {
                    assert forall|a: AppSettingsModel, base: Map<Seq<char>, Seq<char>>|
                        (crate::roundtrip::round_trip_ready(a, registry@)
                        && crate::roundtrip::secret_tokens_ok(cipher.spec_key(), a) && store@
                        == #[trigger] base.union_prefer_right(spec_serialize(
                        a,
                        cipher.spec_key(),
                    ))) implies false by {
                        crate::roundtrip::lemma_serialize_lookups(a, cipher.spec_key());
                        crate::roundtrip::lemma_union_pin_all(
                            base,
                            spec_serialize(a, cipher.spec_key()),
                        );
                        crate::roundtrip::lemma_server_round(store@, a.server);
                    }
                }
                return Err(e);
            },
        };
        let server = AppSettingsServer {
            max_file_manager_view_size: max_view,
            allow_overwriting_custom_docker_image: allow_overwrite,
        };
        let keep_days: u64 = match read_u64_field(store, "activity_keep_days", 90) {
            Ok(v) => v,
            Err(e) => {
                proof {
                    assert forall|a: AppSettingsModel, base: Map<Seq<char>, Seq<char>>|
                        (crate::roundtrip::round_trip_ready(a, registry@)
                        && crate::roundtrip::secret_tokens_ok(cipher.spec_key(), a) && store@
                        == #[trigger] base.union_prefer_right(spec_serialize(
                        a,
                        cipher.spec_key(),
                    ))) implies false by {
                        crate::roundtrip::lemma_serialize_lookups(a, cipher.spec_key());
                        crate::roundtrip::lemma_union_pin_all(
                            base,
                            spec_serialize(a, cipher.spec_key()),
                        );
                        crate::roundtrip::lemma_activity_round(store@, a.activity);
                    }
                }
                return Err(e);
            },
        };
        let activity = AppSettingsActivity {
            keep_days,
            prune_cron: read_str_field(store, "activity_prune_cron", "0 30 0 * * *"),
        };
        let result = AppSettings {
            telemetry_uuid,
            telemetry_cron_schedule,
            oobe_step,
            storage_driver,
            mail_mode,
            captcha_provider,
            app,
            webauthn,
            server,
            activity,
            extensions,
        };
        proof {
            assert forall|a: AppSettingsModel, base: Map<Seq<char>, Seq<char>>|
                (crate::roundtrip::round_trip_ready(a, registry@)
                    && crate::roundtrip::secret_tokens_ok(cipher.spec_key(), a) && store@
                    == #[trigger] base.union_prefer_right(spec_serialize(
                    a,
                    cipher.spec_key(),
                ))) implies result@ == a by {
                crate::roundtrip::lemma_serialize_lookups(a, cipher.spec_key());
                crate::roundtrip::lemma_union_pin_all(base, spec_serialize(a, cipher.spec_key()));
                assert(crate::roundtrip::storage_matches(
                    store@,
                    cipher.spec_key(),
                    a.storage_driver,
                ));
                assert(crate::roundtrip::mail_matches(store@, cipher.spec_key(), a.mail_mode));
                assert(crate::roundtrip::uuid_parse_fact(uuid_out(a.telemetry_uuid)));
                assert(a.telemetry_cron_schedule is None ==> !cron_accepts(Seq::<char>::empty()));
                crate::roundtrip::lemma_round_trip(base, a, registry@, cipher.spec_key(), has_users);
                assert(spec_deserialize(store@, registry@, cipher.spec_key(), has_users) == Ok::<
                    AppSettingsModel,
                    ErrorKind,
                >(result@));
            }
        }
        Ok(result)
    }
}

} // verus!
