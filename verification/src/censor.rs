//! The censored rendering of the aggregate: every leaf as plain text under
//! its flat name, with any field whose name matches the secret-like pattern
//! replaced by a mask of fixed length — neither a secret's text nor its
//! length is ever echoed back.

use vstd::prelude::*;

use crate::extensions::{ExtensionEntry, ExtensionEntryModel, ExtensionField};
use crate::model::{
    AppSettings, AppSettingsModel, CaptchaProvider, CaptchaProviderModel, MailMode, MailModeModel,
    StorageDriver, StorageDriverModel,
};
use crate::pipeline::{bool_out, ext_key, opt_out, uuid_out};
use crate::scalar::{bool_to_str, dec_rep, u64_to_dec};
use crate::strutil::{contains_password, has_password_key, mask_of_len, mask_seq};

verus! {

/// The views of a rendered pair list.
pub open spec fn pair_view(s: Seq<(String, String)>) -> Seq<(Seq<char>, Seq<char>)> {
    s.map_values(|p: (String, String)| (p.0@, p.1@))
}

/// The scalar leaves, rendered.
pub open spec fn render_scalars(a: AppSettingsModel) -> Seq<(Seq<char>, Seq<char>)> {
    seq![
        ("telemetry_uuid"@, uuid_out(a.telemetry_uuid)),
        ("telemetry_cron_schedule"@, opt_out(a.telemetry_cron_schedule)),
        ("oobe_step"@, opt_out(a.oobe_step)),
    ]
}

/// The storage union's active variant, rendered.
pub open spec fn render_storage(s: StorageDriverModel) -> Seq<(Seq<char>, Seq<char>)> {
    match s {
        StorageDriverModel::Filesystem { path } => seq![
            ("storage_driver"@, "filesystem"@),
            ("storage_filesystem_path"@, path),
        ],
        StorageDriverModel::S3 {
            public_url,
            access_key,
            secret_key,
            bucket,
            region,
            endpoint,
            path_style,
        } => seq![
            ("storage_driver"@, "s3"@),
            ("storage_s3_public_url"@, public_url),
            ("storage_s3_access_key"@, access_key),
            ("storage_s3_secret_key"@, secret_key),
            ("storage_s3_bucket"@, bucket),
            ("storage_s3_region"@, region),
            ("storage_s3_endpoint"@, endpoint),
            ("storage_s3_path_style"@, bool_out(path_style)),
        ],
    }
}

/// The mail union's active variant, rendered.
pub open spec fn render_mail(m: MailModeModel) -> Seq<(Seq<char>, Seq<char>)> {
    match m {
        MailModeModel::Disabled => seq![("mail_mode"@, "none"@)],
        MailModeModel::Smtp { host, port, username, password, use_tls, from_address, from_name } => seq![
            ("mail_mode"@, "smtp"@),
            ("mail_smtp_host"@, host),
            ("mail_smtp_port"@, dec_rep(port as nat)),
            ("mail_smtp_username"@, opt_out(username)),
            ("mail_smtp_password"@, opt_out(password)),
            ("mail_smtp_use_tls"@, bool_out(use_tls)),
            ("mail_smtp_from_address"@, from_address),
            ("mail_smtp_from_name"@, opt_out(from_name)),
        ],
        MailModeModel::Sendmail { command, from_address, from_name } => seq![
            ("mail_mode"@, "sendmail"@),
            ("mail_sendmail_command"@, command),
            ("mail_sendmail_from_address"@, from_address),
            ("mail_sendmail_from_name"@, opt_out(from_name)),
        ],
        MailModeModel::Filesystem { path, from_address, from_name } => seq![
            ("mail_mode"@, "filesystem"@),
            ("mail_filesystem_path"@, path),
            ("mail_filesystem_from_address"@, from_address),
            ("mail_filesystem_from_name"@, opt_out(from_name)),
        ],
    }
}

/// The captcha union's active variant, rendered.
pub open spec fn render_captcha(c: CaptchaProviderModel) -> Seq<(Seq<char>, Seq<char>)> {
    match c {
        CaptchaProviderModel::Disabled => seq![("captcha_provider"@, "none"@)],
        CaptchaProviderModel::Turnstile { site_key, secret_key } => seq![
            ("captcha_provider"@, "turnstile"@),
            ("turnstile_site_key"@, site_key),
            ("turnstile_secret_key"@, secret_key),
        ],
        CaptchaProviderModel::Recaptcha { v3, site_key, secret_key } => seq![
            ("captcha_provider"@, "recaptcha"@),
            ("recaptcha_v3"@, bool_out(v3)),
            ("recaptcha_site_key"@, site_key),
            ("recaptcha_secret_key"@, secret_key),
        ],
        CaptchaProviderModel::Hcaptcha { site_key, secret_key } => seq![
            ("captcha_provider"@, "hcaptcha"@),
            ("hcaptcha_site_key"@, site_key),
            ("hcaptcha_secret_key"@, secret_key),
        ],
        CaptchaProviderModel::FriendlyCaptcha { site_key, api_key } => seq![
            ("captcha_provider"@, "friendlycaptcha"@),
            ("friendlycaptcha_site_key"@, site_key),
            ("friendlycaptcha_api_key"@, api_key),
        ],
    }
}

/// The nested sections, rendered.
pub open spec fn render_sections(a: AppSettingsModel) -> Seq<(Seq<char>, Seq<char>)> {
    seq![
        ("app_name"@, a.app.name),
        ("app_url"@, a.app.url),
        ("app_telemetry_enabled"@, bool_out(a.app.telemetry_enabled)),
        ("webauthn_rp_id"@, a.webauthn.rp_id),
        ("webauthn_rp_origin"@, a.webauthn.rp_origin),
        (
            "server_max_file_manager_view_size"@,
            dec_rep(a.server.max_file_manager_view_size as nat),
        ),
        (
            "server_allow_overwriting_custom_docker_image"@,
            bool_out(a.server.allow_overwriting_custom_docker_image),
        ),
        ("activity_keep_days"@, dec_rep(a.activity.keep_days as nat)),
        ("activity_prune_cron"@, a.activity.prune_cron),
    ]
}

/// One extension entry's fields, rendered under its namespace.
pub open spec fn render_ext_entry(e: ExtensionEntryModel) -> Seq<(Seq<char>, Seq<char>)> {
    Seq::new(
        e.settings.fields.len(),
        |j: int| (ext_key(e.identifier, e.settings.fields[j].name), e.settings.fields[j].value),
    )
}

/// Every extension entry, rendered.
pub open spec fn render_exts(exts: Seq<ExtensionEntryModel>) -> Seq<(Seq<char>, Seq<char>)>
    decreases exts.len(),
{
    if exts.len() == 0 {
        Seq::empty()
    } else {
        render_exts(exts.drop_last()) + render_ext_entry(exts.last())
    }
}

/// The whole aggregate as a flat list of named text leaves, in rendering
/// order.
pub open spec fn spec_render(a: AppSettingsModel) -> Seq<(Seq<char>, Seq<char>)> {
    render_scalars(a) + render_storage(a.storage_driver) + render_mail(a.mail_mode)
        + render_captcha(a.captcha_provider) + render_sections(a) + render_exts(a.extensions)
}

/// How many mask characters stand in for a censored secret, whatever the
/// secret's length.
pub const SECRET_MASK_LEN: usize = 8;

/// One leaf of the censored rendering: the text itself, or the fixed-length
/// mask when the leaf's name matches the secret-like pattern.
pub open spec fn censor_value(k: Seq<char>, v: Seq<char>) -> Seq<char> {
    if has_password_key(k) {
        mask_seq(SECRET_MASK_LEN as nat)
    } else {
        v
    }
}

fn push_pair(out: &mut Vec<(String, String)>, k: &str, v: String)
    ensures
        pair_view(final(out)@) == pair_view(old(out)@).push((k@, v@)),
{
    let pair: (String, String) = (k.to_owned(), v);
    out.push(pair);
    proof {
        assert(pair_view(final(out)@) =~= pair_view(old(out)@).push((k@, v@)));
    }
}

fn render_push_storage(out: &mut Vec<(String, String)>, s: &StorageDriver)
    ensures
        pair_view(final(out)@) == pair_view(old(out)@) + render_storage(s@),
{
    match s {
        StorageDriver::Filesystem { path } => {
            push_pair(out, "storage_driver", "filesystem".to_owned());
            push_pair(out, "storage_filesystem_path", path.clone());
        },
        StorageDriver::S3 {
            public_url,
            access_key,
            secret_key,
            bucket,
            region,
            endpoint,
            path_style,
        } => {
            push_pair(out, "storage_driver", "s3".to_owned());
            push_pair(out, "storage_s3_public_url", public_url.clone());
            push_pair(out, "storage_s3_access_key", access_key.clone());
            push_pair(out, "storage_s3_secret_key", secret_key.clone());
            push_pair(out, "storage_s3_bucket", bucket.clone());
            push_pair(out, "storage_s3_region", region.clone());
            push_pair(out, "storage_s3_endpoint", endpoint.clone());
            push_pair(out, "storage_s3_path_style", bool_to_str(*path_style).to_owned());
        },
    }

    proof {
        assert(pair_view(final(out)@) =~= pair_view(old(out)@) + render_storage(s@));
    }
}

fn render_push_mail(out: &mut Vec<(String, String)>, m: &MailMode)
    ensures
        pair_view(final(out)@) == pair_view(old(out)@) + render_mail(m@),
{
    match m {
        MailMode::Disabled => {
            push_pair(out, "mail_mode", "none".to_owned());
        },
        MailMode::Smtp { host, port, username, password, use_tls, from_address, from_name } => {
            push_pair(out, "mail_mode", "smtp".to_owned());
            push_pair(out, "mail_smtp_host", host.clone());
            push_pair(out, "mail_smtp_port", u64_to_dec(*port as u64));
            push_pair(out, "mail_smtp_username", opt_text(username));
            push_pair(out, "mail_smtp_password", opt_text(password));
            push_pair(out, "mail_smtp_use_tls", bool_to_str(*use_tls).to_owned());
            push_pair(out, "mail_smtp_from_address", from_address.clone());
            push_pair(out, "mail_smtp_from_name", opt_text(from_name));
        },
        MailMode::Sendmail { command, from_address, from_name } => {
            push_pair(out, "mail_mode", "sendmail".to_owned());
            push_pair(out, "mail_sendmail_command", command.clone());
            push_pair(out, "mail_sendmail_from_address", from_address.clone());
            push_pair(out, "mail_sendmail_from_name", opt_text(from_name));
        },
        MailMode::Filesystem { path, from_address, from_name } => {
            push_pair(out, "mail_mode", "filesystem".to_owned());
            push_pair(out, "mail_filesystem_path", path.clone());
            push_pair(out, "mail_filesystem_from_address", from_address.clone());
            push_pair(out, "mail_filesystem_from_name", opt_text(from_name));
        },
    }

    proof {
        assert(pair_view(final(out)@) =~= pair_view(old(out)@) + render_mail(m@));
    }
}

fn render_push_captcha(out: &mut Vec<(String, String)>, c: &CaptchaProvider)
    ensures
        pair_view(final(out)@) == pair_view(old(out)@) + render_captcha(c@),
{
    match c {
        CaptchaProvider::Disabled => {
            push_pair(out, "captcha_provider", "none".to_owned());
        },
        CaptchaProvider::Turnstile { site_key, secret_key } => {
            push_pair(out, "captcha_provider", "turnstile".to_owned());
            push_pair(out, "turnstile_site_key", site_key.clone());
            push_pair(out, "turnstile_secret_key", secret_key.clone());
        },
        CaptchaProvider::Recaptcha { v3, site_key, secret_key } => {
            push_pair(out, "captcha_provider", "recaptcha".to_owned());
            push_pair(out, "recaptcha_v3", bool_to_str(*v3).to_owned());
            push_pair(out, "recaptcha_site_key", site_key.clone());
            push_pair(out, "recaptcha_secret_key", secret_key.clone());
        },
        CaptchaProvider::Hcaptcha { site_key, secret_key } => {
            push_pair(out, "captcha_provider", "hcaptcha".to_owned());
            push_pair(out, "hcaptcha_site_key", site_key.clone());
            push_pair(out, "hcaptcha_secret_key", secret_key.clone());
        },
        CaptchaProvider::FriendlyCaptcha { site_key, api_key } => {
            push_pair(out, "captcha_provider", "friendlycaptcha".to_owned());
            push_pair(out, "friendlycaptcha_site_key", site_key.clone());
            push_pair(out, "friendlycaptcha_api_key", api_key.clone());
        },
    }

    proof {
        assert(pair_view(final(out)@) =~= pair_view(old(out)@) + render_captcha(c@));
    }
}

fn render_settings(a: &AppSettings) -> (r: Vec<(String, String)>)
    ensures
        pair_view(r@) == spec_render(a@),
{
    let mut out: Vec<(String, String)> = Vec::new();
    let uuid_text_out: String = match &a.telemetry_uuid {
        Some(u) => crate::pipeline::uuid_to_string(*u),
        None => String::new(),
    };
    push_pair(&mut out, "telemetry_uuid", uuid_text_out);
    push_pair(&mut out, "telemetry_cron_schedule", opt_text(&a.telemetry_cron_schedule));
    push_pair(&mut out, "oobe_step", opt_text(&a.oobe_step));
    proof {
        assert(pair_view(out@) =~= render_scalars(a@));
    }
    let ghost run1 = pair_view(out@);
    render_push_storage(&mut out, &a.storage_driver);
    let ghost run2 = pair_view(out@);
    render_push_mail(&mut out, &a.mail_mode);
    let ghost run3 = pair_view(out@);
    render_push_captcha(&mut out, &a.captcha_provider);
    let ghost run4 = pair_view(out@);
    push_pair(&mut out, "app_name", a.app.name.clone());
    push_pair(&mut out, "app_url", a.app.url.clone());
    push_pair(&mut out, "app_telemetry_enabled", bool_to_str(a.app.telemetry_enabled).to_owned());
    push_pair(&mut out, "webauthn_rp_id", a.webauthn.rp_id.clone());
    push_pair(&mut out, "webauthn_rp_origin", a.webauthn.rp_origin.clone());
    push_pair(
        &mut out,
        "server_max_file_manager_view_size",
        u64_to_dec(a.server.max_file_manager_view_size),
    );
    push_pair(
        &mut out,
        "server_allow_overwriting_custom_docker_image",
        bool_to_str(a.server.allow_overwriting_custom_docker_image).to_owned(),
    );
    push_pair(&mut out, "activity_keep_days", u64_to_dec(a.activity.keep_days));
    push_pair(&mut out, "activity_prune_cron", a.activity.prune_cron.clone());
    proof {
        assert(pair_view(out@) =~= run4 + render_sections(a@));
    }
    let ghost run5 = pair_view(out@);
    let ghost exts_model = a.extensions@.map_values(|e: ExtensionEntry| e@);
    let n: usize = a.extensions.len();
    let mut i: usize = 0;
    while i < n
        invariant
            n == a.extensions@.len(),
            exts_model == a.extensions@.map_values(|e: ExtensionEntry| e@),
            i <= n,
            pair_view(out@) == run5 + render_exts(exts_model.take(i as int)),
        decreases n - i,
    {
        let entry: &ExtensionEntry = &a.extensions[i];
        let m: usize = entry.settings.fields.len();
        let mut j: usize = 0;
        let ghost entry_model = entry@;
        let ghost before_entry = pair_view(out@);
        while j < m
            invariant
                m == entry.settings.fields@.len(),
                entry_model == entry@,
                j <= m,
                pair_view(out@) == before_entry + render_ext_entry(entry_model).take(j as int),
            decreases m - j,
        {
            let field: &ExtensionField = &entry.settings.fields[j];
            let k: String = crate::pipeline::ext_field_key(&entry.identifier, &field.name);
            push_pair(&mut out, k.as_str(), field.value.clone());
            proof {
                assert(pair_view(out@) =~= before_entry + render_ext_entry(entry_model).take(
                    j as int + 1,
                ));
            }
            j = j + 1;
        }
        proof {
            assert(render_ext_entry(entry_model).take(m as int) =~= render_ext_entry(entry_model));
            let taken = exts_model.take(i as int + 1);
            assert(taken.drop_last() =~= exts_model.take(i as int));
            assert(taken.last() == exts_model[i as int]);
            assert(pair_view(out@) =~= run5 + render_exts(exts_model.take(i as int + 1)));
        }
        i = i + 1;
    }
    proof {
        assert(exts_model.take(n as int) =~= exts_model);
        assert(pair_view(out@) =~= spec_render(a@));
    }
    out
}

fn opt_text(o: &Option<String>) -> (r: String)
    ensures
        r@ == opt_out(crate::model::opt_view(*o)),
{
    match o {
        Some(s) => s.clone(),
        None => String::new(),
    }
}

/// What a correct censored rendering is: leaf for leaf the rendered name,
/// and the rendered text censored by name.
pub open spec fn censored_ok(a: AppSettingsModel, r: Seq<(String, String)>) -> bool {
    r.len() == spec_render(a).len() && forall|i: int|
        0 <= i < r.len() ==> (#[trigger] r[i].0@ == spec_render(a)[i].0 && r[i].1@ == censor_value(
            spec_render(a)[i].0,
            spec_render(a)[i].1,
        ))
}

/// Renders the aggregate as named text leaves with every secret-named leaf
/// masked: the censored view never holds the text of a field whose name
/// matches the secret pattern, and every other leaf verbatim.
pub fn censored_render(a: &AppSettings) -> (r: Vec<(String, String)>)
    ensures
        censored_ok(a@, r@),
{
    let pairs: Vec<(String, String)> = render_settings(a);
    let n: usize = pairs.len();
    let ghost rendered = pair_view(pairs@);
    let mut out: Vec<(String, String)> = Vec::new();
    let mut i: usize = 0;
    while i < n
        invariant
            n == pairs@.len(),
            rendered == pair_view(pairs@),
            rendered == spec_render(a@),
            i <= n,
            out@.len() == i,
            forall|t: int|
                0 <= t < i ==> (#[trigger] out@[t].0@ == rendered[t].0 && out@[t].1@
                    == censor_value(rendered[t].0, rendered[t].1)),
        decreases n - i,
    {
        let key_copy: String = pairs[i].0.clone();
        let is_secret: bool = contains_password(key_copy.as_str());
        let value: String = if is_secret {
            mask_of_len(SECRET_MASK_LEN)
        } else {
            pairs[i].1.clone()
        };
        proof {
            assert(rendered[i as int].0 == pairs@[i as int].0@);
            assert(rendered[i as int].1 == pairs@[i as int].1@);
        }
        out.push((key_copy, value));
        i = i + 1;
    }
    out
}

} // verus!
