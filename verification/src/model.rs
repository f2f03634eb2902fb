//! The typed configuration aggregate: flat scalar fields, nested sections,
//! tagged unions for the pluggable strategies, and the open map of
//! extension sub-sections.
//!
//! Each exec type has a spec-level mirror reached through its view, so that
//! contracts speak of plain mathematical values.

use vstd::prelude::*;

use crate::extensions::{ExtensionEntry, ExtensionEntryModel};

verus! {

/// Spec-level shape of an optional string.
pub open spec fn opt_view(o: Option<String>) -> Option<Seq<char>> {
    match o {
        Some(s) => Some(s@),
        None => None,
    }
}

fn opt_clone(o: &Option<String>) -> (r: Option<String>)
    ensures
        opt_view(r) == opt_view(*o),
{
    match o {
        Some(s) => Some(s.clone()),
        None => None,
    }
}

/// Where uploaded files live: the host filesystem, or an S3-compatible
/// bucket whose keys are credentials.
#[derive(Debug, PartialEq)]
pub enum StorageDriver {
    Filesystem { path: String },
    S3 {
        public_url: String,
        access_key: String,
        secret_key: String,
        bucket: String,
        region: String,
        endpoint: String,
        path_style: bool,
    },
}

/// Spec-level shape of a [`StorageDriver`].
pub enum StorageDriverModel {
    Filesystem { path: Seq<char> },
    S3 {
        public_url: Seq<char>,
        access_key: Seq<char>,
        secret_key: Seq<char>,
        bucket: Seq<char>,
        region: Seq<char>,
        endpoint: Seq<char>,
        path_style: bool,
    },
}

impl View for StorageDriver {
    type V = StorageDriverModel;

    open spec fn view(&self) -> StorageDriverModel {
        match self {
            StorageDriver::Filesystem { path } => StorageDriverModel::Filesystem { path: path@ },
            StorageDriver::S3 {
                public_url,
                access_key,
                secret_key,
                bucket,
                region,
                endpoint,
                path_style,
            } => StorageDriverModel::S3 {
                public_url: public_url@,
                access_key: access_key@,
                secret_key: secret_key@,
                bucket: bucket@,
                region: region@,
                endpoint: endpoint@,
                path_style: *path_style,
            },
        }
    }
}

impl Clone for StorageDriver {
    fn clone(&self) -> (r: Self)
        ensures
            r@ == self@,
    {
        match self {
            StorageDriver::Filesystem { path } => StorageDriver::Filesystem { path: path.clone() },
            StorageDriver::S3 {
                public_url,
                access_key,
                secret_key,
                bucket,
                region,
                endpoint,
                path_style,
            } => StorageDriver::S3 {
                public_url: public_url.clone(),
                access_key: access_key.clone(),
                secret_key: secret_key.clone(),
                bucket: bucket.clone(),
                region: region.clone(),
                endpoint: endpoint.clone(),
                path_style: *path_style,
            },
        }
    }
}

/// How outbound mail leaves the system, if at all.
#[derive(Debug, PartialEq)]
pub enum MailMode {
    Disabled,
    Smtp {
        host: String,
        port: u16,
        username: Option<String>,
        password: Option<String>,
        use_tls: bool,
        from_address: String,
        from_name: Option<String>,
    },
    Sendmail { command: String, from_address: String, from_name: Option<String> },
    Filesystem { path: String, from_address: String, from_name: Option<String> },
}

/// Spec-level shape of a [`MailMode`].
pub enum MailModeModel {
    Disabled,
    Smtp {
        host: Seq<char>,
        port: u16,
        username: Option<Seq<char>>,
        password: Option<Seq<char>>,
        use_tls: bool,
        from_address: Seq<char>,
        from_name: Option<Seq<char>>,
    },
    Sendmail { command: Seq<char>, from_address: Seq<char>, from_name: Option<Seq<char>> },
    Filesystem { path: Seq<char>, from_address: Seq<char>, from_name: Option<Seq<char>> },
}

impl View for MailMode {
    type V = MailModeModel;

    open spec fn view(&self) -> MailModeModel {
        match self {
            MailMode::Disabled => MailModeModel::Disabled,
            MailMode::Smtp { host, port, username, password, use_tls, from_address, from_name } => (
            MailModeModel::Smtp {
                host: host@,
                port: *port,
                username: opt_view(*username),
                password: opt_view(*password),
                use_tls: *use_tls,
                from_address: from_address@,
                from_name: opt_view(*from_name),
            }),
            MailMode::Sendmail { command, from_address, from_name } => (MailModeModel::Sendmail {
                command: command@,
                from_address: from_address@,
                from_name: opt_view(*from_name),
            }),
            MailMode::Filesystem { path, from_address, from_name } => (MailModeModel::Filesystem {
                path: path@,
                from_address: from_address@,
                from_name: opt_view(*from_name),
            }),
        }
    }
}

impl Clone for MailMode {
    fn clone(&self) -> (r: Self)
        ensures
            r@ == self@,
    {
        match self {
            MailMode::Disabled => MailMode::Disabled,
            MailMode::Smtp { host, port, username, password, use_tls, from_address, from_name } => (
            MailMode::Smtp {
                host: host.clone(),
                port: *port,
                username: opt_clone(username),
                password: opt_clone(password),
                use_tls: *use_tls,
                from_address: from_address.clone(),
                from_name: opt_clone(from_name),
            }),
            MailMode::Sendmail { command, from_address, from_name } => (MailMode::Sendmail {
                command: command.clone(),
                from_address: from_address.clone(),
                from_name: opt_clone(from_name),
            }),
            MailMode::Filesystem { path, from_address, from_name } => (MailMode::Filesystem {
                path: path.clone(),
                from_address: from_address.clone(),
                from_name: opt_clone(from_name),
            }),
        }
    }
}

/// Which captcha service protects the public forms, if any.
#[derive(Debug, PartialEq)]
pub enum CaptchaProvider {
    Disabled,
    Turnstile { site_key: String, secret_key: String },
    Recaptcha { v3: bool, site_key: String, secret_key: String },
    Hcaptcha { site_key: String, secret_key: String },
    FriendlyCaptcha { site_key: String, api_key: String },
}

/// Spec-level shape of a [`CaptchaProvider`].
pub enum CaptchaProviderModel {
    Disabled,
    Turnstile { site_key: Seq<char>, secret_key: Seq<char> },
    Recaptcha { v3: bool, site_key: Seq<char>, secret_key: Seq<char> },
    Hcaptcha { site_key: Seq<char>, secret_key: Seq<char> },
    FriendlyCaptcha { site_key: Seq<char>, api_key: Seq<char> },
}

impl View for CaptchaProvider {
    type V = CaptchaProviderModel;

    open spec fn view(&self) -> CaptchaProviderModel {
        match self {
            CaptchaProvider::Disabled => CaptchaProviderModel::Disabled,
            CaptchaProvider::Turnstile { site_key, secret_key } => (CaptchaProviderModel::Turnstile {
                site_key: site_key@,
                secret_key: secret_key@,
            }),
            CaptchaProvider::Recaptcha { v3, site_key, secret_key } => (
            CaptchaProviderModel::Recaptcha {
                v3: *v3,
                site_key: site_key@,
                secret_key: secret_key@,
            }),
            CaptchaProvider::Hcaptcha { site_key, secret_key } => (CaptchaProviderModel::Hcaptcha {
                site_key: site_key@,
                secret_key: secret_key@,
            }),
            CaptchaProvider::FriendlyCaptcha { site_key, api_key } => (
            CaptchaProviderModel::FriendlyCaptcha { site_key: site_key@, api_key: api_key@ }),
        }
    }
}

impl Clone for CaptchaProvider {
    fn clone(&self) -> (r: Self)
        ensures
            r@ == self@,
    {
        match self {
            CaptchaProvider::Disabled => CaptchaProvider::Disabled,
            CaptchaProvider::Turnstile { site_key, secret_key } => (CaptchaProvider::Turnstile {
                site_key: site_key.clone(),
                secret_key: secret_key.clone(),
            }),
            CaptchaProvider::Recaptcha { v3, site_key, secret_key } => (CaptchaProvider::Recaptcha {
                v3: *v3,
                site_key: site_key.clone(),
                secret_key: secret_key.clone(),
            }),
            CaptchaProvider::Hcaptcha { site_key, secret_key } => (CaptchaProvider::Hcaptcha {
                site_key: site_key.clone(),
                secret_key: secret_key.clone(),
            }),
            CaptchaProvider::FriendlyCaptcha { site_key, api_key } => (
            CaptchaProvider::FriendlyCaptcha {
                site_key: site_key.clone(),
                api_key: api_key.clone(),
            }),
        }
    }
}

/// The captcha configuration as it is safe to hand to clients: the site key
/// of the active service, never a secret.
pub enum PublicCaptchaProvider<'a> {
    Disabled,
    Turnstile { site_key: &'a str },
    Recaptcha { v3: bool, site_key: &'a str },
    Hcaptcha { site_key: &'a str },
    FriendlyCaptcha { site_key: &'a str },
}

/// Spec-level shape of a [`PublicCaptchaProvider`].
pub enum PublicCaptchaProviderModel {
    Disabled,
    Turnstile { site_key: Seq<char> },
    Recaptcha { v3: bool, site_key: Seq<char> },
    Hcaptcha { site_key: Seq<char> },
    FriendlyCaptcha { site_key: Seq<char> },
}

impl<'a> View for PublicCaptchaProvider<'a> {
    type V = PublicCaptchaProviderModel;

    open spec fn view(&self) -> PublicCaptchaProviderModel {
        match self {
            PublicCaptchaProvider::Disabled => PublicCaptchaProviderModel::Disabled,
            PublicCaptchaProvider::Turnstile { site_key } => (PublicCaptchaProviderModel::Turnstile {
                site_key: site_key@,
            }),
            PublicCaptchaProvider::Recaptcha { v3, site_key } => (
            PublicCaptchaProviderModel::Recaptcha { v3: *v3, site_key: site_key@ }),
            PublicCaptchaProvider::Hcaptcha { site_key } => (PublicCaptchaProviderModel::Hcaptcha {
                site_key: site_key@,
            }),
            PublicCaptchaProvider::FriendlyCaptcha { site_key } => (
            PublicCaptchaProviderModel::FriendlyCaptcha { site_key: site_key@ }),
        }
    }
}

/// The public rendering of the active captcha configuration.
pub open spec fn spec_public_provider(c: CaptchaProviderModel) -> PublicCaptchaProviderModel {
    match c {
        CaptchaProviderModel::Disabled => PublicCaptchaProviderModel::Disabled,
        CaptchaProviderModel::Turnstile { site_key, .. } => (PublicCaptchaProviderModel::Turnstile {
            site_key,
        }),
        CaptchaProviderModel::Recaptcha { v3, site_key, .. } => (
        PublicCaptchaProviderModel::Recaptcha { v3, site_key }),
        CaptchaProviderModel::Hcaptcha { site_key, .. } => (PublicCaptchaProviderModel::Hcaptcha {
            site_key,
        }),
        CaptchaProviderModel::FriendlyCaptcha { site_key, .. } => (
        PublicCaptchaProviderModel::FriendlyCaptcha { site_key }),
    }
}

impl CaptchaProvider {
    /// Strips the secret, keeping only what clients may see.
    pub fn to_public_provider<'a>(&'a self) -> (r: PublicCaptchaProvider<'a>)
        ensures
            r@ == spec_public_provider(self@),
    {
        match self {
            CaptchaProvider::Disabled => PublicCaptchaProvider::Disabled,
            CaptchaProvider::Turnstile { site_key, .. } => (PublicCaptchaProvider::Turnstile {
                site_key: site_key.as_str(),
            }),
            CaptchaProvider::Recaptcha { v3, site_key, .. } => (PublicCaptchaProvider::Recaptcha {
                v3: *v3,
                site_key: site_key.as_str(),
            }),
            CaptchaProvider::Hcaptcha { site_key, .. } => (PublicCaptchaProvider::Hcaptcha {
                site_key: site_key.as_str(),
            }),
            CaptchaProvider::FriendlyCaptcha { site_key, .. } => (
            PublicCaptchaProvider::FriendlyCaptcha { site_key: site_key.as_str() }),
        }
    }

    /// The `script-src` sources the active captcha service needs.
    pub fn to_csp_script_src(&self) -> (r: &'static str)
        ensures
            self@ is Turnstile ==> r@ == "https://challenges.cloudflare.com"@,
            self@ is Recaptcha ==> r@
                == "https://www.google.com/recaptcha/ https://www.gstatic.com/recaptcha/"@,
            self@ is Hcaptcha ==> r@ == "https://hcaptcha.com https://*.hcaptcha.com"@,
            self@ is Disabled || self@ is FriendlyCaptcha ==> r@ == ""@,
    {
        match self {
            CaptchaProvider::Disabled => "",
            CaptchaProvider::Turnstile { .. } => "https://challenges.cloudflare.com",
            CaptchaProvider::Recaptcha { .. } => {
                "https://www.google.com/recaptcha/ https://www.gstatic.com/recaptcha/"
            },
            CaptchaProvider::Hcaptcha { .. } => "https://hcaptcha.com https://*.hcaptcha.com",
            CaptchaProvider::FriendlyCaptcha { .. } => "",
        }
    }

    /// The `frame-src` sources the active captcha service needs.
    pub fn to_csp_frame_src(&self) -> (r: &'static str)
        ensures
            self@ is Turnstile ==> r@ == "https://challenges.cloudflare.com"@,
            self@ is Recaptcha ==> r@
                == "https://www.google.com/recaptcha/ https://recaptcha.google.com/recaptcha/"@,
            self@ is Hcaptcha ==> r@ == "https://hcaptcha.com https://*.hcaptcha.com"@,
            self@ is FriendlyCaptcha ==> r@ == "https://*.frcapi.com"@,
            self@ is Disabled ==> r@ == ""@,
    {
        match self {
            CaptchaProvider::Disabled => "",
            CaptchaProvider::Turnstile { .. } => "https://challenges.cloudflare.com",
            CaptchaProvider::Recaptcha { .. } => {
                "https://www.google.com/recaptcha/ https://recaptcha.google.com/recaptcha/"
            },
            CaptchaProvider::Hcaptcha { .. } => "https://hcaptcha.com https://*.hcaptcha.com",
            CaptchaProvider::FriendlyCaptcha { .. } => "https://*.frcapi.com",
        }
    }

    /// The `style-src` sources the active captcha service needs.
    pub fn to_csp_style_src(&self) -> (r: &'static str)
        ensures
            self@ is Hcaptcha ==> r@ == "https://hcaptcha.com https://*.hcaptcha.com"@,
            !(self@ is Hcaptcha) ==> r@ == ""@,
    {
        match self {
            CaptchaProvider::Hcaptcha { .. } => "https://hcaptcha.com https://*.hcaptcha.com",
            _ => "",
        }
    }
}

/// Branding and reachability of the application itself.
#[derive(Debug, PartialEq)]
pub struct AppSettingsApp {
    pub name: String,
    pub url: String,
    pub telemetry_enabled: bool,
}

/// Spec-level shape of [`AppSettingsApp`].
pub struct AppSettingsAppModel {
    pub name: Seq<char>,
    pub url: Seq<char>,
    pub telemetry_enabled: bool,
}

impl View for AppSettingsApp {
    type V = AppSettingsAppModel;

    open spec fn view(&self) -> AppSettingsAppModel {
        AppSettingsAppModel {
            name: self.name@,
            url: self.url@,
            telemetry_enabled: self.telemetry_enabled,
        }
    }
}

impl Clone for AppSettingsApp {
    fn clone(&self) -> (r: Self)
        ensures
            r@ == self@,
    {
        AppSettingsApp {
            name: self.name.clone(),
            url: self.url.clone(),
            telemetry_enabled: self.telemetry_enabled,
        }
    }
}

/// The relying-party identity used for hardware-key sign-in.
#[derive(Debug, PartialEq)]
pub struct AppSettingsWebauthn {
    pub rp_id: String,
    pub rp_origin: String,
}

/// Spec-level shape of [`AppSettingsWebauthn`].
pub struct AppSettingsWebauthnModel {
    pub rp_id: Seq<char>,
    pub rp_origin: Seq<char>,
}

impl View for AppSettingsWebauthn {
    type V = AppSettingsWebauthnModel;

    open spec fn view(&self) -> AppSettingsWebauthnModel {
        AppSettingsWebauthnModel { rp_id: self.rp_id@, rp_origin: self.rp_origin@ }
    }
}

impl Clone for AppSettingsWebauthn {
    fn clone(&self) -> (r: Self)
        ensures
            r@ == self@,
    {
        AppSettingsWebauthn { rp_id: self.rp_id.clone(), rp_origin: self.rp_origin.clone() }
    }
}

/// Limits the server file manager enforces.
#[derive(Debug, PartialEq)]
pub struct AppSettingsServer {
    pub max_file_manager_view_size: u64,
    pub allow_overwriting_custom_docker_image: bool,
}

/// Spec-level shape of [`AppSettingsServer`].
pub struct AppSettingsServerModel {
    pub max_file_manager_view_size: u64,
    pub allow_overwriting_custom_docker_image: bool,
}

impl View for AppSettingsServer {
    type V = AppSettingsServerModel;

    open spec fn view(&self) -> AppSettingsServerModel {
        AppSettingsServerModel {
            max_file_manager_view_size: self.max_file_manager_view_size,
            allow_overwriting_custom_docker_image: self.allow_overwriting_custom_docker_image,
        }
    }
}

impl Clone for AppSettingsServer {
    fn clone(&self) -> (r: Self)
        ensures
            r@ == self@,
    {
        AppSettingsServer {
            max_file_manager_view_size: self.max_file_manager_view_size,
            allow_overwriting_custom_docker_image: self.allow_overwriting_custom_docker_image,
        }
    }
}

/// Retention of the activity log.
#[derive(Debug, PartialEq)]
pub struct AppSettingsActivity {
    pub keep_days: u64,
    pub prune_cron: String,
}

/// Spec-level shape of [`AppSettingsActivity`].
pub struct AppSettingsActivityModel {
    pub keep_days: u64,
    pub prune_cron: Seq<char>,
}

impl View for AppSettingsActivity {
    type V = AppSettingsActivityModel;

    open spec fn view(&self) -> AppSettingsActivityModel {
        AppSettingsActivityModel { keep_days: self.keep_days, prune_cron: self.prune_cron@ }
    }
}

impl Clone for AppSettingsActivity {
    fn clone(&self) -> (r: Self)
        ensures
            r@ == self@,
    {
        AppSettingsActivity { keep_days: self.keep_days, prune_cron: self.prune_cron.clone() }
    }
}

/// The full typed configuration tree.
#[derive(Debug, PartialEq)]
pub struct AppSettings {
    pub telemetry_uuid: Option<u128>,
    pub telemetry_cron_schedule: Option<String>,
    pub oobe_step: Option<String>,
    pub storage_driver: StorageDriver,
    pub mail_mode: MailMode,
    pub captcha_provider: CaptchaProvider,
    pub app: AppSettingsApp,
    pub webauthn: AppSettingsWebauthn,
    pub server: AppSettingsServer,
    pub activity: AppSettingsActivity,
    pub extensions: Vec<ExtensionEntry>,
}

/// Spec-level shape of the full [`AppSettings`] aggregate.
pub struct AppSettingsModel {
    pub telemetry_uuid: Option<u128>,
    pub telemetry_cron_schedule: Option<Seq<char>>,
    pub oobe_step: Option<Seq<char>>,
    pub storage_driver: StorageDriverModel,
    pub mail_mode: MailModeModel,
    pub captcha_provider: CaptchaProviderModel,
    pub app: AppSettingsAppModel,
    pub webauthn: AppSettingsWebauthnModel,
    pub server: AppSettingsServerModel,
    pub activity: AppSettingsActivityModel,
    pub extensions: Seq<ExtensionEntryModel>,
}

impl View for AppSettings {
    type V = AppSettingsModel;

    open spec fn view(&self) -> AppSettingsModel {
        AppSettingsModel {
            telemetry_uuid: self.telemetry_uuid,
            telemetry_cron_schedule: opt_view(self.telemetry_cron_schedule),
            oobe_step: opt_view(self.oobe_step),
            storage_driver: self.storage_driver@,
            mail_mode: self.mail_mode@,
            captcha_provider: self.captcha_provider@,
            app: self.app@,
            webauthn: self.webauthn@,
            server: self.server@,
            activity: self.activity@,
            extensions: self.extensions@.map_values(|e: ExtensionEntry| e@),
        }
    }
}

impl Clone for AppSettings {
    fn clone(&self) -> (r: Self)
        ensures
            r@ == self@,
    {
        let mut extensions: Vec<ExtensionEntry> = Vec::new();
        let n: usize = self.extensions.len();
        let mut i: usize = 0;
        while i < n
            invariant
                n == self.extensions@.len(),
                i <= n,
                extensions@.len() == i,
                forall|j: int| 0 <= j < i ==> #[trigger] extensions@[j]@ == self.extensions@[j]@,
            decreases n - i,
        {
            extensions.push(self.extensions[i].clone());
            i = i + 1;
        }
        let r = AppSettings {
            telemetry_uuid: self.telemetry_uuid,
            telemetry_cron_schedule: opt_clone(&self.telemetry_cron_schedule),
            oobe_step: opt_clone(&self.oobe_step),
            storage_driver: self.storage_driver.clone(),
            mail_mode: self.mail_mode.clone(),
            captcha_provider: self.captcha_provider.clone(),
            app: self.app.clone(),
            webauthn: self.webauthn.clone(),
            server: self.server.clone(),
            activity: self.activity.clone(),
            extensions,
        };
        proof {
            assert(r@.extensions =~= self@.extensions);
        }
        r
    }
}

} // verus!
