//! Known providers and their IMAP/SMTP presets.
use vstd::prelude::*;

use crate::config::{config_problem, MailAccountConfig, MailAccountConfigView, SecurityMode};
use crate::text::{
    ascii_lower, char_vec, is_ascii_text, lower_text, rfind, rfind_char, slice_range,
    string_from_chars, to_lowercase,
};

verus! {

/// Known email provider with preset IMAP/SMTP settings.
#[derive(Debug, Clone, Copy, PartialEq, Eq, Structural)]
pub enum MailProvider {
    QqMail,
    Netease126,
    Netease163,
    ICloud,
    Gmail,
    Outlook,
    Yahoo,
    Zoho,
    ProtonMail,
    Yandex,
    QqExmail,
    AliMail,
    Custom,
}

/// Preset configuration for a known provider.
#[derive(Debug, Clone)]
pub struct ProviderPreset {
    pub provider: MailProvider,
    pub display_name: String,
    pub imap_host: String,
    pub imap_port: u16,
    pub imap_security: SecurityMode,
    pub smtp_host: String,
    pub smtp_port: u16,
    pub smtp_security: SecurityMode,
    /// Instructions for user — how to get app password, enable IMAP, etc.
    pub setup_instructions: Vec<String>,
    /// Whether an app-specific password is needed (most providers do).
    pub requires_app_password: bool,
    /// URL to the provider's app-password or security settings page.
    pub app_password_url: Option<String>,
    /// Domains associated with this provider (for auto-detection).
    pub domains: Vec<String>,
}

pub ghost struct ProviderPresetView {
    pub provider: MailProvider,
    pub display_name: Seq<char>,
    pub imap_host: Seq<char>,
    pub imap_port: u16,
    pub imap_security: SecurityMode,
    pub smtp_host: Seq<char>,
    pub smtp_port: u16,
    pub smtp_security: SecurityMode,
    pub setup_instructions: Seq<Seq<char>>,
    pub requires_app_password: bool,
    pub app_password_url: Option<Seq<char>>,
    pub domains: Seq<Seq<char>>,
}

impl View for ProviderPreset {
    type V = ProviderPresetView;

    open spec fn view(&self) -> ProviderPresetView {
        ProviderPresetView {
            provider: self.provider,
            display_name: self.display_name@,
            imap_host: self.imap_host@,
            imap_port: self.imap_port,
            imap_security: self.imap_security,
            smtp_host: self.smtp_host@,
            smtp_port: self.smtp_port,
            smtp_security: self.smtp_security,
            setup_instructions: self.setup_instructions.deep_view(),
            requires_app_password: self.requires_app_password,
            app_password_url: self.app_password_url.deep_view(),
            domains: self.domains.deep_view(),
        }
    }
}

impl DeepView for ProviderPreset {
    type V = ProviderPresetView;

    open spec fn deep_view(&self) -> ProviderPresetView {
        self.view()
    }
}

/// The preset for QqMail.
pub open spec fn qq_mail_preset() -> ProviderPresetView {
    ProviderPresetView {
        provider: MailProvider::QqMail,
        display_name: "QQ 邮箱"@,
        imap_host: "imap.qq.com"@,
        imap_port: 993,
        imap_security: SecurityMode::Tls,
        smtp_host: "smtp.qq.com"@,
        smtp_port: 465,
        smtp_security: SecurityMode::Tls,
        setup_instructions: seq!["登录 QQ 邮箱网页版 → 设置 → 账户"@, "找到 \"POP3/IMAP/SMTP/Exchange/CardDAV/CalDAV服务\""@, "开启 IMAP/SMTP 服务"@, "按提示发送短信验证，获取授权码"@, "将授权码作为密码填入（不是 QQ 密码）"@],
        requires_app_password: true,
        app_password_url: Some("https://mail.qq.com/"@),
        domains: seq!["qq.com"@, "foxmail.com"@],
    }
}

/// The preset for Netease163.
pub open spec fn netease163_preset() -> ProviderPresetView {
    ProviderPresetView {
        provider: MailProvider::Netease163,
        display_name: "网易 163 邮箱"@,
        imap_host: "imap.163.com"@,
        imap_port: 993,
        imap_security: SecurityMode::Tls,
        smtp_host: "smtp.163.com"@,
        smtp_port: 465,
        smtp_security: SecurityMode::Tls,
        setup_instructions: seq!["登录 163 邮箱网页版 → 设置 → POP3/SMTP/IMAP"@, "开启 IMAP/SMTP 服务"@, "按提示设置授权码（需要绑定手机号）"@, "将授权码作为密码填入（不是邮箱登录密码）"@],
        requires_app_password: true,
        app_password_url: Some("https://mail.163.com/"@),
        domains: seq!["163.com"@],
    }
}

/// The preset for Netease126.
pub open spec fn netease126_preset() -> ProviderPresetView {
    ProviderPresetView {
        provider: MailProvider::Netease126,
        display_name: "网易 126 邮箱"@,
        imap_host: "imap.126.com"@,
        imap_port: 993,
        imap_security: SecurityMode::Tls,
        smtp_host: "smtp.126.com"@,
        smtp_port: 465,
        smtp_security: SecurityMode::Tls,
        setup_instructions: seq!["登录 126 邮箱网页版 → 设置 → POP3/SMTP/IMAP"@, "开启 IMAP/SMTP 服务"@, "按提示设置授权码"@, "将授权码作为密码填入"@],
        requires_app_password: true,
        app_password_url: Some("https://mail.126.com/"@),
        domains: seq!["126.com"@],
    }
}

/// The preset for ICloud.
pub open spec fn i_cloud_preset() -> ProviderPresetView {
    ProviderPresetView {
        provider: MailProvider::ICloud,
        display_name: "iCloud Mail"@,
        imap_host: "imap.mail.me.com"@,
        imap_port: 993,
        imap_security: SecurityMode::Tls,
        smtp_host: "smtp.mail.me.com"@,
        smtp_port: 587,
        smtp_security: SecurityMode::StartTls,
        setup_instructions: seq!["Go to appleid.apple.com → Sign In"@, "Navigate to Sign-In and Security → App-Specific Passwords"@, "Click 'Generate an app-specific password'"@, "Name it 'Tokimo Mail' and click Create"@, "Copy the generated password and use it here"@],
        requires_app_password: true,
        app_password_url: Some("https://appleid.apple.com/account/manage"@),
        domains: seq!["icloud.com"@, "me.com"@, "mac.com"@],
    }
}

/// The preset for Gmail.
pub open spec fn gmail_preset() -> ProviderPresetView {
    ProviderPresetView {
        provider: MailProvider::Gmail,
        display_name: "Gmail"@,
        imap_host: "imap.gmail.com"@,
        imap_port: 993,
        imap_security: SecurityMode::Tls,
        smtp_host: "smtp.gmail.com"@,
        smtp_port: 587,
        smtp_security: SecurityMode::StartTls,
        setup_instructions: seq!["Go to myaccount.google.com → Security"@, "Enable 2-Step Verification if not already on"@, "Go to Security → 2-Step Verification → App passwords"@, "Select 'Mail' and your device, then Generate"@, "Copy the 16-character app password and use it here"@],
        requires_app_password: true,
        app_password_url: Some("https://myaccount.google.com/apppasswords"@),
        domains: seq!["gmail.com"@, "googlemail.com"@],
    }
}

/// The preset for Outlook.
pub open spec fn outlook_preset() -> ProviderPresetView {
    ProviderPresetView {
        provider: MailProvider::Outlook,
        display_name: "Outlook / Hotmail"@,
        imap_host: "outlook.office365.com"@,
        imap_port: 993,
        imap_security: SecurityMode::Tls,
        smtp_host: "smtp.office365.com"@,
        smtp_port: 587,
        smtp_security: SecurityMode::StartTls,
        setup_instructions: seq!["Go to account.microsoft.com → Security"@, "Enable Two-step verification"@, "Go to Security → Advanced security options → App passwords"@, "Create a new app password and use it here"@],
        requires_app_password: true,
        app_password_url: Some("https://account.live.com/proofs/AppPassword"@),
        domains: seq!["outlook.com"@, "hotmail.com"@, "live.com"@, "msn.com"@],
    }
}

/// The preset for Yahoo.
pub open spec fn yahoo_preset() -> ProviderPresetView {
    ProviderPresetView {
        provider: MailProvider::Yahoo,
        display_name: "Yahoo Mail"@,
        imap_host: "imap.mail.yahoo.com"@,
        imap_port: 993,
        imap_security: SecurityMode::Tls,
        smtp_host: "smtp.mail.yahoo.com"@,
        smtp_port: 465,
        smtp_security: SecurityMode::Tls,
        setup_instructions: seq!["Go to login.yahoo.com → Account Security"@, "Enable Two-step verification"@, "Click 'Generate app password'"@, "Select 'Other App', name it 'Tokimo Mail'"@, "Copy the generated password and use it here"@],
        requires_app_password: true,
        app_password_url: Some("https://login.yahoo.com/account/security"@),
        domains: seq!["yahoo.com"@, "yahoo.co.jp"@],
    }
}

/// The preset for Zoho.
pub open spec fn zoho_preset() -> ProviderPresetView {
    ProviderPresetView {
        provider: MailProvider::Zoho,
        display_name: "Zoho Mail"@,
        imap_host: "imap.zoho.com"@,
        imap_port: 993,
        imap_security: SecurityMode::Tls,
        smtp_host: "smtp.zoho.com"@,
        smtp_port: 465,
        smtp_security: SecurityMode::Tls,
        setup_instructions: seq!["Log in to Zoho Mail → Settings → Mail Accounts"@, "Enable IMAP Access under the account"@, "If 2FA is enabled, generate an App-Specific Password"@, "Use the app password or your regular password here"@],
        requires_app_password: false,
        app_password_url: Some("https://accounts.zoho.com/home"@),
        domains: seq!["zoho.com"@, "zohomail.com"@],
    }
}

/// The preset for ProtonMail.
pub open spec fn proton_mail_preset() -> ProviderPresetView {
    ProviderPresetView {
        provider: MailProvider::ProtonMail,
        display_name: "ProtonMail (Bridge)"@,
        imap_host: "127.0.0.1"@,
        imap_port: 1143,
        imap_security: SecurityMode::StartTls,
        smtp_host: "127.0.0.1"@,
        smtp_port: 1025,
        smtp_security: SecurityMode::StartTls,
        setup_instructions: seq!["Install and run Proton Mail Bridge on your machine"@, "Log in to the Bridge with your Proton account"@, "The Bridge will show IMAP/SMTP credentials"@, "Use the Bridge-generated password (not your Proton password)"@, "IMAP/SMTP connect to localhost via the Bridge"@],
        requires_app_password: true,
        app_password_url: Some("https://proton.me/mail/bridge"@),
        domains: seq!["protonmail.com"@, "proton.me"@, "pm.me"@],
    }
}

/// The preset for Yandex.
pub open spec fn yandex_preset() -> ProviderPresetView {
    ProviderPresetView {
        provider: MailProvider::Yandex,
        display_name: "Yandex Mail"@,
        imap_host: "imap.yandex.com"@,
        imap_port: 993,
        imap_security: SecurityMode::Tls,
        smtp_host: "smtp.yandex.com"@,
        smtp_port: 465,
        smtp_security: SecurityMode::Tls,
        setup_instructions: seq!["Go to Yandex Passport → Manage account"@, "Enable IMAP in Yandex Mail settings"@, "Create an app password at id.yandex.com"@, "Use the app password here"@],
        requires_app_password: true,
        app_password_url: Some("https://id.yandex.com/security/app-passwords"@),
        domains: seq!["yandex.com"@, "yandex.ru"@, "ya.ru"@],
    }
}

/// The preset for QqExmail.
pub open spec fn qq_exmail_preset() -> ProviderPresetView {
    ProviderPresetView {
        provider: MailProvider::QqExmail,
        display_name: "腾讯企业邮箱"@,
        imap_host: "imap.exmail.qq.com"@,
        imap_port: 993,
        imap_security: SecurityMode::Tls,
        smtp_host: "smtp.exmail.qq.com"@,
        smtp_port: 465,
        smtp_security: SecurityMode::Tls,
        setup_instructions: seq!["登录腾讯企业邮箱 → 设置 → 客户端设置"@, "开启 IMAP/SMTP 服务"@, "生成客户端专用密码"@, "使用生成的密码填入"@],
        requires_app_password: true,
        app_password_url: Some("https://exmail.qq.com/"@),
        domains: seq![],
    }
}

/// The preset for AliMail.
pub open spec fn ali_mail_preset() -> ProviderPresetView {
    ProviderPresetView {
        provider: MailProvider::AliMail,
        display_name: "阿里企业邮箱"@,
        imap_host: "imap.mxhichina.com"@,
        imap_port: 993,
        imap_security: SecurityMode::Tls,
        smtp_host: "smtp.mxhichina.com"@,
        smtp_port: 465,
        smtp_security: SecurityMode::Tls,
        setup_instructions: seq!["登录阿里企业邮箱 → 设置 → 客户端设置"@, "确保 IMAP 协议已开启"@, "使用邮箱登录密码即可"@],
        requires_app_password: false,
        app_password_url: Some("https://qiye.aliyun.com/"@),
        domains: seq![],
    }
}

/// All known provider presets, in the order `all_provider_presets` returns them.
pub open spec fn provider_presets() -> Seq<ProviderPresetView> {
    seq![qq_mail_preset(), netease163_preset(), netease126_preset(), i_cloud_preset(), gmail_preset(), outlook_preset(), yahoo_preset(), zoho_preset(), proton_mail_preset(), yandex_preset(), qq_exmail_preset(), ali_mail_preset()]
}

/// A vector of strings built from literals.
fn strings(lits: &[&str]) -> (res: Vec<String>)
    ensures
        res.deep_view() == lits@.map_values(|s: &str| s@),
{
    let mut res: Vec<String> = Vec::new();
    for i in 0..lits.len()
        invariant
            res.deep_view() == lits@.take(i as int).map_values(|s: &str| s@),
    {
        res.push(String::from_str(lits[i]));
        assert(lits@.take(i + 1).map_values(|s: &str| s@) =~= lits@.take(i as int).map_values(
            |s: &str| s@,
        ).push(lits@[i as int]@));
        assert(res.deep_view() =~= lits@.take(i + 1).map_values(|s: &str| s@));
    }
    assert(lits@.take(lits@.len() as int) =~= lits@);
    res
}

fn make_qq_mail_preset() -> (res: ProviderPreset)
    ensures
        res@ == qq_mail_preset(),
{
    let instructions: [&str; 5] = ["登录 QQ 邮箱网页版 → 设置 → 账户", "找到 \"POP3/IMAP/SMTP/Exchange/CardDAV/CalDAV服务\"", "开启 IMAP/SMTP 服务", "按提示发送短信验证，获取授权码", "将授权码作为密码填入（不是 QQ 密码）"];
    let domains: [&str; 2] = ["qq.com", "foxmail.com"];
    let res = ProviderPreset {
        provider: MailProvider::QqMail,
        display_name: String::from_str("QQ 邮箱"),
        imap_host: String::from_str("imap.qq.com"),
        imap_port: 993,
        imap_security: SecurityMode::Tls,
        smtp_host: String::from_str("smtp.qq.com"),
        smtp_port: 465,
        smtp_security: SecurityMode::Tls,
        setup_instructions: strings(&instructions),
        requires_app_password: true,
        app_password_url: Some(String::from_str("https://mail.qq.com/")),
        domains: strings(&domains),
    };
    assert(res.setup_instructions.deep_view() =~= qq_mail_preset().setup_instructions);
    assert(res.domains.deep_view() =~= qq_mail_preset().domains);
    res
}

fn make_netease163_preset() -> (res: ProviderPreset)
    ensures
        res@ == netease163_preset(),
{
    let instructions: [&str; 4] = ["登录 163 邮箱网页版 → 设置 → POP3/SMTP/IMAP", "开启 IMAP/SMTP 服务", "按提示设置授权码（需要绑定手机号）", "将授权码作为密码填入（不是邮箱登录密码）"];
    let domains: [&str; 1] = ["163.com"];
    let res = ProviderPreset {
        provider: MailProvider::Netease163,
        display_name: String::from_str("网易 163 邮箱"),
        imap_host: String::from_str("imap.163.com"),
        imap_port: 993,
        imap_security: SecurityMode::Tls,
        smtp_host: String::from_str("smtp.163.com"),
        smtp_port: 465,
        smtp_security: SecurityMode::Tls,
        setup_instructions: strings(&instructions),
        requires_app_password: true,
        app_password_url: Some(String::from_str("https://mail.163.com/")),
        domains: strings(&domains),
    };
    assert(res.setup_instructions.deep_view() =~= netease163_preset().setup_instructions);
    assert(res.domains.deep_view() =~= netease163_preset().domains);
    res
}

fn make_netease126_preset() -> (res: ProviderPreset)
    ensures
        res@ == netease126_preset(),
{
    let instructions: [&str; 4] = ["登录 126 邮箱网页版 → 设置 → POP3/SMTP/IMAP", "开启 IMAP/SMTP 服务", "按提示设置授权码", "将授权码作为密码填入"];
    let domains: [&str; 1] = ["126.com"];
    let res = ProviderPreset {
        provider: MailProvider::Netease126,
        display_name: String::from_str("网易 126 邮箱"),
        imap_host: String::from_str("imap.126.com"),
        imap_port: 993,
        imap_security: SecurityMode::Tls,
        smtp_host: String::from_str("smtp.126.com"),
        smtp_port: 465,
        smtp_security: SecurityMode::Tls,
        setup_instructions: strings(&instructions),
        requires_app_password: true,
        app_password_url: Some(String::from_str("https://mail.126.com/")),
        domains: strings(&domains),
    };
    assert(res.setup_instructions.deep_view() =~= netease126_preset().setup_instructions);
    assert(res.domains.deep_view() =~= netease126_preset().domains);
    res
}

fn make_i_cloud_preset() -> (res: ProviderPreset)
    ensures
        res@ == i_cloud_preset(),
{
    let instructions: [&str; 5] = ["Go to appleid.apple.com → Sign In", "Navigate to Sign-In and Security → App-Specific Passwords", "Click 'Generate an app-specific password'", "Name it 'Tokimo Mail' and click Create", "Copy the generated password and use it here"];
    let domains: [&str; 3] = ["icloud.com", "me.com", "mac.com"];
    let res = ProviderPreset {
        provider: MailProvider::ICloud,
        display_name: String::from_str("iCloud Mail"),
        imap_host: String::from_str("imap.mail.me.com"),
        imap_port: 993,
        imap_security: SecurityMode::Tls,
        smtp_host: String::from_str("smtp.mail.me.com"),
        smtp_port: 587,
        smtp_security: SecurityMode::StartTls,
        setup_instructions: strings(&instructions),
        requires_app_password: true,
        app_password_url: Some(String::from_str("https://appleid.apple.com/account/manage")),
        domains: strings(&domains),
    };
    assert(res.setup_instructions.deep_view() =~= i_cloud_preset().setup_instructions);
    assert(res.domains.deep_view() =~= i_cloud_preset().domains);
    res
}

fn make_gmail_preset() -> (res: ProviderPreset)
    ensures
        res@ == gmail_preset(),
{
    let instructions: [&str; 5] = ["Go to myaccount.google.com → Security", "Enable 2-Step Verification if not already on", "Go to Security → 2-Step Verification → App passwords", "Select 'Mail' and your device, then Generate", "Copy the 16-character app password and use it here"];
    let domains: [&str; 2] = ["gmail.com", "googlemail.com"];
    let res = ProviderPreset {
        provider: MailProvider::Gmail,
        display_name: String::from_str("Gmail"),
        imap_host: String::from_str("imap.gmail.com"),
        imap_port: 993,
        imap_security: SecurityMode::Tls,
        smtp_host: String::from_str("smtp.gmail.com"),
        smtp_port: 587,
        smtp_security: SecurityMode::StartTls,
        setup_instructions: strings(&instructions),
        requires_app_password: true,
        app_password_url: Some(String::from_str("https://myaccount.google.com/apppasswords")),
        domains: strings(&domains),
    };
    assert(res.setup_instructions.deep_view() =~= gmail_preset().setup_instructions);
    assert(res.domains.deep_view() =~= gmail_preset().domains);
    res
}

fn make_outlook_preset() -> (res: ProviderPreset)
    ensures
        res@ == outlook_preset(),
{
    let instructions: [&str; 4] = ["Go to account.microsoft.com → Security", "Enable Two-step verification", "Go to Security → Advanced security options → App passwords", "Create a new app password and use it here"];
    let domains: [&str; 4] = ["outlook.com", "hotmail.com", "live.com", "msn.com"];
    let res = ProviderPreset {
        provider: MailProvider::Outlook,
        display_name: String::from_str("Outlook / Hotmail"),
        imap_host: String::from_str("outlook.office365.com"),
        imap_port: 993,
        imap_security: SecurityMode::Tls,
        smtp_host: String::from_str("smtp.office365.com"),
        smtp_port: 587,
        smtp_security: SecurityMode::StartTls,
        setup_instructions: strings(&instructions),
        requires_app_password: true,
        app_password_url: Some(String::from_str("https://account.live.com/proofs/AppPassword")),
        domains: strings(&domains),
    };
    assert(res.setup_instructions.deep_view() =~= outlook_preset().setup_instructions);
    assert(res.domains.deep_view() =~= outlook_preset().domains);
    res
}

fn make_yahoo_preset() -> (res: ProviderPreset)
    ensures
        res@ == yahoo_preset(),
{
    let instructions: [&str; 5] = ["Go to login.yahoo.com → Account Security", "Enable Two-step verification", "Click 'Generate app password'", "Select 'Other App', name it 'Tokimo Mail'", "Copy the generated password and use it here"];
    let domains: [&str; 2] = ["yahoo.com", "yahoo.co.jp"];
    let res = ProviderPreset {
        provider: MailProvider::Yahoo,
        display_name: String::from_str("Yahoo Mail"),
        imap_host: String::from_str("imap.mail.yahoo.com"),
        imap_port: 993,
        imap_security: SecurityMode::Tls,
        smtp_host: String::from_str("smtp.mail.yahoo.com"),
        smtp_port: 465,
        smtp_security: SecurityMode::Tls,
        setup_instructions: strings(&instructions),
        requires_app_password: true,
        app_password_url: Some(String::from_str("https://login.yahoo.com/account/security")),
        domains: strings(&domains),
    };
    assert(res.setup_instructions.deep_view() =~= yahoo_preset().setup_instructions);
    assert(res.domains.deep_view() =~= yahoo_preset().domains);
    res
}

fn make_zoho_preset() -> (res: ProviderPreset)
    ensures
        res@ == zoho_preset(),
{
    let instructions: [&str; 4] = ["Log in to Zoho Mail → Settings → Mail Accounts", "Enable IMAP Access under the account", "If 2FA is enabled, generate an App-Specific Password", "Use the app password or your regular password here"];
    let domains: [&str; 2] = ["zoho.com", "zohomail.com"];
    let res = ProviderPreset {
        provider: MailProvider::Zoho,
        display_name: String::from_str("Zoho Mail"),
        imap_host: String::from_str("imap.zoho.com"),
        imap_port: 993,
        imap_security: SecurityMode::Tls,
        smtp_host: String::from_str("smtp.zoho.com"),
        smtp_port: 465,
        smtp_security: SecurityMode::Tls,
        setup_instructions: strings(&instructions),
        requires_app_password: false,
        app_password_url: Some(String::from_str("https://accounts.zoho.com/home")),
        domains: strings(&domains),
    };
    assert(res.setup_instructions.deep_view() =~= zoho_preset().setup_instructions);
    assert(res.domains.deep_view() =~= zoho_preset().domains);
    res
}

fn make_proton_mail_preset() -> (res: ProviderPreset)
    ensures
        res@ == proton_mail_preset(),
{
    let instructions: [&str; 5] = ["Install and run Proton Mail Bridge on your machine", "Log in to the Bridge with your Proton account", "The Bridge will show IMAP/SMTP credentials", "Use the Bridge-generated password (not your Proton password)", "IMAP/SMTP connect to localhost via the Bridge"];
    let domains: [&str; 3] = ["protonmail.com", "proton.me", "pm.me"];
    let res = ProviderPreset {
        provider: MailProvider::ProtonMail,
        display_name: String::from_str("ProtonMail (Bridge)"),
        imap_host: String::from_str("127.0.0.1"),
        imap_port: 1143,
        imap_security: SecurityMode::StartTls,
        smtp_host: String::from_str("127.0.0.1"),
        smtp_port: 1025,
        smtp_security: SecurityMode::StartTls,
        setup_instructions: strings(&instructions),
        requires_app_password: true,
        app_password_url: Some(String::from_str("https://proton.me/mail/bridge")),
        domains: strings(&domains),
    };
    assert(res.setup_instructions.deep_view() =~= proton_mail_preset().setup_instructions);
    assert(res.domains.deep_view() =~= proton_mail_preset().domains);
    res
}

fn make_yandex_preset() -> (res: ProviderPreset)
    ensures
        res@ == yandex_preset(),
{
    let instructions: [&str; 4] = ["Go to Yandex Passport → Manage account", "Enable IMAP in Yandex Mail settings", "Create an app password at id.yandex.com", "Use the app password here"];
    let domains: [&str; 3] = ["yandex.com", "yandex.ru", "ya.ru"];
    let res = ProviderPreset {
        provider: MailProvider::Yandex,
        display_name: String::from_str("Yandex Mail"),
        imap_host: String::from_str("imap.yandex.com"),
        imap_port: 993,
        imap_security: SecurityMode::Tls,
        smtp_host: String::from_str("smtp.yandex.com"),
        smtp_port: 465,
        smtp_security: SecurityMode::Tls,
        setup_instructions: strings(&instructions),
        requires_app_password: true,
        app_password_url: Some(String::from_str("https://id.yandex.com/security/app-passwords")),
        domains: strings(&domains),
    };
    assert(res.setup_instructions.deep_view() =~= yandex_preset().setup_instructions);
    assert(res.domains.deep_view() =~= yandex_preset().domains);
    res
}

fn make_qq_exmail_preset() -> (res: ProviderPreset)
    ensures
        res@ == qq_exmail_preset(),
{
    let instructions: [&str; 4] = ["登录腾讯企业邮箱 → 设置 → 客户端设置", "开启 IMAP/SMTP 服务", "生成客户端专用密码", "使用生成的密码填入"];
    let domains: [&str; 0] = [];
    let res = ProviderPreset {
        provider: MailProvider::QqExmail,
        display_name: String::from_str("腾讯企业邮箱"),
        imap_host: String::from_str("imap.exmail.qq.com"),
        imap_port: 993,
        imap_security: SecurityMode::Tls,
        smtp_host: String::from_str("smtp.exmail.qq.com"),
        smtp_port: 465,
        smtp_security: SecurityMode::Tls,
        setup_instructions: strings(&instructions),
        requires_app_password: true,
        app_password_url: Some(String::from_str("https://exmail.qq.com/")),
        domains: strings(&domains),
    };
    assert(res.setup_instructions.deep_view() =~= qq_exmail_preset().setup_instructions);
    assert(res.domains.deep_view() =~= qq_exmail_preset().domains);
    res
}

fn make_ali_mail_preset() -> (res: ProviderPreset)
    ensures
        res@ == ali_mail_preset(),
{
    let instructions: [&str; 3] = ["登录阿里企业邮箱 → 设置 → 客户端设置", "确保 IMAP 协议已开启", "使用邮箱登录密码即可"];
    let domains: [&str; 0] = [];
    let res = ProviderPreset {
        provider: MailProvider::AliMail,
        display_name: String::from_str("阿里企业邮箱"),
        imap_host: String::from_str("imap.mxhichina.com"),
        imap_port: 993,
        imap_security: SecurityMode::Tls,
        smtp_host: String::from_str("smtp.mxhichina.com"),
        smtp_port: 465,
        smtp_security: SecurityMode::Tls,
        setup_instructions: strings(&instructions),
        requires_app_password: false,
        app_password_url: Some(String::from_str("https://qiye.aliyun.com/")),
        domains: strings(&domains),
    };
    assert(res.setup_instructions.deep_view() =~= ali_mail_preset().setup_instructions);
    assert(res.domains.deep_view() =~= ali_mail_preset().domains);
    res
}

/// Get all known provider presets.
pub fn all_provider_presets() -> (res: Vec<ProviderPreset>)
    ensures
        res.deep_view() == provider_presets(),
        res@.len() == 12,
        forall|i: int|
            0 <= i < res@.len() ==> preset_servers(#[trigger] res@[i]@) == provider_servers(
                res@[i].provider,
            ),
{
    let mut res: Vec<ProviderPreset> = Vec::new();
    res.push(make_qq_mail_preset());
    res.push(make_netease163_preset());
    res.push(make_netease126_preset());
    res.push(make_i_cloud_preset());
    res.push(make_gmail_preset());
    res.push(make_outlook_preset());
    res.push(make_yahoo_preset());
    res.push(make_zoho_preset());
    res.push(make_proton_mail_preset());
    res.push(make_yandex_preset());
    res.push(make_qq_exmail_preset());
    res.push(make_ali_mail_preset());
    assert(res.deep_view() =~= provider_presets());
    proof {
        assert forall|i: int| 0 <= i < res@.len() implies preset_servers(#[trigger] res@[i]@)
            == provider_servers(res@[i].provider) by {
            assert(res@[i]@ == provider_presets()[i]);
            lemma_preset_servers(i);
        }
    }
    res
}


/// The part of an email address after its last `@` (the whole text when it
/// holds no `@`).
pub open spec fn domain_part(email: Seq<char>) -> Seq<char> {
    match rfind_char(email, '@') {
        Some(i) => email.skip(i + 1 as int),
        None => email,
    }
}

/// The first preset of `presets` whose domains include `domain`.
pub open spec fn first_preset_for(presets: Seq<ProviderPresetView>, domain: Seq<char>) -> Option<
    ProviderPresetView,
>
    decreases presets.len(),
{
    if presets.len() == 0 {
        None
    } else if presets[0].domains.contains(domain) {
        Some(presets[0])
    } else {
        first_preset_for(presets.drop_first(), domain)
    }
}

proof fn lemma_first_preset_for(presets: Seq<ProviderPresetView>, domain: Seq<char>, i: int)
    requires
        0 <= i <= presets.len(),
        forall|k: int| 0 <= k < i ==> !(#[trigger] presets[k]).domains.contains(domain),
        i == presets.len() || presets[i].domains.contains(domain),
    ensures
        first_preset_for(presets, domain) == (if i < presets.len() {
            Some(presets[i])
        } else {
            None::<ProviderPresetView>
        }),
    decreases i,
{
    if i > 0 {
        let t = presets.drop_first();
        assert forall|k: int| 0 <= k < i - 1 implies !(#[trigger] t[k]).domains.contains(domain) by {
            assert(t[k] == presets[k + 1]);
        }
        if i - 1 < t.len() {
            assert(t[i - 1] == presets[i]);
        }
        assert(!presets[0].domains.contains(domain));
        lemma_first_preset_for(t, domain, i - 1);
    }
}

/// Whether one of `domains` is equal to `domain`.
fn lists_domain(domains: &Vec<String>, domain: &String) -> (b: bool)
    ensures
        b == domains.deep_view().contains(domain@),
{
    let mut j: usize = 0;
    while j < domains.len()
        invariant
            j <= domains@.len(),
            forall|k: int| 0 <= k < j ==> domains.deep_view()[k] != domain@,
        decreases domains@.len() - j,
    {
        if domains[j] == *domain {
            assert(domains.deep_view()[j as int] == domain@);
            return true;
        }
        j = j + 1;
    }
    proof {
        if domains.deep_view().contains(domain@) {
            let k = choose|k: int| 0 <= k < domains.deep_view().len() && domains.deep_view()[k]
                == domain@;
            assert(domains.deep_view()[k] != domain@);
        }
    }
    false
}

/// The first known preset whose domains include `domain` exactly.
pub fn preset_for_domain(domain: &str) -> (res: Option<ProviderPreset>)
    ensures
        res.deep_view() == first_preset_for(provider_presets(), domain@),
{
    let wanted = String::from_str(domain);
    let mut presets = all_provider_presets();
    let ghost ps = provider_presets();
    let mut i: usize = 0;
    while i < presets.len()
        invariant
            presets.deep_view() == ps,
            ps == provider_presets(),
            i <= ps.len(),
            forall|k: int| 0 <= k < i ==> !(#[trigger] ps[k]).domains.contains(domain@),
            wanted@ == domain@,
        decreases ps.len() - i,
    {
        assert(presets.deep_view()[i as int] == presets@[i as int]@);
        if lists_domain(&presets[i].domains, &wanted) {
            proof {
                lemma_first_preset_for(ps, domain@, i as int);
            }
            let ghost before = presets@;
            let p = presets.remove(i);
            assert(p == before[i as int]);
            assert(p.deep_view() == ps[i as int]);
            return Some(p);
        }
        i = i + 1;
    }
    proof {
        lemma_first_preset_for(ps, domain@, i as int);
    }
    None
}

/// Try to detect provider from email domain: the domain (after the last
/// `@`) is lower-cased and looked up in the known presets.
pub fn detect_provider(email: &str) -> (res: Option<ProviderPreset>)
    ensures
        res.deep_view() == first_preset_for(provider_presets(), lower_text(domain_part(email@))),
{
    let cs = char_vec(email);
    let n = cs.len();
    let part = match rfind(cs.as_slice(), '@') {
        Some(i) => {
            assert(i < n);
            slice_range(cs.as_slice(), i + 1, n)
        },
        None => cs,
    };
    let domain = string_from_chars(part.as_slice());
    assert(domain@ =~= domain_part(email@));
    let lower = to_lowercase(domain.as_str());
    preset_for_domain(lower.as_str())
}

/// The account configuration that `config_from_preset` builds.
pub open spec fn config_from_preset_spec(
    preset: ProviderPresetView,
    email: Seq<char>,
    password: Seq<char>,
    display_name: Option<Seq<char>>,
) -> MailAccountConfigView {
    MailAccountConfigView {
        display_name: match display_name {
            Some(n) => n,
            None => preset.display_name,
        },
        email: email,
        imap_host: preset.imap_host,
        imap_port: preset.imap_port,
        imap_security: preset.imap_security,
        imap_username: email,
        imap_password: password,
        smtp_host: preset.smtp_host,
        smtp_port: preset.smtp_port,
        smtp_security: preset.smtp_security,
        smtp_username: email,
        smtp_password: password,
        sender_name: display_name,
    }
}

/// Build a `MailAccountConfig` from a preset + user credentials.
pub fn config_from_preset(
    preset: &ProviderPreset,
    email: &str,
    password: &str,
    display_name: Option<&str>,
) -> (res: MailAccountConfig)
    ensures
        res@ == config_from_preset_spec(preset@, email@, password@, display_name.deep_view()),
{
    MailAccountConfig {
        display_name: match display_name {
            Some(n) => String::from_str(n),
            None => preset.display_name.clone(),
        },
        email: String::from_str(email),
        imap_host: preset.imap_host.clone(),
        imap_port: preset.imap_port,
        imap_security: preset.imap_security,
        imap_username: String::from_str(email),
        imap_password: String::from_str(password),
        smtp_host: preset.smtp_host.clone(),
        smtp_port: preset.smtp_port,
        smtp_security: preset.smtp_security,
        smtp_username: String::from_str(email),
        smtp_password: String::from_str(password),
        sender_name: match display_name {
            Some(n) => Some(String::from_str(n)),
            None => None,
        },
    }
}

/// Every known preset names an IMAP host and an SMTP host.
proof fn lemma_preset_hosts_set(i: int)
    requires
        0 <= i < provider_presets().len(),
    ensures
        provider_presets()[i].imap_host.len() > 0,
        provider_presets()[i].smtp_host.len() > 0,
{
    reveal_strlit("127.0.0.1");
    reveal_strlit("imap.126.com");
    reveal_strlit("imap.163.com");
    reveal_strlit("imap.exmail.qq.com");
    reveal_strlit("imap.gmail.com");
    reveal_strlit("imap.mail.me.com");
    reveal_strlit("imap.mail.yahoo.com");
    reveal_strlit("imap.mxhichina.com");
    reveal_strlit("imap.qq.com");
    reveal_strlit("imap.yandex.com");
    reveal_strlit("imap.zoho.com");
    reveal_strlit("outlook.office365.com");
    reveal_strlit("smtp.126.com");
    reveal_strlit("smtp.163.com");
    reveal_strlit("smtp.exmail.qq.com");
    reveal_strlit("smtp.gmail.com");
    reveal_strlit("smtp.mail.me.com");
    reveal_strlit("smtp.mail.yahoo.com");
    reveal_strlit("smtp.mxhichina.com");
    reveal_strlit("smtp.office365.com");
    reveal_strlit("smtp.qq.com");
    reveal_strlit("smtp.yandex.com");
    reveal_strlit("smtp.zoho.com");
}

/// A configuration built from a known preset passes `validate` exactly when
/// the email address is not empty; otherwise the email is what it reports.
pub proof fn lemma_preset_config_validates(
    i: int,
    email: Seq<char>,
    password: Seq<char>,
    display_name: Option<Seq<char>>,
)
    requires
        0 <= i < provider_presets().len(),
    ensures
        config_problem(config_from_preset_spec(provider_presets()[i], email, password, display_name))
            == (if email.len() == 0 {
            Some("Email address is required"@)
        } else {
            None
        }),
{
    lemma_preset_hosts_set(i);
}

/// The preset found for a domain is the first known preset that lists it;
/// none is found exactly when no preset lists it.
pub proof fn lemma_first_preset_for_lists(presets: Seq<ProviderPresetView>, domain: Seq<char>)
    ensures
        match first_preset_for(presets, domain) {
            Some(p) => exists|i: int|
                0 <= i < presets.len() && presets[i] == p && p.domains.contains(domain) && forall|
                    k: int,
                | 0 <= k < i ==> !(#[trigger] presets[k]).domains.contains(domain),
            None => forall|k: int|
                0 <= k < presets.len() ==> !(#[trigger] presets[k]).domains.contains(domain),
        },
    decreases presets.len(),
{
    if presets.len() > 0 {
        let t = presets.drop_first();
        lemma_first_preset_for_lists(t, domain);
        if !presets[0].domains.contains(domain) {
            match first_preset_for(t, domain) {
                Some(p) => {
                    let j = choose|j: int|
                        0 <= j < t.len() && t[j] == p && p.domains.contains(domain) && forall|
                            k: int,
                        | 0 <= k < j ==> !(#[trigger] t[k]).domains.contains(domain);
                    assert(presets[j + 1] == p);
                    assert forall|k: int| 0 <= k < j + 1 implies !(
                    #[trigger] presets[k]).domains.contains(domain) by {
                        if k > 0 {
                            assert(presets[k] == t[k - 1]);
                        }
                    }
                },
                None => {
                    assert forall|k: int| 0 <= k < presets.len() implies !(
                    #[trigger] presets[k]).domains.contains(domain) by {
                        if k > 0 {
                            assert(presets[k] == t[k - 1]);
                        }
                    }
                },
            }
        }
    }
}

/// The preset that lists a domain (-1 for none).
spec fn domain_owner(d: Seq<char>) -> int {
    if d == "qq.com"@ {
        0
    } else if d == "foxmail.com"@ {
        0
    } else if d == "163.com"@ {
        1
    } else if d == "126.com"@ {
        2
    } else if d == "icloud.com"@ {
        3
    } else if d == "me.com"@ {
        3
    } else if d == "mac.com"@ {
        3
    } else if d == "gmail.com"@ {
        4
    } else if d == "googlemail.com"@ {
        4
    } else if d == "outlook.com"@ {
        5
    } else if d == "hotmail.com"@ {
        5
    } else if d == "live.com"@ {
        5
    } else if d == "msn.com"@ {
        5
    } else if d == "yahoo.com"@ {
        6
    } else if d == "yahoo.co.jp"@ {
        6
    } else if d == "zoho.com"@ {
        7
    } else if d == "zohomail.com"@ {
        7
    } else if d == "protonmail.com"@ {
        8
    } else if d == "proton.me"@ {
        8
    } else if d == "pm.me"@ {
        8
    } else if d == "yandex.com"@ {
        9
    } else if d == "yandex.ru"@ {
        9
    } else if d == "ya.ru"@ {
        9
    } else {
        -1
    }
}

proof fn lemma_domain_literals_distinct()
    ensures
        "qq.com"@ != "foxmail.com"@,
        "qq.com"@ != "163.com"@,
        "qq.com"@ != "126.com"@,
        "qq.com"@ != "icloud.com"@,
        "qq.com"@ != "me.com"@,
        "qq.com"@ != "mac.com"@,
        "qq.com"@ != "gmail.com"@,
        "qq.com"@ != "googlemail.com"@,
        "qq.com"@ != "outlook.com"@,
        "qq.com"@ != "hotmail.com"@,
        "qq.com"@ != "live.com"@,
        "qq.com"@ != "msn.com"@,
        "qq.com"@ != "yahoo.com"@,
        "qq.com"@ != "yahoo.co.jp"@,
        "qq.com"@ != "zoho.com"@,
        "qq.com"@ != "zohomail.com"@,
        "qq.com"@ != "protonmail.com"@,
        "qq.com"@ != "proton.me"@,
        "qq.com"@ != "pm.me"@,
        "qq.com"@ != "yandex.com"@,
        "qq.com"@ != "yandex.ru"@,
        "qq.com"@ != "ya.ru"@,
        "foxmail.com"@ != "163.com"@,
        "foxmail.com"@ != "126.com"@,
        "foxmail.com"@ != "icloud.com"@,
        "foxmail.com"@ != "me.com"@,
        "foxmail.com"@ != "mac.com"@,
        "foxmail.com"@ != "gmail.com"@,
        "foxmail.com"@ != "googlemail.com"@,
        "foxmail.com"@ != "outlook.com"@,
        "foxmail.com"@ != "hotmail.com"@,
        "foxmail.com"@ != "live.com"@,
        "foxmail.com"@ != "msn.com"@,
        "foxmail.com"@ != "yahoo.com"@,
        "foxmail.com"@ != "yahoo.co.jp"@,
        "foxmail.com"@ != "zoho.com"@,
        "foxmail.com"@ != "zohomail.com"@,
        "foxmail.com"@ != "protonmail.com"@,
        "foxmail.com"@ != "proton.me"@,
        "foxmail.com"@ != "pm.me"@,
        "foxmail.com"@ != "yandex.com"@,
        "foxmail.com"@ != "yandex.ru"@,
        "foxmail.com"@ != "ya.ru"@,
        "163.com"@ != "126.com"@,
        "163.com"@ != "icloud.com"@,
        "163.com"@ != "me.com"@,
        "163.com"@ != "mac.com"@,
        "163.com"@ != "gmail.com"@,
        "163.com"@ != "googlemail.com"@,
        "163.com"@ != "outlook.com"@,
        "163.com"@ != "hotmail.com"@,
        "163.com"@ != "live.com"@,
        "163.com"@ != "msn.com"@,
        "163.com"@ != "yahoo.com"@,
        "163.com"@ != "yahoo.co.jp"@,
        "163.com"@ != "zoho.com"@,
        "163.com"@ != "zohomail.com"@,
        "163.com"@ != "protonmail.com"@,
        "163.com"@ != "proton.me"@,
        "163.com"@ != "pm.me"@,
        "163.com"@ != "yandex.com"@,
        "163.com"@ != "yandex.ru"@,
        "163.com"@ != "ya.ru"@,
        "126.com"@ != "icloud.com"@,
        "126.com"@ != "me.com"@,
        "126.com"@ != "mac.com"@,
        "126.com"@ != "gmail.com"@,
        "126.com"@ != "googlemail.com"@,
        "126.com"@ != "outlook.com"@,
        "126.com"@ != "hotmail.com"@,
        "126.com"@ != "live.com"@,
        "126.com"@ != "msn.com"@,
        "126.com"@ != "yahoo.com"@,
        "126.com"@ != "yahoo.co.jp"@,
        "126.com"@ != "zoho.com"@,
        "126.com"@ != "zohomail.com"@,
        "126.com"@ != "protonmail.com"@,
        "126.com"@ != "proton.me"@,
        "126.com"@ != "pm.me"@,
        "126.com"@ != "yandex.com"@,
        "126.com"@ != "yandex.ru"@,
        "126.com"@ != "ya.ru"@,
        "icloud.com"@ != "me.com"@,
        "icloud.com"@ != "mac.com"@,
        "icloud.com"@ != "gmail.com"@,
        "icloud.com"@ != "googlemail.com"@,
        "icloud.com"@ != "outlook.com"@,
        "icloud.com"@ != "hotmail.com"@,
        "icloud.com"@ != "live.com"@,
        "icloud.com"@ != "msn.com"@,
        "icloud.com"@ != "yahoo.com"@,
        "icloud.com"@ != "yahoo.co.jp"@,
        "icloud.com"@ != "zoho.com"@,
        "icloud.com"@ != "zohomail.com"@,
        "icloud.com"@ != "protonmail.com"@,
        "icloud.com"@ != "proton.me"@,
        "icloud.com"@ != "pm.me"@,
        "icloud.com"@ != "yandex.com"@,
        "icloud.com"@ != "yandex.ru"@,
        "icloud.com"@ != "ya.ru"@,
        "me.com"@ != "mac.com"@,
        "me.com"@ != "gmail.com"@,
        "me.com"@ != "googlemail.com"@,
        "me.com"@ != "outlook.com"@,
        "me.com"@ != "hotmail.com"@,
        "me.com"@ != "live.com"@,
        "me.com"@ != "msn.com"@,
        "me.com"@ != "yahoo.com"@,
        "me.com"@ != "yahoo.co.jp"@,
        "me.com"@ != "zoho.com"@,
        "me.com"@ != "zohomail.com"@,
        "me.com"@ != "protonmail.com"@,
        "me.com"@ != "proton.me"@,
        "me.com"@ != "pm.me"@,
        "me.com"@ != "yandex.com"@,
        "me.com"@ != "yandex.ru"@,
        "me.com"@ != "ya.ru"@,
        "mac.com"@ != "gmail.com"@,
        "mac.com"@ != "googlemail.com"@,
        "mac.com"@ != "outlook.com"@,
        "mac.com"@ != "hotmail.com"@,
        "mac.com"@ != "live.com"@,
        "mac.com"@ != "msn.com"@,
        "mac.com"@ != "yahoo.com"@,
        "mac.com"@ != "yahoo.co.jp"@,
        "mac.com"@ != "zoho.com"@,
        "mac.com"@ != "zohomail.com"@,
        "mac.com"@ != "protonmail.com"@,
        "mac.com"@ != "proton.me"@,
        "mac.com"@ != "pm.me"@,
        "mac.com"@ != "yandex.com"@,
        "mac.com"@ != "yandex.ru"@,
        "mac.com"@ != "ya.ru"@,
        "gmail.com"@ != "googlemail.com"@,
        "gmail.com"@ != "outlook.com"@,
        "gmail.com"@ != "hotmail.com"@,
        "gmail.com"@ != "live.com"@,
        "gmail.com"@ != "msn.com"@,
        "gmail.com"@ != "yahoo.com"@,
        "gmail.com"@ != "yahoo.co.jp"@,
        "gmail.com"@ != "zoho.com"@,
        "gmail.com"@ != "zohomail.com"@,
        "gmail.com"@ != "protonmail.com"@,
        "gmail.com"@ != "proton.me"@,
        "gmail.com"@ != "pm.me"@,
        "gmail.com"@ != "yandex.com"@,
        "gmail.com"@ != "yandex.ru"@,
        "gmail.com"@ != "ya.ru"@,
        "googlemail.com"@ != "outlook.com"@,
        "googlemail.com"@ != "hotmail.com"@,
        "googlemail.com"@ != "live.com"@,
        "googlemail.com"@ != "msn.com"@,
        "googlemail.com"@ != "yahoo.com"@,
        "googlemail.com"@ != "yahoo.co.jp"@,
        "googlemail.com"@ != "zoho.com"@,
        "googlemail.com"@ != "zohomail.com"@,
        "googlemail.com"@ != "protonmail.com"@,
        "googlemail.com"@ != "proton.me"@,
        "googlemail.com"@ != "pm.me"@,
        "googlemail.com"@ != "yandex.com"@,
        "googlemail.com"@ != "yandex.ru"@,
        "googlemail.com"@ != "ya.ru"@,
        "outlook.com"@ != "hotmail.com"@,
        "outlook.com"@ != "live.com"@,
        "outlook.com"@ != "msn.com"@,
        "outlook.com"@ != "yahoo.com"@,
        "outlook.com"@ != "yahoo.co.jp"@,
        "outlook.com"@ != "zoho.com"@,
        "outlook.com"@ != "zohomail.com"@,
        "outlook.com"@ != "protonmail.com"@,
        "outlook.com"@ != "proton.me"@,
        "outlook.com"@ != "pm.me"@,
        "outlook.com"@ != "yandex.com"@,
        "outlook.com"@ != "yandex.ru"@,
        "outlook.com"@ != "ya.ru"@,
        "hotmail.com"@ != "live.com"@,
        "hotmail.com"@ != "msn.com"@,
        "hotmail.com"@ != "yahoo.com"@,
        "hotmail.com"@ != "yahoo.co.jp"@,
        "hotmail.com"@ != "zoho.com"@,
        "hotmail.com"@ != "zohomail.com"@,
        "hotmail.com"@ != "protonmail.com"@,
        "hotmail.com"@ != "proton.me"@,
        "hotmail.com"@ != "pm.me"@,
        "hotmail.com"@ != "yandex.com"@,
        "hotmail.com"@ != "yandex.ru"@,
        "hotmail.com"@ != "ya.ru"@,
        "live.com"@ != "msn.com"@,
        "live.com"@ != "yahoo.com"@,
        "live.com"@ != "yahoo.co.jp"@,
        "live.com"@ != "zoho.com"@,
        "live.com"@ != "zohomail.com"@,
        "live.com"@ != "protonmail.com"@,
        "live.com"@ != "proton.me"@,
        "live.com"@ != "pm.me"@,
        "live.com"@ != "yandex.com"@,
        "live.com"@ != "yandex.ru"@,
        "live.com"@ != "ya.ru"@,
        "msn.com"@ != "yahoo.com"@,
        "msn.com"@ != "yahoo.co.jp"@,
        "msn.com"@ != "zoho.com"@,
        "msn.com"@ != "zohomail.com"@,
        "msn.com"@ != "protonmail.com"@,
        "msn.com"@ != "proton.me"@,
        "msn.com"@ != "pm.me"@,
        "msn.com"@ != "yandex.com"@,
        "msn.com"@ != "yandex.ru"@,
        "msn.com"@ != "ya.ru"@,
        "yahoo.com"@ != "yahoo.co.jp"@,
        "yahoo.com"@ != "zoho.com"@,
        "yahoo.com"@ != "zohomail.com"@,
        "yahoo.com"@ != "protonmail.com"@,
        "yahoo.com"@ != "proton.me"@,
        "yahoo.com"@ != "pm.me"@,
        "yahoo.com"@ != "yandex.com"@,
        "yahoo.com"@ != "yandex.ru"@,
        "yahoo.com"@ != "ya.ru"@,
        "yahoo.co.jp"@ != "zoho.com"@,
        "yahoo.co.jp"@ != "zohomail.com"@,
        "yahoo.co.jp"@ != "protonmail.com"@,
        "yahoo.co.jp"@ != "proton.me"@,
        "yahoo.co.jp"@ != "pm.me"@,
        "yahoo.co.jp"@ != "yandex.com"@,
        "yahoo.co.jp"@ != "yandex.ru"@,
        "yahoo.co.jp"@ != "ya.ru"@,
        "zoho.com"@ != "zohomail.com"@,
        "zoho.com"@ != "protonmail.com"@,
        "zoho.com"@ != "proton.me"@,
        "zoho.com"@ != "pm.me"@,
        "zoho.com"@ != "yandex.com"@,
        "zoho.com"@ != "yandex.ru"@,
        "zoho.com"@ != "ya.ru"@,
        "zohomail.com"@ != "protonmail.com"@,
        "zohomail.com"@ != "proton.me"@,
        "zohomail.com"@ != "pm.me"@,
        "zohomail.com"@ != "yandex.com"@,
        "zohomail.com"@ != "yandex.ru"@,
        "zohomail.com"@ != "ya.ru"@,
        "protonmail.com"@ != "proton.me"@,
        "protonmail.com"@ != "pm.me"@,
        "protonmail.com"@ != "yandex.com"@,
        "protonmail.com"@ != "yandex.ru"@,
        "protonmail.com"@ != "ya.ru"@,
        "proton.me"@ != "pm.me"@,
        "proton.me"@ != "yandex.com"@,
        "proton.me"@ != "yandex.ru"@,
        "proton.me"@ != "ya.ru"@,
        "pm.me"@ != "yandex.com"@,
        "pm.me"@ != "yandex.ru"@,
        "pm.me"@ != "ya.ru"@,
        "yandex.com"@ != "yandex.ru"@,
        "yandex.com"@ != "ya.ru"@,
        "yandex.ru"@ != "ya.ru"@,
{
    reveal_strlit("qq.com");
    reveal_strlit("foxmail.com");
    reveal_strlit("163.com");
    reveal_strlit("126.com");
    reveal_strlit("icloud.com");
    reveal_strlit("me.com");
    reveal_strlit("mac.com");
    reveal_strlit("gmail.com");
    reveal_strlit("googlemail.com");
    reveal_strlit("outlook.com");
    reveal_strlit("hotmail.com");
    reveal_strlit("live.com");
    reveal_strlit("msn.com");
    reveal_strlit("yahoo.com");
    reveal_strlit("yahoo.co.jp");
    reveal_strlit("zoho.com");
    reveal_strlit("zohomail.com");
    reveal_strlit("protonmail.com");
    reveal_strlit("proton.me");
    reveal_strlit("pm.me");
    reveal_strlit("yandex.com");
    reveal_strlit("yandex.ru");
    reveal_strlit("ya.ru");
    assert("qq.com"@.len() != "foxmail.com"@.len());
    assert("qq.com"@.len() != "163.com"@.len());
    assert("qq.com"@.len() != "126.com"@.len());
    assert("qq.com"@.len() != "icloud.com"@.len());
    assert("qq.com"@[0] != "me.com"@[0]);
    assert("qq.com"@.len() != "mac.com"@.len());
    assert("qq.com"@.len() != "gmail.com"@.len());
    assert("qq.com"@.len() != "googlemail.com"@.len());
    assert("qq.com"@.len() != "outlook.com"@.len());
    assert("qq.com"@.len() != "hotmail.com"@.len());
    assert("qq.com"@.len() != "live.com"@.len());
    assert("qq.com"@.len() != "msn.com"@.len());
    assert("qq.com"@.len() != "yahoo.com"@.len());
    assert("qq.com"@.len() != "yahoo.co.jp"@.len());
    assert("qq.com"@.len() != "zoho.com"@.len());
    assert("qq.com"@.len() != "zohomail.com"@.len());
    assert("qq.com"@.len() != "protonmail.com"@.len());
    assert("qq.com"@.len() != "proton.me"@.len());
    assert("qq.com"@.len() != "pm.me"@.len());
    assert("qq.com"@.len() != "yandex.com"@.len());
    assert("qq.com"@.len() != "yandex.ru"@.len());
    assert("qq.com"@.len() != "ya.ru"@.len());
    assert("foxmail.com"@.len() != "163.com"@.len());
    assert("foxmail.com"@.len() != "126.com"@.len());
    assert("foxmail.com"@.len() != "icloud.com"@.len());
    assert("foxmail.com"@.len() != "me.com"@.len());
    assert("foxmail.com"@.len() != "mac.com"@.len());
    assert("foxmail.com"@.len() != "gmail.com"@.len());
    assert("foxmail.com"@.len() != "googlemail.com"@.len());
    assert("foxmail.com"@[0] != "outlook.com"@[0]);
    assert("foxmail.com"@[0] != "hotmail.com"@[0]);
    assert("foxmail.com"@.len() != "live.com"@.len());
    assert("foxmail.com"@.len() != "msn.com"@.len());
    assert("foxmail.com"@.len() != "yahoo.com"@.len());
    assert("foxmail.com"@[0] != "yahoo.co.jp"@[0]);
    assert("foxmail.com"@.len() != "zoho.com"@.len());
    assert("foxmail.com"@.len() != "zohomail.com"@.len());
    assert("foxmail.com"@.len() != "protonmail.com"@.len());
    assert("foxmail.com"@.len() != "proton.me"@.len());
    assert("foxmail.com"@.len() != "pm.me"@.len());
    assert("foxmail.com"@.len() != "yandex.com"@.len());
    assert("foxmail.com"@.len() != "yandex.ru"@.len());
    assert("foxmail.com"@.len() != "ya.ru"@.len());
    assert("163.com"@[1] != "126.com"@[1]);
    assert("163.com"@.len() != "icloud.com"@.len());
    assert("163.com"@.len() != "me.com"@.len());
    assert("163.com"@[0] != "mac.com"@[0]);
    assert("163.com"@.len() != "gmail.com"@.len());
    assert("163.com"@.len() != "googlemail.com"@.len());
    assert("163.com"@.len() != "outlook.com"@.len());
    assert("163.com"@.len() != "hotmail.com"@.len());
    assert("163.com"@.len() != "live.com"@.len());
    assert("163.com"@[0] != "msn.com"@[0]);
    assert("163.com"@.len() != "yahoo.com"@.len());
    assert("163.com"@.len() != "yahoo.co.jp"@.len());
    assert("163.com"@.len() != "zoho.com"@.len());
    assert("163.com"@.len() != "zohomail.com"@.len());
    assert("163.com"@.len() != "protonmail.com"@.len());
    assert("163.com"@.len() != "proton.me"@.len());
    assert("163.com"@.len() != "pm.me"@.len());
    assert("163.com"@.len() != "yandex.com"@.len());
    assert("163.com"@.len() != "yandex.ru"@.len());
    assert("163.com"@.len() != "ya.ru"@.len());
    assert("126.com"@.len() != "icloud.com"@.len());
    assert("126.com"@.len() != "me.com"@.len());
    assert("126.com"@[0] != "mac.com"@[0]);
    assert("126.com"@.len() != "gmail.com"@.len());
    assert("126.com"@.len() != "googlemail.com"@.len());
    assert("126.com"@.len() != "outlook.com"@.len());
    assert("126.com"@.len() != "hotmail.com"@.len());
    assert("126.com"@.len() != "live.com"@.len());
    assert("126.com"@[0] != "msn.com"@[0]);
    assert("126.com"@.len() != "yahoo.com"@.len());
    assert("126.com"@.len() != "yahoo.co.jp"@.len());
    assert("126.com"@.len() != "zoho.com"@.len());
    assert("126.com"@.len() != "zohomail.com"@.len());
    assert("126.com"@.len() != "protonmail.com"@.len());
    assert("126.com"@.len() != "proton.me"@.len());
    assert("126.com"@.len() != "pm.me"@.len());
    assert("126.com"@.len() != "yandex.com"@.len());
    assert("126.com"@.len() != "yandex.ru"@.len());
    assert("126.com"@.len() != "ya.ru"@.len());
    assert("icloud.com"@.len() != "me.com"@.len());
    assert("icloud.com"@.len() != "mac.com"@.len());
    assert("icloud.com"@.len() != "gmail.com"@.len());
    assert("icloud.com"@.len() != "googlemail.com"@.len());
    assert("icloud.com"@.len() != "outlook.com"@.len());
    assert("icloud.com"@.len() != "hotmail.com"@.len());
    assert("icloud.com"@.len() != "live.com"@.len());
    assert("icloud.com"@.len() != "msn.com"@.len());
    assert("icloud.com"@.len() != "yahoo.com"@.len());
    assert("icloud.com"@.len() != "yahoo.co.jp"@.len());
    assert("icloud.com"@.len() != "zoho.com"@.len());
    assert("icloud.com"@.len() != "zohomail.com"@.len());
    assert("icloud.com"@.len() != "protonmail.com"@.len());
    assert("icloud.com"@.len() != "proton.me"@.len());
    assert("icloud.com"@.len() != "pm.me"@.len());
    assert("icloud.com"@[0] != "yandex.com"@[0]);
    assert("icloud.com"@.len() != "yandex.ru"@.len());
    assert("icloud.com"@.len() != "ya.ru"@.len());
    assert("me.com"@.len() != "mac.com"@.len());
    assert("me.com"@.len() != "gmail.com"@.len());
    assert("me.com"@.len() != "googlemail.com"@.len());
    assert("me.com"@.len() != "outlook.com"@.len());
    assert("me.com"@.len() != "hotmail.com"@.len());
    assert("me.com"@.len() != "live.com"@.len());
    assert("me.com"@.len() != "msn.com"@.len());
    assert("me.com"@.len() != "yahoo.com"@.len());
    assert("me.com"@.len() != "yahoo.co.jp"@.len());
    assert("me.com"@.len() != "zoho.com"@.len());
    assert("me.com"@.len() != "zohomail.com"@.len());
    assert("me.com"@.len() != "protonmail.com"@.len());
    assert("me.com"@.len() != "proton.me"@.len());
    assert("me.com"@.len() != "pm.me"@.len());
    assert("me.com"@.len() != "yandex.com"@.len());
    assert("me.com"@.len() != "yandex.ru"@.len());
    assert("me.com"@.len() != "ya.ru"@.len());
    assert("mac.com"@.len() != "gmail.com"@.len());
    assert("mac.com"@.len() != "googlemail.com"@.len());
    assert("mac.com"@.len() != "outlook.com"@.len());
    assert("mac.com"@.len() != "hotmail.com"@.len());
    assert("mac.com"@.len() != "live.com"@.len());
    assert("mac.com"@[1] != "msn.com"@[1]);
    assert("mac.com"@.len() != "yahoo.com"@.len());
    assert("mac.com"@.len() != "yahoo.co.jp"@.len());
    assert("mac.com"@.len() != "zoho.com"@.len());
    assert("mac.com"@.len() != "zohomail.com"@.len());
    assert("mac.com"@.len() != "protonmail.com"@.len());
    assert("mac.com"@.len() != "proton.me"@.len());
    assert("mac.com"@.len() != "pm.me"@.len());
    assert("mac.com"@.len() != "yandex.com"@.len());
    assert("mac.com"@.len() != "yandex.ru"@.len());
    assert("mac.com"@.len() != "ya.ru"@.len());
    assert("gmail.com"@.len() != "googlemail.com"@.len());
    assert("gmail.com"@.len() != "outlook.com"@.len());
    assert("gmail.com"@.len() != "hotmail.com"@.len());
    assert("gmail.com"@.len() != "live.com"@.len());
    assert("gmail.com"@.len() != "msn.com"@.len());
    assert("gmail.com"@[0] != "yahoo.com"@[0]);
    assert("gmail.com"@.len() != "yahoo.co.jp"@.len());
    assert("gmail.com"@.len() != "zoho.com"@.len());
    assert("gmail.com"@.len() != "zohomail.com"@.len());
    assert("gmail.com"@.len() != "protonmail.com"@.len());
    assert("gmail.com"@[0] != "proton.me"@[0]);
    assert("gmail.com"@.len() != "pm.me"@.len());
    assert("gmail.com"@.len() != "yandex.com"@.len());
    assert("gmail.com"@[0] != "yandex.ru"@[0]);
    assert("gmail.com"@.len() != "ya.ru"@.len());
    assert("googlemail.com"@.len() != "outlook.com"@.len());
    assert("googlemail.com"@.len() != "hotmail.com"@.len());
    assert("googlemail.com"@.len() != "live.com"@.len());
    assert("googlemail.com"@.len() != "msn.com"@.len());
    assert("googlemail.com"@.len() != "yahoo.com"@.len());
    assert("googlemail.com"@.len() != "yahoo.co.jp"@.len());
    assert("googlemail.com"@.len() != "zoho.com"@.len());
    assert("googlemail.com"@.len() != "zohomail.com"@.len());
    assert("googlemail.com"@[0] != "protonmail.com"@[0]);
    assert("googlemail.com"@.len() != "proton.me"@.len());
    assert("googlemail.com"@.len() != "pm.me"@.len());
    assert("googlemail.com"@.len() != "yandex.com"@.len());
    assert("googlemail.com"@.len() != "yandex.ru"@.len());
    assert("googlemail.com"@.len() != "ya.ru"@.len());
    assert("outlook.com"@[0] != "hotmail.com"@[0]);
    assert("outlook.com"@.len() != "live.com"@.len());
    assert("outlook.com"@.len() != "msn.com"@.len());
    assert("outlook.com"@.len() != "yahoo.com"@.len());
    assert("outlook.com"@[0] != "yahoo.co.jp"@[0]);
    assert("outlook.com"@.len() != "zoho.com"@.len());
    assert("outlook.com"@.len() != "zohomail.com"@.len());
    assert("outlook.com"@.len() != "protonmail.com"@.len());
    assert("outlook.com"@.len() != "proton.me"@.len());
    assert("outlook.com"@.len() != "pm.me"@.len());
    assert("outlook.com"@.len() != "yandex.com"@.len());
    assert("outlook.com"@.len() != "yandex.ru"@.len());
    assert("outlook.com"@.len() != "ya.ru"@.len());
    assert("hotmail.com"@.len() != "live.com"@.len());
    assert("hotmail.com"@.len() != "msn.com"@.len());
    assert("hotmail.com"@.len() != "yahoo.com"@.len());
    assert("hotmail.com"@[0] != "yahoo.co.jp"@[0]);
    assert("hotmail.com"@.len() != "zoho.com"@.len());
    assert("hotmail.com"@.len() != "zohomail.com"@.len());
    assert("hotmail.com"@.len() != "protonmail.com"@.len());
    assert("hotmail.com"@.len() != "proton.me"@.len());
    assert("hotmail.com"@.len() != "pm.me"@.len());
    assert("hotmail.com"@.len() != "yandex.com"@.len());
    assert("hotmail.com"@.len() != "yandex.ru"@.len());
    assert("hotmail.com"@.len() != "ya.ru"@.len());
    assert("live.com"@.len() != "msn.com"@.len());
    assert("live.com"@.len() != "yahoo.com"@.len());
    assert("live.com"@.len() != "yahoo.co.jp"@.len());
    assert("live.com"@[0] != "zoho.com"@[0]);
    assert("live.com"@.len() != "zohomail.com"@.len());
    assert("live.com"@.len() != "protonmail.com"@.len());
    assert("live.com"@.len() != "proton.me"@.len());
    assert("live.com"@.len() != "pm.me"@.len());
    assert("live.com"@.len() != "yandex.com"@.len());
    assert("live.com"@.len() != "yandex.ru"@.len());
    assert("live.com"@.len() != "ya.ru"@.len());
    assert("msn.com"@.len() != "yahoo.com"@.len());
    assert("msn.com"@.len() != "yahoo.co.jp"@.len());
    assert("msn.com"@.len() != "zoho.com"@.len());
    assert("msn.com"@.len() != "zohomail.com"@.len());
    assert("msn.com"@.len() != "protonmail.com"@.len());
    assert("msn.com"@.len() != "proton.me"@.len());
    assert("msn.com"@.len() != "pm.me"@.len());
    assert("msn.com"@.len() != "yandex.com"@.len());
    assert("msn.com"@.len() != "yandex.ru"@.len());
    assert("msn.com"@.len() != "ya.ru"@.len());
    assert("yahoo.com"@.len() != "yahoo.co.jp"@.len());
    assert("yahoo.com"@.len() != "zoho.com"@.len());
    assert("yahoo.com"@.len() != "zohomail.com"@.len());
    assert("yahoo.com"@.len() != "protonmail.com"@.len());
    assert("yahoo.com"@[0] != "proton.me"@[0]);
    assert("yahoo.com"@.len() != "pm.me"@.len());
    assert("yahoo.com"@.len() != "yandex.com"@.len());
    assert("yahoo.com"@[2] != "yandex.ru"@[2]);
    assert("yahoo.com"@.len() != "ya.ru"@.len());
    assert("yahoo.co.jp"@.len() != "zoho.com"@.len());
    assert("yahoo.co.jp"@.len() != "zohomail.com"@.len());
    assert("yahoo.co.jp"@.len() != "protonmail.com"@.len());
    assert("yahoo.co.jp"@.len() != "proton.me"@.len());
    assert("yahoo.co.jp"@.len() != "pm.me"@.len());
    assert("yahoo.co.jp"@.len() != "yandex.com"@.len());
    assert("yahoo.co.jp"@.len() != "yandex.ru"@.len());
    assert("yahoo.co.jp"@.len() != "ya.ru"@.len());
    assert("zoho.com"@.len() != "zohomail.com"@.len());
    assert("zoho.com"@.len() != "protonmail.com"@.len());
    assert("zoho.com"@.len() != "proton.me"@.len());
    assert("zoho.com"@.len() != "pm.me"@.len());
    assert("zoho.com"@.len() != "yandex.com"@.len());
    assert("zoho.com"@.len() != "yandex.ru"@.len());
    assert("zoho.com"@.len() != "ya.ru"@.len());
    assert("zohomail.com"@.len() != "protonmail.com"@.len());
    assert("zohomail.com"@.len() != "proton.me"@.len());
    assert("zohomail.com"@.len() != "pm.me"@.len());
    assert("zohomail.com"@.len() != "yandex.com"@.len());
    assert("zohomail.com"@.len() != "yandex.ru"@.len());
    assert("zohomail.com"@.len() != "ya.ru"@.len());
    assert("protonmail.com"@.len() != "proton.me"@.len());
    assert("protonmail.com"@.len() != "pm.me"@.len());
    assert("protonmail.com"@.len() != "yandex.com"@.len());
    assert("protonmail.com"@.len() != "yandex.ru"@.len());
    assert("protonmail.com"@.len() != "ya.ru"@.len());
    assert("proton.me"@.len() != "pm.me"@.len());
    assert("proton.me"@.len() != "yandex.com"@.len());
    assert("proton.me"@[0] != "yandex.ru"@[0]);
    assert("proton.me"@.len() != "ya.ru"@.len());
    assert("pm.me"@.len() != "yandex.com"@.len());
    assert("pm.me"@.len() != "yandex.ru"@.len());
    assert("pm.me"@[0] != "ya.ru"@[0]);
    assert("yandex.com"@.len() != "yandex.ru"@.len());
    assert("yandex.com"@.len() != "ya.ru"@.len());
    assert("yandex.ru"@.len() != "ya.ru"@.len());
}

proof fn lemma_domain_owner(i: int, k: int)
    requires
        0 <= i < provider_presets().len(),
        0 <= k < provider_presets()[i].domains.len(),
    ensures
        domain_owner(provider_presets()[i].domains[k]) == i,
{
    lemma_domain_literals_distinct();
    let ps = provider_presets();
    if i == 0 {
        if k == 0 {
            assert(ps[0].domains[0] == "qq.com"@);
        } else if k == 1 {
            assert(ps[0].domains[1] == "foxmail.com"@);
        }
    } else if i == 1 {
        if k == 0 {
            assert(ps[1].domains[0] == "163.com"@);
        }
    } else if i == 2 {
        if k == 0 {
            assert(ps[2].domains[0] == "126.com"@);
        }
    } else if i == 3 {
        if k == 0 {
            assert(ps[3].domains[0] == "icloud.com"@);
        } else if k == 1 {
            assert(ps[3].domains[1] == "me.com"@);
        } else if k == 2 {
            assert(ps[3].domains[2] == "mac.com"@);
        }
    } else if i == 4 {
        if k == 0 {
            assert(ps[4].domains[0] == "gmail.com"@);
        } else if k == 1 {
            assert(ps[4].domains[1] == "googlemail.com"@);
        }
    } else if i == 5 {
        if k == 0 {
            assert(ps[5].domains[0] == "outlook.com"@);
        } else if k == 1 {
            assert(ps[5].domains[1] == "hotmail.com"@);
        } else if k == 2 {
            assert(ps[5].domains[2] == "live.com"@);
        } else if k == 3 {
            assert(ps[5].domains[3] == "msn.com"@);
        }
    } else if i == 6 {
        if k == 0 {
            assert(ps[6].domains[0] == "yahoo.com"@);
        } else if k == 1 {
            assert(ps[6].domains[1] == "yahoo.co.jp"@);
        }
    } else if i == 7 {
        if k == 0 {
            assert(ps[7].domains[0] == "zoho.com"@);
        } else if k == 1 {
            assert(ps[7].domains[1] == "zohomail.com"@);
        }
    } else if i == 8 {
        if k == 0 {
            assert(ps[8].domains[0] == "protonmail.com"@);
        } else if k == 1 {
            assert(ps[8].domains[1] == "proton.me"@);
        } else if k == 2 {
            assert(ps[8].domains[2] == "pm.me"@);
        }
    } else if i == 9 {
        if k == 0 {
            assert(ps[9].domains[0] == "yandex.com"@);
        } else if k == 1 {
            assert(ps[9].domains[1] == "yandex.ru"@);
        } else if k == 2 {
            assert(ps[9].domains[2] == "ya.ru"@);
        }
    }
}

/// No domain is listed by two presets: detection never has to choose.
pub proof fn lemma_preset_domains_disjoint(i: int, j: int, d: Seq<char>)
    requires
        0 <= i < provider_presets().len(),
        0 <= j < provider_presets().len(),
        provider_presets()[i].domains.contains(d),
        provider_presets()[j].domains.contains(d),
    ensures
        i == j,
{
    let ps = provider_presets();
    let a = choose|k: int| 0 <= k < ps[i].domains.len() && ps[i].domains[k] == d;
    let b = choose|k: int| 0 <= k < ps[j].domains.len() && ps[j].domains[k] == d;
    lemma_domain_owner(i, a);
    lemma_domain_owner(j, b);
}

/// A character that a domain name as listed is made of: a lower-case
/// ASCII letter, a digit or a dot.
spec fn domain_char(c: char) -> bool {
    (97 <= (c as u32) <= 122) || (48 <= (c as u32) <= 57) || c == '.'
}

/// ASCII text already in lower case, without `@`.
pub open spec fn plain_domain(d: Seq<char>) -> bool {
    &&& is_ascii_text(d)
    &&& ascii_lower(d) == d
    &&& !d.contains('@')
}

proof fn lemma_domain_chars_plain(d: Seq<char>)
    requires
        forall|j: int| 0 <= j < d.len() ==> domain_char(#[trigger] d[j]),
    ensures
        plain_domain(d),
{
    assert(ascii_lower(d) =~= d);
    if d.contains('@') {
        let j = choose|j: int| 0 <= j < d.len() && d[j] == '@';
        assert(domain_char(d[j]));
    }
}

proof fn lemma_domain_literals_plain()
    ensures
        plain_domain("qq.com"@),
        plain_domain("foxmail.com"@),
        plain_domain("163.com"@),
        plain_domain("126.com"@),
        plain_domain("icloud.com"@),
        plain_domain("me.com"@),
        plain_domain("mac.com"@),
        plain_domain("gmail.com"@),
        plain_domain("googlemail.com"@),
        plain_domain("outlook.com"@),
        plain_domain("hotmail.com"@),
        plain_domain("live.com"@),
        plain_domain("msn.com"@),
        plain_domain("yahoo.com"@),
        plain_domain("yahoo.co.jp"@),
        plain_domain("zoho.com"@),
        plain_domain("zohomail.com"@),
        plain_domain("protonmail.com"@),
        plain_domain("proton.me"@),
        plain_domain("pm.me"@),
        plain_domain("yandex.com"@),
        plain_domain("yandex.ru"@),
        plain_domain("ya.ru"@),
{
    reveal_strlit("qq.com");
    assert forall|j: int| 0 <= j < "qq.com"@.len() implies domain_char(#[trigger] "qq.com"@[j]) by {
        if j == 0 {} else if j == 1 {} else if j == 2 {} else if j == 3 {} else if j == 4 {} else if j == 5 {}
    }
    reveal_strlit("foxmail.com");
    assert forall|j: int| 0 <= j < "foxmail.com"@.len() implies domain_char(#[trigger] "foxmail.com"@[j]) by {
        if j == 0 {} else if j == 1 {} else if j == 2 {} else if j == 3 {} else if j == 4 {} else if j == 5 {} else if j == 6 {} else if j == 7 {} else if j == 8 {} else if j == 9 {} else if j == 10 {}
    }
    reveal_strlit("163.com");
    assert forall|j: int| 0 <= j < "163.com"@.len() implies domain_char(#[trigger] "163.com"@[j]) by {
        if j == 0 {} else if j == 1 {} else if j == 2 {} else if j == 3 {} else if j == 4 {} else if j == 5 {} else if j == 6 {}
    }
    reveal_strlit("126.com");
    assert forall|j: int| 0 <= j < "126.com"@.len() implies domain_char(#[trigger] "126.com"@[j]) by {
        if j == 0 {} else if j == 1 {} else if j == 2 {} else if j == 3 {} else if j == 4 {} else if j == 5 {} else if j == 6 {}
    }
    reveal_strlit("icloud.com");
    assert forall|j: int| 0 <= j < "icloud.com"@.len() implies domain_char(#[trigger] "icloud.com"@[j]) by {
        if j == 0 {} else if j == 1 {} else if j == 2 {} else if j == 3 {} else if j == 4 {} else if j == 5 {} else if j == 6 {} else if j == 7 {} else if j == 8 {} else if j == 9 {}
    }
    reveal_strlit("me.com");
    assert forall|j: int| 0 <= j < "me.com"@.len() implies domain_char(#[trigger] "me.com"@[j]) by {
        if j == 0 {} else if j == 1 {} else if j == 2 {} else if j == 3 {} else if j == 4 {} else if j == 5 {}
    }
    reveal_strlit("mac.com");
    assert forall|j: int| 0 <= j < "mac.com"@.len() implies domain_char(#[trigger] "mac.com"@[j]) by {
        if j == 0 {} else if j == 1 {} else if j == 2 {} else if j == 3 {} else if j == 4 {} else if j == 5 {} else if j == 6 {}
    }
    reveal_strlit("gmail.com");
    assert forall|j: int| 0 <= j < "gmail.com"@.len() implies domain_char(#[trigger] "gmail.com"@[j]) by {
        if j == 0 {} else if j == 1 {} else if j == 2 {} else if j == 3 {} else if j == 4 {} else if j == 5 {} else if j == 6 {} else if j == 7 {} else if j == 8 {}
    }
    reveal_strlit("googlemail.com");
    assert forall|j: int| 0 <= j < "googlemail.com"@.len() implies domain_char(#[trigger] "googlemail.com"@[j]) by {
        if j == 0 {} else if j == 1 {} else if j == 2 {} else if j == 3 {} else if j == 4 {} else if j == 5 {} else if j == 6 {} else if j == 7 {} else if j == 8 {} else if j == 9 {} else if j == 10 {} else if j == 11 {} else if j == 12 {} else if j == 13 {}
    }
    reveal_strlit("outlook.com");
    assert forall|j: int| 0 <= j < "outlook.com"@.len() implies domain_char(#[trigger] "outlook.com"@[j]) by {
        if j == 0 {} else if j == 1 {} else if j == 2 {} else if j == 3 {} else if j == 4 {} else if j == 5 {} else if j == 6 {} else if j == 7 {} else if j == 8 {} else if j == 9 {} else if j == 10 {}
    }
    reveal_strlit("hotmail.com");
    assert forall|j: int| 0 <= j < "hotmail.com"@.len() implies domain_char(#[trigger] "hotmail.com"@[j]) by {
        if j == 0 {} else if j == 1 {} else if j == 2 {} else if j == 3 {} else if j == 4 {} else if j == 5 {} else if j == 6 {} else if j == 7 {} else if j == 8 {} else if j == 9 {} else if j == 10 {}
    }
    reveal_strlit("live.com");
    assert forall|j: int| 0 <= j < "live.com"@.len() implies domain_char(#[trigger] "live.com"@[j]) by {
        if j == 0 {} else if j == 1 {} else if j == 2 {} else if j == 3 {} else if j == 4 {} else if j == 5 {} else if j == 6 {} else if j == 7 {}
    }
    reveal_strlit("msn.com");
    assert forall|j: int| 0 <= j < "msn.com"@.len() implies domain_char(#[trigger] "msn.com"@[j]) by {
        if j == 0 {} else if j == 1 {} else if j == 2 {} else if j == 3 {} else if j == 4 {} else if j == 5 {} else if j == 6 {}
    }
    reveal_strlit("yahoo.com");
    assert forall|j: int| 0 <= j < "yahoo.com"@.len() implies domain_char(#[trigger] "yahoo.com"@[j]) by {
        if j == 0 {} else if j == 1 {} else if j == 2 {} else if j == 3 {} else if j == 4 {} else if j == 5 {} else if j == 6 {} else if j == 7 {} else if j == 8 {}
    }
    reveal_strlit("yahoo.co.jp");
    assert forall|j: int| 0 <= j < "yahoo.co.jp"@.len() implies domain_char(#[trigger] "yahoo.co.jp"@[j]) by {
        if j == 0 {} else if j == 1 {} else if j == 2 {} else if j == 3 {} else if j == 4 {} else if j == 5 {} else if j == 6 {} else if j == 7 {} else if j == 8 {} else if j == 9 {} else if j == 10 {}
    }
    reveal_strlit("zoho.com");
    assert forall|j: int| 0 <= j < "zoho.com"@.len() implies domain_char(#[trigger] "zoho.com"@[j]) by {
        if j == 0 {} else if j == 1 {} else if j == 2 {} else if j == 3 {} else if j == 4 {} else if j == 5 {} else if j == 6 {} else if j == 7 {}
    }
    reveal_strlit("zohomail.com");
    assert forall|j: int| 0 <= j < "zohomail.com"@.len() implies domain_char(#[trigger] "zohomail.com"@[j]) by {
        if j == 0 {} else if j == 1 {} else if j == 2 {} else if j == 3 {} else if j == 4 {} else if j == 5 {} else if j == 6 {} else if j == 7 {} else if j == 8 {} else if j == 9 {} else if j == 10 {} else if j == 11 {}
    }
    reveal_strlit("protonmail.com");
    assert forall|j: int| 0 <= j < "protonmail.com"@.len() implies domain_char(#[trigger] "protonmail.com"@[j]) by {
        if j == 0 {} else if j == 1 {} else if j == 2 {} else if j == 3 {} else if j == 4 {} else if j == 5 {} else if j == 6 {} else if j == 7 {} else if j == 8 {} else if j == 9 {} else if j == 10 {} else if j == 11 {} else if j == 12 {} else if j == 13 {}
    }
    reveal_strlit("proton.me");
    assert forall|j: int| 0 <= j < "proton.me"@.len() implies domain_char(#[trigger] "proton.me"@[j]) by {
        if j == 0 {} else if j == 1 {} else if j == 2 {} else if j == 3 {} else if j == 4 {} else if j == 5 {} else if j == 6 {} else if j == 7 {} else if j == 8 {}
    }
    reveal_strlit("pm.me");
    assert forall|j: int| 0 <= j < "pm.me"@.len() implies domain_char(#[trigger] "pm.me"@[j]) by {
        if j == 0 {} else if j == 1 {} else if j == 2 {} else if j == 3 {} else if j == 4 {}
    }
    reveal_strlit("yandex.com");
    assert forall|j: int| 0 <= j < "yandex.com"@.len() implies domain_char(#[trigger] "yandex.com"@[j]) by {
        if j == 0 {} else if j == 1 {} else if j == 2 {} else if j == 3 {} else if j == 4 {} else if j == 5 {} else if j == 6 {} else if j == 7 {} else if j == 8 {} else if j == 9 {}
    }
    reveal_strlit("yandex.ru");
    assert forall|j: int| 0 <= j < "yandex.ru"@.len() implies domain_char(#[trigger] "yandex.ru"@[j]) by {
        if j == 0 {} else if j == 1 {} else if j == 2 {} else if j == 3 {} else if j == 4 {} else if j == 5 {} else if j == 6 {} else if j == 7 {} else if j == 8 {}
    }
    reveal_strlit("ya.ru");
    assert forall|j: int| 0 <= j < "ya.ru"@.len() implies domain_char(#[trigger] "ya.ru"@[j]) by {
        if j == 0 {} else if j == 1 {} else if j == 2 {} else if j == 3 {} else if j == 4 {}
    }
    lemma_domain_chars_plain("qq.com"@);
    lemma_domain_chars_plain("foxmail.com"@);
    lemma_domain_chars_plain("163.com"@);
    lemma_domain_chars_plain("126.com"@);
    lemma_domain_chars_plain("icloud.com"@);
    lemma_domain_chars_plain("me.com"@);
    lemma_domain_chars_plain("mac.com"@);
    lemma_domain_chars_plain("gmail.com"@);
    lemma_domain_chars_plain("googlemail.com"@);
    lemma_domain_chars_plain("outlook.com"@);
    lemma_domain_chars_plain("hotmail.com"@);
    lemma_domain_chars_plain("live.com"@);
    lemma_domain_chars_plain("msn.com"@);
    lemma_domain_chars_plain("yahoo.com"@);
    lemma_domain_chars_plain("yahoo.co.jp"@);
    lemma_domain_chars_plain("zoho.com"@);
    lemma_domain_chars_plain("zohomail.com"@);
    lemma_domain_chars_plain("protonmail.com"@);
    lemma_domain_chars_plain("proton.me"@);
    lemma_domain_chars_plain("pm.me"@);
    lemma_domain_chars_plain("yandex.com"@);
    lemma_domain_chars_plain("yandex.ru"@);
    lemma_domain_chars_plain("ya.ru"@);
}

/// Every domain a preset lists is ASCII, already in lower case, and holds
/// no `@`, so the lower-cased part after the last `@` of an address can
/// equal it.
pub proof fn lemma_preset_domains_plain(i: int, k: int)
    requires
        0 <= i < provider_presets().len(),
        0 <= k < provider_presets()[i].domains.len(),
    ensures
        plain_domain(provider_presets()[i].domains[k]),
{
    lemma_domain_literals_plain();
    let ps = provider_presets();
    if i == 0 {
        if k == 0 {
            assert(ps[0].domains[0] == "qq.com"@);
        } else if k == 1 {
            assert(ps[0].domains[1] == "foxmail.com"@);
        }
    } else if i == 1 {
        if k == 0 {
            assert(ps[1].domains[0] == "163.com"@);
        }
    } else if i == 2 {
        if k == 0 {
            assert(ps[2].domains[0] == "126.com"@);
        }
    } else if i == 3 {
        if k == 0 {
            assert(ps[3].domains[0] == "icloud.com"@);
        } else if k == 1 {
            assert(ps[3].domains[1] == "me.com"@);
        } else if k == 2 {
            assert(ps[3].domains[2] == "mac.com"@);
        }
    } else if i == 4 {
        if k == 0 {
            assert(ps[4].domains[0] == "gmail.com"@);
        } else if k == 1 {
            assert(ps[4].domains[1] == "googlemail.com"@);
        }
    } else if i == 5 {
        if k == 0 {
            assert(ps[5].domains[0] == "outlook.com"@);
        } else if k == 1 {
            assert(ps[5].domains[1] == "hotmail.com"@);
        } else if k == 2 {
            assert(ps[5].domains[2] == "live.com"@);
        } else if k == 3 {
            assert(ps[5].domains[3] == "msn.com"@);
        }
    } else if i == 6 {
        if k == 0 {
            assert(ps[6].domains[0] == "yahoo.com"@);
        } else if k == 1 {
            assert(ps[6].domains[1] == "yahoo.co.jp"@);
        }
    } else if i == 7 {
        if k == 0 {
            assert(ps[7].domains[0] == "zoho.com"@);
        } else if k == 1 {
            assert(ps[7].domains[1] == "zohomail.com"@);
        }
    } else if i == 8 {
        if k == 0 {
            assert(ps[8].domains[0] == "protonmail.com"@);
        } else if k == 1 {
            assert(ps[8].domains[1] == "proton.me"@);
        } else if k == 2 {
            assert(ps[8].domains[2] == "pm.me"@);
        }
    } else if i == 9 {
        if k == 0 {
            assert(ps[9].domains[0] == "yandex.com"@);
        } else if k == 1 {
            assert(ps[9].domains[1] == "yandex.ru"@);
        } else if k == 2 {
            assert(ps[9].domains[2] == "ya.ru"@);
        }
    }
}

/// A provider's servers: IMAP host, port and security, then SMTP host,
/// port and security.
pub open spec fn provider_servers(p: MailProvider) -> (
    Seq<char>,
    u16,
    SecurityMode,
    Seq<char>,
    u16,
    SecurityMode,
) {
    match p {
        MailProvider::QqMail => ("imap.qq.com"@, 993, SecurityMode::Tls, "smtp.qq.com"@, 465, SecurityMode::Tls),
        MailProvider::Netease163 => ("imap.163.com"@, 993, SecurityMode::Tls, "smtp.163.com"@, 465, SecurityMode::Tls),
        MailProvider::Netease126 => ("imap.126.com"@, 993, SecurityMode::Tls, "smtp.126.com"@, 465, SecurityMode::Tls),
        MailProvider::ICloud => ("imap.mail.me.com"@, 993, SecurityMode::Tls, "smtp.mail.me.com"@, 587, SecurityMode::StartTls),
        MailProvider::Gmail => ("imap.gmail.com"@, 993, SecurityMode::Tls, "smtp.gmail.com"@, 587, SecurityMode::StartTls),
        MailProvider::Outlook => ("outlook.office365.com"@, 993, SecurityMode::Tls, "smtp.office365.com"@, 587, SecurityMode::StartTls),
        MailProvider::Yahoo => ("imap.mail.yahoo.com"@, 993, SecurityMode::Tls, "smtp.mail.yahoo.com"@, 465, SecurityMode::Tls),
        MailProvider::Zoho => ("imap.zoho.com"@, 993, SecurityMode::Tls, "smtp.zoho.com"@, 465, SecurityMode::Tls),
        MailProvider::ProtonMail => ("127.0.0.1"@, 1143, SecurityMode::StartTls, "127.0.0.1"@, 1025, SecurityMode::StartTls),
        MailProvider::Yandex => ("imap.yandex.com"@, 993, SecurityMode::Tls, "smtp.yandex.com"@, 465, SecurityMode::Tls),
        MailProvider::QqExmail => ("imap.exmail.qq.com"@, 993, SecurityMode::Tls, "smtp.exmail.qq.com"@, 465, SecurityMode::Tls),
        MailProvider::AliMail => ("imap.mxhichina.com"@, 993, SecurityMode::Tls, "smtp.mxhichina.com"@, 465, SecurityMode::Tls),
        MailProvider::Custom => (seq![], 0, SecurityMode::Tls, seq![], 0, SecurityMode::Tls),
    }
}

/// The servers a preset names, in the order of `provider_servers`.
pub open spec fn preset_servers(p: ProviderPresetView) -> (
    Seq<char>,
    u16,
    SecurityMode,
    Seq<char>,
    u16,
    SecurityMode,
) {
    (p.imap_host, p.imap_port, p.imap_security, p.smtp_host, p.smtp_port, p.smtp_security)
}

/// Whether a preset's ports go with its security modes: IMAP over direct
/// TLS on 993, SMTP over direct TLS on 465 or over STARTTLS on 587. The
/// local bridge of Proton Mail (at 127.0.0.1) uses its own ports.
pub open spec fn standard_ports(p: ProviderPresetView) -> bool {
    &&& p.imap_security == SecurityMode::Tls && p.imap_port == 993
    &&& (p.smtp_security == SecurityMode::Tls && p.smtp_port == 465) || (p.smtp_security
        == SecurityMode::StartTls && p.smtp_port == 587)
}

/// Every preset names its provider's servers, each provider has one
/// preset, and every preset on a public server uses the standard ports of
/// its security modes.
pub proof fn lemma_preset_servers(i: int)
    requires
        0 <= i < provider_presets().len(),
    ensures
        preset_servers(provider_presets()[i]) == provider_servers(provider_presets()[i].provider),
        provider_presets()[i].provider != MailProvider::Custom,
        forall|j: int|
            0 <= j < provider_presets().len() && j != i ==> #[trigger] provider_presets()[j].provider
                != provider_presets()[i].provider,
        provider_presets()[i].smtp_host != "127.0.0.1"@ ==> standard_ports(provider_presets()[i]),
{
    reveal_strlit("127.0.0.1");
    reveal_strlit("smtp.qq.com");
    let ps = provider_presets();
    assert(ps.len() == 12);
    if i == 0 { } else if i == 1 { } else if i == 2 { } else if i == 3 { } else if i == 4 { } else if i == 5 { } else if i == 6 { } else if i == 7 { } else if i == 8 { } else if i == 9 { } else if i == 10 { } else if i == 11 { }
}

} // verus!
