//! Device and rule configuration: the sections, their defaults, how missing
//! fields are filled from the defaults, and the device's broker identity.
use vstd::prelude::*;
use crate::credential::{verify_credential_files, verify_outcome, FileStat, VerifyError};
use crate::text::{copy_str, remove_char, without_char};

verus! {

/// Why a configuration cannot be used.
#[derive(PartialEq, Eq, Structural, Debug, Clone, Copy)]
pub enum ConfigError {
    /// The device has no wallet address.
    WalletMissing,
    /// The broker endpoint is not set.
    EndpointMissing,
    /// The broker port is not set.
    PortMissing,
    /// The dedicated credential's files do not pass the check.
    Credential(VerifyError),
}

/// The device's core identity.
#[derive(Debug, Clone, PartialEq)]
pub struct KCoreConfig {
    pub wallet_address: Option<String>,
    pub mac_address: String,
    pub serial_number: String,
    pub sku: String,
    pub user_wallet: Option<String>,
}

impl KCoreConfig {
    /// A device needs a wallet address.
    pub fn config_verify(&self) -> (r: Result<(), ConfigError>)
        ensures
            r == if self.wallet_address.is_some() {
                Ok::<(), ConfigError>(())
            } else {
                Err(ConfigError::WalletMissing)
            },
    {
        if self.wallet_address.is_none() {
            Err(ConfigError::WalletMissing)
        } else {
            Ok(())
        }
    }
}

/// The device's network settings.
#[derive(Debug, Clone, PartialEq)]
pub struct KNetworkConfig {
    pub wan_type: u8,
    pub wan_username: Option<String>,
    pub wan_password: Option<String>,
    pub wifi_ssid: Option<String>,
    pub wifi_password: Option<String>,
    pub password_overwrite: Option<String>,
}

/// The device's ownership registration state.
#[derive(Debug, Clone, PartialEq)]
pub struct KPorConfig {
    pub state: bool,
    pub nickname: Option<String>,
}

/// The device's tokens for the backend.
#[derive(Debug, Clone)]
pub struct KBossConfig {
    pub access_token: Option<String>,
    pub ap_access_token: Option<String>,
}

impl KBossConfig {
    /// Missing tokens are only worth a warning: the section always passes.
    pub fn config_verify(&self) -> (r: Result<(), ConfigError>)
        ensures
            r == Ok::<(), ConfigError>(()),
    {
        Ok(())
    }
}

/// The device's token for the cloud API.
#[derive(Debug, Clone)]
pub struct KAwsConfig {
    pub auth_token: Option<String>,
}

/// The device configuration.
#[derive(Debug, Clone)]
pub struct KdaemonConfig {
    pub core: KCoreConfig,
    pub network: KNetworkConfig,
    pub por: KPorConfig,
    pub boss: KBossConfig,
    pub aws: Option<KAwsConfig>,
}

impl KdaemonConfig {
    /// The core section is checked, then the backend section.
    pub fn config_verify(&self) -> (r: Result<(), ConfigError>)
        ensures
            r == if self.core.wallet_address.is_some() {
                Ok::<(), ConfigError>(())
            } else {
                Err(ConfigError::WalletMissing)
            },
    {
        match self.core.config_verify() {
            Err(e) => Err(e),
            Ok(_) => self.boss.config_verify(),
        }
    }
}

/// The rule file's core section.
#[derive(Debug)]
pub struct RuleConfigCore {
    pub thirdparty: String,
    pub database: Option<String>,
    pub config: String,
}

impl Default for RuleConfigCore {
    fn default() -> (r: Self)
        ensures
            r.thirdparty@ == "longdong2"@,
            r.database.is_some() && r.database.unwrap()@ == "redis://127.0.0.1:6379"@,
            r.config@ == "/userdata/kdaemon.toml"@,
    {
        RuleConfigCore {
            thirdparty: copy_str("longdong2"),
            database: Some(copy_str("redis://127.0.0.1:6379")),
            config: copy_str("/userdata/kdaemon.toml"),
        }
    }
}

/// `v` where it is set, else `d`.
pub open spec fn filled(v: Option<String>, d: Seq<char>) -> Seq<char> {
    match v {
        Some(s) => s@,
        None => d,
    }
}

/// Sets `v` to `d` where it is not set.
fn fill(v: &mut Option<String>, d: String)
    ensures
        final(v).is_some(),
        final(v).unwrap()@ == filled(*old(v), d@),
{
    if v.is_none() {
        *v = Some(d);
    }
}

/// Takes the value out of an option that is set.
fn take_set(v: Option<String>) -> (r: String)
    requires
        v.is_some(),
    ensures
        r@ == v.unwrap()@,
{
    match v {
        Some(s) => s,
        None => String::new(),
    }
}

impl RuleConfigCore {
    /// Fills the database address from the defaults where it is not set.
    pub fn mirrow_default(&mut self) -> (r: Result<(), ConfigError>)
        ensures
            r is Ok,
            final(self).thirdparty@ == old(self).thirdparty@,
            final(self).config@ == old(self).config@,
            final(self).database.is_some(),
            final(self).database.unwrap()@ == filled(old(self).database, "redis://127.0.0.1:6379"@),
    {
        let def = RuleConfigCore::default();
        fill(&mut self.database, take_set(def.database));
        Ok(())
    }
}

/// The rule file's backend section: the backend's root URL and API paths.
#[derive(Debug, Clone)]
pub struct RuleConfigBoss {
    pub root_url: Option<String>,
    pub otp_path: Option<String>,
    pub ap_token_path: Option<String>,
    pub hcs_path: Option<String>,
    pub ap_hcs_path: Option<String>,
    pub ap_info_path: Option<String>,
}

impl Default for RuleConfigBoss {
    fn default() -> (r: Self)
        ensures
            r.root_url.is_some() && r.root_url.unwrap()@ == "https://oss-api.k36588.info"@,
            r.otp_path.is_some() && r.otp_path.unwrap()@ == "v0/ap/otp"@,
            r.ap_token_path.is_some() && r.ap_token_path.unwrap()@ == "v0/ap/ap_token"@,
            r.hcs_path.is_some() && r.hcs_path.unwrap()@ == "v0/hcs/pair"@,
            r.ap_hcs_path.is_some() && r.ap_hcs_path.unwrap()@ == "v0/ap/hcs"@,
            r.ap_info_path.is_some() && r.ap_info_path.unwrap()@ == "v0/ap/info"@,
    {
        RuleConfigBoss {
            root_url: Some(copy_str("https://oss-api.k36588.info")),
            otp_path: Some(copy_str("v0/ap/otp")),
            ap_token_path: Some(copy_str("v0/ap/ap_token")),
            hcs_path: Some(copy_str("v0/hcs/pair")),
            ap_hcs_path: Some(copy_str("v0/ap/hcs")),
            ap_info_path: Some(copy_str("v0/ap/info")),
        }
    }
}

impl RuleConfigBoss {
    /// Fills each path that is not set from the defaults.
    pub fn mirrow_default(&mut self) -> (r: Result<(), ConfigError>)
        ensures
            r is Ok,
            final(self).root_url.is_some() && final(self).root_url.unwrap()@ == filled(
                old(self).root_url,
                "https://oss-api.k36588.info"@,
            ),
            final(self).otp_path.is_some() && final(self).otp_path.unwrap()@ == filled(
                old(self).otp_path,
                "v0/ap/otp"@,
            ),
            final(self).ap_token_path.is_some() && final(self).ap_token_path.unwrap()@ == filled(
                old(self).ap_token_path,
                "v0/ap/ap_token"@,
            ),
            final(self).hcs_path.is_some() && final(self).hcs_path.unwrap()@ == filled(
                old(self).hcs_path,
                "v0/hcs/pair"@,
            ),
            final(self).ap_hcs_path.is_some() && final(self).ap_hcs_path.unwrap()@ == filled(
                old(self).ap_hcs_path,
                "v0/ap/hcs"@,
            ),
            final(self).ap_info_path.is_some() && final(self).ap_info_path.unwrap()@ == filled(
                old(self).ap_info_path,
                "v0/ap/info"@,
            ),
    {
        let def = RuleConfigBoss::default();
        fill(&mut self.root_url, take_set(def.root_url));
        fill(&mut self.otp_path, take_set(def.otp_path));
        fill(&mut self.ap_token_path, take_set(def.ap_token_path));
        fill(&mut self.hcs_path, take_set(def.hcs_path));
        fill(&mut self.ap_hcs_path, take_set(def.ap_hcs_path));
        fill(&mut self.ap_info_path, take_set(def.ap_info_path));
        Ok(())
    }
}

/// A local topic and the program that handles it.
#[derive(Debug, Clone)]
pub struct RuleConfigSubscribe {
    pub topic: String,
    pub path: String,
}

/// The bootstrap credential and template of fleet provisioning.
#[derive(Debug, Clone)]
pub struct RuleAwsIotProvisionConfig {
    pub ca: String,
    pub cert: String,
    pub private: String,
    pub template: String,
    pub thing_prefix: String,
}

impl Default for RuleAwsIotProvisionConfig {
    fn default() -> (r: Self)
        ensures
            r.ca@ == "/etc/fika_manager/AmazonRootCA1.pem"@,
            r.cert@ == "/etc/fika_manager/bootstrap-inactive.certificate.pem"@,
            r.private@ == "/etc/fika_manager/bootstrap-inactive.private.key"@,
            r.template@ == "LongDongPreHookReal"@,
            r.thing_prefix@ == "LD2"@,
    {
        RuleAwsIotProvisionConfig {
            ca: copy_str("/etc/fika_manager/AmazonRootCA1.pem"),
            cert: copy_str("/etc/fika_manager/bootstrap-inactive.certificate.pem"),
            private: copy_str("/etc/fika_manager/bootstrap-inactive.private.key"),
            template: copy_str("LongDongPreHookReal"),
            thing_prefix: copy_str("LD2"),
        }
    }
}

impl RuleAwsIotProvisionConfig {
    /// `{thing_prefix}_{extra}`.
    pub fn generate_thing_name(&self, extra: &str) -> (r: Option<String>)
        ensures
            r.is_some() && r.unwrap()@ == self.thing_prefix@ + "_"@ + extra@,
    {
        let mut r = copy_str(self.thing_prefix.as_str());
        r.append("_");
        r.append(extra);
        Some(r)
    }
}

/// The device's own credential and its shadow settings.
#[derive(Debug, Clone)]
pub struct RuleAwsIotDedicatedConfig {
    pub cert: String,
    pub private: String,
    pub ca: String,
    pub thing: Option<String>,
    pub pull_topic: Option<Vec<String>>,
}

impl Default for RuleAwsIotDedicatedConfig {
    fn default() -> (r: Self)
        ensures
            r.ca@ == "/etc/fika_manager/AmazonRootCA1.pem"@,
            r.cert@ == "/userdata/production.certificate.pem"@,
            r.private@ == "/userdata/production.private-key.pem"@,
            r.thing.is_none(),
            r.pull_topic.is_none(),
    {
        RuleAwsIotDedicatedConfig {
            ca: copy_str("/etc/fika_manager/AmazonRootCA1.pem"),
            cert: copy_str("/userdata/production.certificate.pem"),
            private: copy_str("/userdata/production.private-key.pem"),
            thing: None,
            pull_topic: None,
        }
    }
}

impl RuleAwsIotDedicatedConfig {
    /// Checks the credential's files, given what the file system says of the
    /// files at `cert`, `private` and `ca`.
    pub fn config_verify(&self, cert: FileStat, private: FileStat, ca: FileStat) -> (r: Result<
        (),
        VerifyError,
    >)
        ensures
            r == verify_outcome(cert, private, ca),
    {
        verify_credential_files(cert, private, ca)
    }
}

/// Unicode lower-casing of a string, as `str::to_lowercase` does it.
pub uninterp spec fn lower_of(s: Seq<char>) -> Seq<char>;

/// Relies on `str::to_lowercase`: the result depends on the characters alone.
#[verifier::external_body]
fn lowercase(s: &str) -> (r: String)
    ensures
        r@ == lower_of(s@),
{
    s.to_lowercase()
}

/// A character from `A`-`Z`, `a`-`z` or `0`-`9`.
pub open spec fn is_alphanumeric(c: char) -> bool {
    ('A' <= c && c <= 'Z') || ('a' <= c && c <= 'z') || ('0' <= c && c <= '9')
}

/// Relies on `fastrand::alphanumeric`, which picks one character of
/// `A-Za-z0-9` at random.
#[verifier::external_body]
fn random_alphanumeric() -> (c: char)
    ensures
        is_alphanumeric(c),
{
    fastrand::alphanumeric()
}

/// The broker section of the rule file.
#[derive(Debug, Clone)]
pub struct RuleAwsIotConfig {
    pub root_url: Option<String>,
    pub device_path: Option<String>,
    pub endpoint: Option<String>,
    pub port: Option<u32>,
    pub provision: Option<RuleAwsIotProvisionConfig>,
    pub dedicated: RuleAwsIotDedicatedConfig,
}

impl Default for RuleAwsIotConfig {
    fn default() -> (r: Self)
        ensures
            r.endpoint.is_some() && r.endpoint.unwrap()@
                == "a2dl0okey4lms3-ats.iot.ap-northeast-1.amazonaws.com"@,
            r.port == Some(8883u32),
            r.root_url.is_some() && r.root_url.unwrap()@
                == "https://i76cqmiru3.execute-api.ap-northeast-1.amazonaws.com"@,
            r.device_path.is_some() && r.device_path.unwrap()@ == "prod/api/v1/devices"@,
            r.provision.is_none(),
            r.dedicated.cert@ == "/userdata/production.certificate.pem"@,
            r.dedicated.thing.is_none(),
    {
        RuleAwsIotConfig {
            endpoint: Some(copy_str("a2dl0okey4lms3-ats.iot.ap-northeast-1.amazonaws.com")),
            port: Some(8883),
            root_url: Some(copy_str("https://i76cqmiru3.execute-api.ap-northeast-1.amazonaws.com")),
            device_path: Some(copy_str("prod/api/v1/devices")),
            provision: None,
            dedicated: RuleAwsIotDedicatedConfig::default(),
        }
    }
}

/// The broker identity of the device, given the postfix already lower-cased:
/// the configured thing name where there is one, else `{prefix}_{lowered}`
/// with the colons removed, the prefix being the provisioning thing prefix or
/// `Fake`.
pub open spec fn thing_name_from(cfg: RuleAwsIotConfig, lowered: Seq<char>) -> Seq<char> {
    match cfg.dedicated.thing {
        Some(t) => t@,
        None => {
            let prefix = match cfg.provision {
                Some(p) => p.thing_prefix@,
                None => "Fake"@,
            };
            prefix + "_"@ + without_char(lowered, ':')
        },
    }
}

/// The broker identity of the device for a postfix (a MAC address).
pub open spec fn thing_name_of(cfg: RuleAwsIotConfig, postfix: Seq<char>) -> Seq<char> {
    thing_name_from(cfg, lower_of(postfix))
}

impl RuleAwsIotConfig {
    /// Fills the URLs, the endpoint and the port from the defaults where
    /// they are not set.
    pub fn mirrow_default(&mut self) -> (r: Result<(), ConfigError>)
        ensures
            r is Ok,
            final(self).root_url.is_some() && final(self).root_url.unwrap()@ == filled(
                old(self).root_url,
                "https://i76cqmiru3.execute-api.ap-northeast-1.amazonaws.com"@,
            ),
            final(self).device_path.is_some() && final(self).device_path.unwrap()@ == filled(
                old(self).device_path,
                "prod/api/v1/devices"@,
            ),
            final(self).endpoint.is_some() && final(self).endpoint.unwrap()@ == filled(
                old(self).endpoint,
                "a2dl0okey4lms3-ats.iot.ap-northeast-1.amazonaws.com"@,
            ),
            final(self).port == if old(self).port.is_some() {
                old(self).port
            } else {
                Some(8883u32)
            },
            final(self).provision == old(self).provision,
            final(self).dedicated == old(self).dedicated,
    {
        let def = RuleAwsIotConfig::default();
        fill(&mut self.root_url, take_set(def.root_url));
        fill(&mut self.device_path, take_set(def.device_path));
        fill(&mut self.endpoint, take_set(def.endpoint));
        if self.port.is_none() {
            self.port = def.port;
        }
        Ok(())
    }

    /// Checks that the endpoint and port are set, then the dedicated
    /// credential's files, given what the file system says of them.
    pub fn config_verify(&self, cert: FileStat, private: FileStat, ca: FileStat) -> (r: Result<
        (),
        ConfigError,
    >)
        ensures
            r == if self.endpoint.is_none() {
                Err(ConfigError::EndpointMissing)
            } else if self.port.is_none() {
                Err(ConfigError::PortMissing)
            } else {
                match verify_outcome(cert, private, ca) {
                    Ok(_) => Ok::<(), ConfigError>(()),
                    Err(e) => Err(ConfigError::Credential(e)),
                }
            },
    {
        if self.endpoint.is_none() {
            return Err(ConfigError::EndpointMissing);
        }
        if self.port.is_none() {
            return Err(ConfigError::PortMissing);
        }
        match self.dedicated.config_verify(cert, private, ca) {
            Ok(_) => Ok(()),
            Err(e) => Err(ConfigError::Credential(e)),
        }
    }

    /// The device's broker identity (see `thing_name_of`).
    pub fn thing_name(&self, postfix: &str) -> (r: Result<String, ConfigError>)
        ensures
            r matches Ok(t) && t@ == thing_name_of(*self, postfix@),
    {
        let low = lowercase(postfix);
        Ok(self.thing_name_lowered(low.as_str()))
    }

    /// The device's broker identity from the lower-cased postfix (see
    /// `thing_name_from`).
    pub fn thing_name_lowered(&self, lowered: &str) -> (r: String)
        ensures
            r@ == thing_name_from(*self, lowered@),
    {
        match &self.dedicated.thing {
            Some(t) => copy_str(t.as_str()),
            None => {
                let mut r = match &self.provision {
                    Some(p) => copy_str(p.thing_prefix.as_str()),
                    None => copy_str("Fake"),
                };
                r.append("_");
                let bare = remove_char(lowered, ':');
                r.append(bare.as_str());
                r
            },
        }
    }

    /// A random client id of five characters from `A-Za-z0-9`.
    pub fn client_id(&self) -> (r: Result<String, ConfigError>)
        ensures
            r matches Ok(id) && id@.len() == 5 && forall|i: int|
                0 <= i < 5 ==> is_alphanumeric(#[trigger] id@[i]),
    {
        let mut drawn: Vec<char> = Vec::new();
        let mut k: usize = 0;
        while k < 5
            invariant
                k <= 5,
                drawn@.len() == k,
                forall|i: int| 0 <= i < k ==> is_alphanumeric(#[trigger] drawn@[i]),
            decreases 5 - k,
        {
            drawn.push(random_alphanumeric());
            k = k + 1;
        }
        Ok(client_id_from(&drawn))
    }
}

/// The client id made of the drawn characters, in the order drawn.
pub fn client_id_from(drawn: &Vec<char>) -> (r: String)
    ensures
        r@ == drawn@,
{
    let mut r = String::new();
    let mut k: usize = 0;
    while k < drawn.len()
        invariant
            k <= drawn@.len(),
            r@ == drawn@.subrange(0, k as int),
        decreases drawn@.len() - k,
    {
        r.push(drawn[k]);
        proof {
            assert(drawn@.subrange(0, k + 1) == drawn@.subrange(0, k as int).push(drawn@[k as int]));
        }
        k = k + 1;
    }
    assert(drawn@.subrange(0, drawn@.len() as int) == drawn@);
    r
}

} // verus!
