use fika_manager::{
    ConfigError, FileStat, KBossConfig, KCoreConfig, KNetworkConfig, KPorConfig, KdaemonConfig,
    RuleAwsIotConfig, RuleAwsIotDedicatedConfig, RuleAwsIotProvisionConfig, RuleConfigBoss,
    RuleConfigCore,
};
use fika_manager::credential::{CredentialFile, VerifyError};

const OK: FileStat = FileStat::Present { is_dir: false, len: 10 };

fn core_section(wallet: Option<&str>) -> KCoreConfig {
    KCoreConfig {
        wallet_address: wallet.map(|w| w.to_string()),
        mac_address: "AA:BB".to_string(),
        serial_number: "SN1".to_string(),
        sku: "S".to_string(),
        user_wallet: None,
    }
}

fn daemon(wallet: Option<&str>) -> KdaemonConfig {
    KdaemonConfig {
        core: core_section(wallet),
        network: KNetworkConfig {
            wan_type: 0,
            wan_username: None,
            wan_password: None,
            wifi_ssid: None,
            wifi_password: None,
            password_overwrite: None,
        },
        por: KPorConfig { state: false, nickname: None },
        boss: KBossConfig { access_token: None, ap_access_token: None },
        aws: None,
    }
}

#[test]
fn core_section_needs_wallet() {
    assert_eq!(core_section(Some("0xabc")).config_verify(), Ok(()));
    assert_eq!(core_section(None).config_verify(), Err(ConfigError::WalletMissing));
    assert_eq!(daemon(Some("0xabc")).config_verify(), Ok(()));
    assert_eq!(daemon(None).config_verify(), Err(ConfigError::WalletMissing));
}

#[test]
fn core_rule_defaults_fill_database() {
    let mut c = RuleConfigCore { thirdparty: "x".to_string(), database: None, config: "c".to_string() };
    assert!(c.mirrow_default().is_ok());
    assert_eq!(c.database.as_deref(), Some("redis://127.0.0.1:6379"));
    assert_eq!(c.thirdparty, "x");
    let mut d = RuleConfigCore { thirdparty: "x".to_string(), database: Some("redis://h".to_string()), config: "c".to_string() };
    assert!(d.mirrow_default().is_ok());
    assert_eq!(d.database.as_deref(), Some("redis://h"));
    let def = RuleConfigCore::default();
    assert_eq!(def.config, "/userdata/kdaemon.toml");
}

#[test]
fn boss_rule_defaults_fill_paths() {
    let mut b = RuleConfigBoss {
        root_url: Some("https://example".to_string()),
        otp_path: None,
        ap_token_path: None,
        hcs_path: None,
        ap_hcs_path: None,
        ap_info_path: None,
    };
    assert!(b.mirrow_default().is_ok());
    assert_eq!(b.root_url.as_deref(), Some("https://example"));
    assert_eq!(b.otp_path.as_deref(), Some("v0/ap/otp"));
    assert_eq!(b.ap_token_path.as_deref(), Some("v0/ap/ap_token"));
    assert_eq!(b.hcs_path.as_deref(), Some("v0/hcs/pair"));
    assert_eq!(b.ap_hcs_path.as_deref(), Some("v0/ap/hcs"));
    assert_eq!(b.ap_info_path.as_deref(), Some("v0/ap/info"));
}

#[test]
fn thing_name_from_prefix_and_mac() {
    let mut aws = RuleAwsIotConfig::default();
    assert_eq!(aws.thing_name("A1:B2:C3").unwrap(), "Fake_a1b2c3");
    aws.provision = Some(RuleAwsIotProvisionConfig::default());
    assert_eq!(aws.thing_name("A1:B2:C3").unwrap(), "LD2_a1b2c3");
    aws.dedicated.thing = Some("explicit".to_string());
    assert_eq!(aws.thing_name("A1:B2:C3").unwrap(), "explicit");
}

#[test]
fn generated_thing_name() {
    let p = RuleAwsIotProvisionConfig::default();
    assert_eq!(p.generate_thing_name("xyz"), Some("LD2_xyz".to_string()));
}

#[test]
fn client_id_is_five_alphanumerics() {
    let id = RuleAwsIotConfig::default().client_id().unwrap();
    assert_eq!(id.chars().count(), 5);
    assert!(id.chars().all(|c| c.is_ascii_alphanumeric()));
}

#[test]
fn broker_rule_defaults_and_checks() {
    let mut aws = RuleAwsIotConfig::default();
    aws.endpoint = None;
    aws.port = None;
    assert_eq!(aws.config_verify(OK, OK, OK), Err(ConfigError::EndpointMissing));
    aws.endpoint = Some("e".to_string());
    assert_eq!(aws.config_verify(OK, OK, OK), Err(ConfigError::PortMissing));
    assert!(aws.mirrow_default().is_ok());
    assert_eq!(aws.port, Some(8883));
    assert_eq!(aws.endpoint.as_deref(), Some("e"));
    assert_eq!(aws.config_verify(OK, OK, OK), Ok(()));
    assert_eq!(
        aws.config_verify(OK, FileStat::Missing, OK),
        Err(ConfigError::Credential(VerifyError::MissingFile(CredentialFile::PrivateKey)))
    );
    let d = RuleAwsIotDedicatedConfig::default();
    assert_eq!(d.private, "/userdata/production.private-key.pem");
    assert_eq!(d.config_verify(OK, OK, FileStat::Missing), Err(VerifyError::MissingFile(CredentialFile::Ca)));
}

#[test]
fn thing_name_from_lowered_postfix() {
    let mut aws = RuleAwsIotConfig::default();
    assert_eq!(aws.thing_name_lowered("a1:b2:c3"), "Fake_a1b2c3");
    aws.provision = Some(RuleAwsIotProvisionConfig::default());
    assert_eq!(aws.thing_name_lowered(":x:"), "LD2_x");
}

#[test]
fn client_id_keeps_drawn_characters() {
    let drawn = vec!['a', 'Z', '0', 'q', '9'];
    assert_eq!(fika_manager::config::client_id_from(&drawn), "aZ0q9");
    assert_eq!(fika_manager::config::client_id_from(&Vec::new()), "");
}
