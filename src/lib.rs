//! Device-side bridge between a cloud IoT broker's shadow documents and a
//! local state store: provisioning, topic mapping, version deduplication and
//! the reconnect policy, as verified functions over plain values.
pub mod text;
pub mod topic;
pub mod json;
pub mod command;
pub mod shadow;
pub mod credential;
pub mod retry;
pub mod provision;
pub mod config;
pub mod web;

pub use command::{AwsIotCmd, IpcError, IpcMessage, SubscribeCmd};
pub use config::{
    ConfigError, KAwsConfig, KBossConfig, KCoreConfig, KNetworkConfig, KPorConfig, KdaemonConfig,
    RuleAwsIotConfig, RuleAwsIotDedicatedConfig, RuleAwsIotProvisionConfig, RuleConfigBoss,
    RuleConfigCore, RuleConfigSubscribe,
};
pub use credential::{AwsIotKeyCertificate, FileStat, UtcTime};
pub use web::{CurlError, CurlKV};
