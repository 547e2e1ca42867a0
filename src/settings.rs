//! Worker settings, and the defaults filled in where optional ones are absent.
use vstd::prelude::*;
use vstd::string::*;

use crate::router::ConfiguredBackends;

verus! {

#[derive(Clone, Debug)]
pub struct Settings {
    pub database: DatabaseSettings,
    pub redis: RedisSettings,
    pub queues: QueueSettings,
    pub integrations: IntegrationSettings,
    pub clickhouse: Option<ClickhouseSettings>,
    pub object_store: Option<ObjectStoreSettings>,
}

#[derive(Clone, Debug)]
pub struct DatabaseSettings {
    pub url: String,
}

#[derive(Clone, Debug)]
pub struct RedisSettings {
    pub url: String,
    pub queue_key: String,
    pub dlq_key: String,
}

#[derive(Clone, Copy, Debug)]
pub struct QueueSettings {
    pub max_parallel_jobs: u32,
    pub max_parallel_gpu_jobs: u32,
    pub max_gpus_total: u32,
}

#[derive(Clone, Debug)]
pub struct IntegrationSettings {
    pub third_party_root: String,
}

#[derive(Clone, Debug)]
pub struct ClickhouseSettings {
    pub url: String,
    pub database: String,
    pub username: Option<String>,
    pub password: Option<String>,
    pub samples_table: String,
    pub metrics_table: String,
}

#[derive(Clone, Debug)]
pub struct ObjectStoreSettings {
    pub endpoint: String,
    pub region: Option<String>,
    pub bucket: String,
    pub access_key: String,
    pub secret_key: String,
    pub use_path_style: bool,
}

/// `value`'s text if it is set, else `default`.
pub open spec fn text_or(value: Option<String>, default: Seq<char>) -> Seq<char> {
    match value {
        Some(v) => v@,
        None => default,
    }
}

impl Settings {
    /// The optional backends are configured exactly when their settings are
    /// present.
    pub fn configured_backends(&self) -> (r: ConfiguredBackends)
        ensures
            r.analytics == self.clickhouse is Some,
            r.object_store == self.object_store is Some,
    {
        ConfiguredBackends {
            analytics: self.clickhouse.is_some(),
            object_store: self.object_store.is_some(),
        }
    }
}

impl ClickhouseSettings {
    /// The user to connect as: `default` unless one is set.
    pub fn user(&self) -> (r: String)
        ensures
            r@ == text_or(self.username, "default"@),
    {
        match &self.username {
            Some(u) => u.clone(),
            None => String::from_str("default"),
        }
    }

    /// The password to connect with: empty unless one is set.
    pub fn password_or_empty(&self) -> (r: String)
        ensures
            r@ == text_or(self.password, Seq::empty()),
    {
        match &self.password {
            Some(p) => p.clone(),
            None => String::new(),
        }
    }
}

impl ObjectStoreSettings {
    /// The region to address: `us-east-1` unless one is set.
    pub fn region_name(&self) -> (r: String)
        ensures
            r@ == text_or(self.region, "us-east-1"@),
    {
        match &self.region {
            Some(r) => r.clone(),
            None => String::from_str("us-east-1"),
        }
    }
}

} // verus!
