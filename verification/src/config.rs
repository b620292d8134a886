use vstd::prelude::*;

verus! {

/// The settings of the service.
#[derive(Clone, Debug)]
pub struct ConsensusConfig {
    pub network_port: u16,
    pub consensus_port: u16,
    pub controller_port: u16,
    /// Seconds between two attempts to reach another service.
    pub server_retry_interval: u64,
    /// The directory of the write ahead log.
    pub wal_path: String,
    pub enable_metrics: bool,
    pub metrics_port: u16,
}

pub struct ConfigView {
    pub network_port: u16,
    pub consensus_port: u16,
    pub controller_port: u16,
    pub server_retry_interval: u64,
    pub wal_path: Seq<char>,
    pub enable_metrics: bool,
    pub metrics_port: u16,
}

impl View for ConsensusConfig {
    type V = ConfigView;

    open spec fn view(&self) -> ConfigView {
        ConfigView {
            network_port: self.network_port,
            consensus_port: self.consensus_port,
            controller_port: self.controller_port,
            server_retry_interval: self.server_retry_interval,
            wal_path: self.wal_path@,
            enable_metrics: self.enable_metrics,
            metrics_port: self.metrics_port,
        }
    }
}

impl Default for ConsensusConfig {
    fn default() -> (config: Self)
        ensures
            config@ == (ConfigView {
                network_port: 50000,
                consensus_port: 50001,
                controller_port: 50004,
                server_retry_interval: 1,
                wal_path: "overlord_wal"@,
                enable_metrics: true,
                metrics_port: 60001,
            }),
    {
        ConsensusConfig {
            network_port: 50000,
            consensus_port: 50001,
            controller_port: 50004,
            server_retry_interval: 1,
            wal_path: "overlord_wal".to_string(),
            enable_metrics: true,
            metrics_port: 60001,
        }
    }
}

} // verus!
