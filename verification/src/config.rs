//! The configuration: what the daemon is told on start.

use vstd::prelude::*;
use crate::providers::google_cloud::GcpArgs;

verus! {

/// What the daemon is configured with.
#[derive(Debug, PartialEq, Eq)]
pub struct Config {
    /// The provider's project.
    pub project: String,
    /// The zone that holds the record.
    pub zone: String,
    /// The record's name.
    pub name: String,
    /// Push the address even where it has not changed.
    pub force: bool,
    /// The seconds to wait between cycles. `None`: run one cycle and stop.
    pub interval: Option<u64>,
    /// Report more than warnings.
    pub verbose: bool,
}

/// What a [`Config`] stands for.
pub struct ConfigView {
    pub project: Seq<char>,
    pub zone: Seq<char>,
    pub name: Seq<char>,
    pub force: bool,
    pub interval: Option<u64>,
    pub verbose: bool,
}

impl View for Config {
    type V = ConfigView;

    open spec fn view(&self) -> ConfigView {
        ConfigView {
            project: self.project@,
            zone: self.zone@,
            name: self.name@,
            force: self.force,
            interval: self.interval,
            verbose: self.verbose,
        }
    }
}

impl Config {
    /// What the Cloud DNS client is configured with: this configuration's
    /// project, zone and record name, and the key file at `auth_file`.
    pub fn gcp_args(&self, auth_file: &str) -> (r: GcpArgs)
        ensures
            r.auth_file@ == auth_file@,
            r.project@ == self@.project,
            r.zone@ == self@.zone,
            r.hostname@ == self@.name,
    {
        GcpArgs {
            auth_file: auth_file.to_owned(),
            project: self.project.clone(),
            zone: self.zone.clone(),
            hostname: self.name.clone(),
        }
    }
}

impl Clone for Config {
    fn clone(&self) -> (r: Self)
        ensures
            r@ == self@,
    {
        Config {
            project: self.project.clone(),
            zone: self.zone.clone(),
            name: self.name.clone(),
            force: self.force,
            interval: self.interval,
            verbose: self.verbose,
        }
    }
}

} // verus!
