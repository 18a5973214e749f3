//! Which worker is live: the configuration it was spawned with and its
//! generation. A provider switch (or a change of that provider's own
//! settings) respawns the worker under a new generation, and results
//! stamped with an older generation are dropped rather than applied.

use vstd::prelude::*;

use super::Provider;
use crate::config::Config;

verus! {

/// The part of `Config` that a worker is spawned with.
pub struct SpawnKey {
    pub provider: Provider,
    pub bw_path: String,
    pub uri_prefix: String,
    pub keepass_path: String,
}

/// `key` is what a worker spawned from `cfg` holds.
pub open spec fn spawned_from(key: SpawnKey, cfg: Config) -> bool {
    &&& key.provider == cfg.provider
    &&& key.bw_path@ == cfg.bw_path@
    &&& key.uri_prefix@ == cfg.uri_prefix@
    &&& key.keepass_path@ == cfg.keepass_path@
}

impl SpawnKey {
    pub fn from_config(cfg: &Config) -> (k: Self)
        ensures
            spawned_from(k, *cfg),
    {
        SpawnKey {
            provider: cfg.provider,
            bw_path: cfg.bw_path.clone(),
            uri_prefix: cfg.uri_prefix.clone(),
            keepass_path: cfg.keepass_path.clone(),
        }
    }

    fn matches(&self, cfg: &Config) -> (b: bool)
        ensures
            b == spawned_from(*self, *cfg),
    {
        let same_provider = match (self.provider, cfg.provider) {
            (Provider::Bitwarden, Provider::Bitwarden) => true,
            (Provider::KeePass, Provider::KeePass) => true,
            _ => false,
        };
        same_provider && self.bw_path == cfg.bw_path && self.uri_prefix == cfg.uri_prefix
            && self.keepass_path == cfg.keepass_path
    }
}

/// The live worker's generation and spawn configuration.
pub struct WorkerState {
    pub generation: u64,
    pub spawned_with: SpawnKey,
}

impl WorkerState {
    /// The first worker, spawned from `cfg` at generation `0`.
    pub fn new(cfg: &Config) -> (s: Self)
        ensures
            s.generation == 0,
            spawned_from(s.spawned_with, *cfg),
    {
        WorkerState { generation: 0, spawned_with: SpawnKey::from_config(cfg) }
    }

    /// True if the live worker no longer matches `cfg`.
    pub fn needs_respawn(&self, cfg: &Config) -> (b: bool)
        ensures
            b == !spawned_from(self.spawned_with, *cfg),
    {
        !self.spawned_with.matches(cfg)
    }

    /// Records that a fresh worker was spawned from `cfg`.
    pub fn respawn(&mut self, cfg: &Config)
        requires
            old(self).generation < u64::MAX,
        ensures
            final(self).generation == old(self).generation + 1,
            spawned_from(final(self).spawned_with, *cfg),
    {
        self.generation = self.generation + 1;
        self.spawned_with = SpawnKey::from_config(cfg);
    }

    pub fn provider(&self) -> (p: Provider)
        ensures
            p == self.spawned_with.provider,
    {
        self.spawned_with.provider
    }

    /// Whether a result stamped `generation` belongs to the live worker.
    pub fn accepts(&self, generation: u64) -> (b: bool)
        ensures
            b == (generation == self.generation),
    {
        generation == self.generation
    }
}

/// After a respawn, no result from a worker spawned before it is
/// accepted, and the new worker matches the configuration it was spawned
/// from.
pub proof fn lemma_respawn_retires_older_workers(
    before: WorkerState,
    after: WorkerState,
    cfg: Config,
    stamped: u64,
)
    requires
        after.generation == before.generation + 1,
        spawned_from(after.spawned_with, cfg),
        stamped <= before.generation,
    ensures
        stamped != after.generation,
        spawned_from(after.spawned_with, cfg),
{
}

} // verus!
