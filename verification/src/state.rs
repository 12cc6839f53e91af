//! The dashboard-facing application state: onboarding progress and mining
//! figures, updated only through explicit deltas.

use vstd::prelude::*;

verus! {

/// Messages shown during onboarding, newest last.
pub struct Onboarding {
    pub messages: Vec<String>,
}

impl Default for Onboarding {
    fn default() -> (r: Onboarding)
        ensures
            r.messages@ == Seq::<String>::empty(),
    {
        Onboarding { messages: Vec::new() }
    }
}

/// Mining figures of the node's own chain.  Amounts are in whole units.
pub struct TariMiningInfo {
    pub mining_started: Option<u64>,
    pub tari_amount: u64,
}

/// Mining figures of the merged chain.  The auxiliary amount is kept in
/// tenths so the state stays integral.
pub struct MergedMiningInfo {
    pub mining_started: Option<u64>,
    pub tari_amount: u64,
    pub monero_amount_tenths: u64,
}

/// Actions a user can request; nothing beyond the neutral action exists
/// yet.
#[derive(Clone, Copy, PartialEq, Eq, Structural, Debug)]
pub enum LaunchpadAction {
    Nothing,
}

/// Deltas applied to the state; nothing beyond the neutral delta exists
/// yet.
#[derive(Clone, Copy, PartialEq, Eq, Structural, Debug)]
pub enum LaunchpadDelta {
    Nothing,
}

/// The state the dashboard renders.
pub struct LaunchpadState {
    pub onboarding: Onboarding,
    pub tari_mining: TariMiningInfo,
    pub merged_mining: MergedMiningInfo,
}

impl LaunchpadState {
    pub fn new() -> (r: LaunchpadState)
        ensures
            r.onboarding.messages@ == Seq::<String>::empty(),
            r.tari_mining.mining_started is None,
            r.tari_mining.tari_amount == 123456,
            r.merged_mining.mining_started is None,
            r.merged_mining.tari_amount == 45000,
            r.merged_mining.monero_amount_tenths == 35,
    {
        let tari_mining = TariMiningInfo { mining_started: None, tari_amount: 123456 };
        let merged_mining = MergedMiningInfo {
            mining_started: None,
            tari_amount: 45000,
            monero_amount_tenths: 35,
        };
        let onboarding = Onboarding::default();
        LaunchpadState { onboarding, tari_mining, merged_mining }
    }

    /// Applies one delta; with no delta kinds defined, the state never
    /// changes.
    pub fn update(&mut self, delta: LaunchpadDelta)
        ensures
            *final(self) == *old(self),
    {
        match delta {
            LaunchpadDelta::Nothing => {},
        }
    }
}

} // verus!
