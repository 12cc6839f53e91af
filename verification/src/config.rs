//! Configuration snapshots and the connection settings derived from them,
//! plus the cross-task facts broadcast as immutable events.

use vstd::prelude::*;
use crate::container::Envs;

verus! {

/// The network a node participates in.
#[derive(Clone, Copy, PartialEq, Eq, Structural, Debug)]
pub enum TariNetwork {
    MainNet,
    StageNet,
    NextNet,
}

impl TariNetwork {
    /// The network's lower-case name, as used in paths and environments.
    pub fn lower_case(&self) -> (r: &'static str)
        ensures
            *self == TariNetwork::MainNet ==> r@ == "mainnet"@,
            *self == TariNetwork::StageNet ==> r@ == "stagenet"@,
            *self == TariNetwork::NextNet ==> r@ == "nextnet"@,
    {
        match self {
            TariNetwork::MainNet => "mainnet",
            TariNetwork::StageNet => "stagenet",
            TariNetwork::NextNet => "nextnet",
        }
    }
}

/// Per-session switches a user may flip from the dashboard.
#[derive(Clone, Copy, PartialEq, Eq, Structural, Debug)]
pub struct SessionConfig {
    pub wallet_active: bool,
}

impl SessionConfig {
    pub fn is_wallet_active(&self) -> (r: bool)
        ensures
            r == self.wallet_active,
    {
        self.wallet_active
    }
}

/// Immutable snapshot of the user's current settings; never mutated in
/// place.
pub struct LaunchpadConfig {
    pub tari_network: TariNetwork,
    pub with_monitoring: bool,
    pub session: SessionConfig,
    pub tor_password: String,
    pub wallet_password: String,
    pub data_directory: String,
}

/// Connection settings an image keeps from the last accepted snapshot.
pub struct ConnectionSettings {
    pub tari_network: TariNetwork,
    pub tor_password: String,
    pub wallet_password: String,
    pub data_directory: String,
}

/// The settings carry exactly the connection-relevant facts of the
/// snapshot.
pub open spec fn settings_match(s: ConnectionSettings, c: LaunchpadConfig) -> bool {
    &&& s.tari_network == c.tari_network
    &&& s.tor_password@ == c.tor_password@
    &&& s.wallet_password@ == c.wallet_password@
    &&& s.data_directory@ == c.data_directory@
}

impl ConnectionSettings {
    /// Copies the connection-relevant facts out of a snapshot.
    pub fn from_config(c: &LaunchpadConfig) -> (r: ConnectionSettings)
        ensures
            settings_match(r, *c),
    {
        ConnectionSettings {
            tari_network: c.tari_network,
            tor_password: c.tor_password.clone(),
            wallet_password: c.wallet_password.clone(),
            data_directory: c.data_directory.clone(),
        }
    }

    /// Environment entries every image shares.
    pub fn add_common(&self, envs: &mut Envs)
        ensures
            final(envs)@ == old(envs)@.push(
                ("TARI_NETWORK"@, self.tari_network.spec_lower_case()),
            ).push(("DATA_FOLDER"@, self.data_directory@)),
    {
        envs.set("TARI_NETWORK", String::from_str(self.tari_network.lower_case()));
        envs.set("DATA_FOLDER", self.data_directory.clone());
    }

    /// Environment entries of images that reach the network through the
    /// anonymizing proxy.
    pub fn add_tor(&self, envs: &mut Envs)
        ensures
            final(envs)@ == old(envs)@.push(("TARI_BASE_NODE__P2P__TRANSPORT__TYPE"@, "tor"@)),
    {
        envs.set("TARI_BASE_NODE__P2P__TRANSPORT__TYPE", String::from_str("tor"));
    }
}

impl TariNetwork {
    /// The name `lower_case` returns, at the specification level.
    pub open spec fn spec_lower_case(&self) -> Seq<char> {
        match self {
            TariNetwork::MainNet => "mainnet"@,
            TariNetwork::StageNet => "stagenet"@,
            TariNetwork::NextNet => "nextnet"@,
        }
    }
}

/// Identity facts of the base node, broadcast once discovered.
pub struct BaseNodeIdentity {
    pub public_key: Vec<u8>,
    pub public_address: String,
}

/// Identity facts of the wallet, broadcast once discovered.
pub struct WalletIdentity {
    pub public_key: Vec<u8>,
    pub public_address: String,
}

/// Cross-task fact broadcast as an immutable event payload; each recipient
/// keeps its own copy.
pub enum InnerEvent {
    IdentityReady(BaseNodeIdentity),
    WalletIdentityReady(WalletIdentity),
}

} // verus!
