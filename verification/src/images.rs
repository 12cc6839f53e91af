//! The managed container images: for each service, its identity, its
//! dependencies, its should-run verdict, and the declarative container
//! specification built fresh from the current settings.

use vstd::prelude::*;
use crate::config::BaseNodeIdentity;
use crate::config::ConnectionSettings;
use crate::config::InnerEvent;
use crate::config::LaunchpadConfig;
use crate::config::settings_match;
use crate::container::ArgView;
use crate::container::Args;
use crate::container::ContainerSpec;
use crate::container::Envs;
use crate::container::MountView;
use crate::container::Mounts;
use crate::container::Networks;
use crate::container::Ports;
use crate::container::Volumes;
use crate::graph::TaskDef;
use crate::graph::TaskId;
use crate::graph::deps_closed;
use crate::graph::distinct_ids;
use crate::graph::ids_of;

verus! {

/// Lowercase hexadecimal digit of a value below sixteen.
pub open spec fn hex_digit(n: int) -> char {
    if n == 0 {
        '0'
    } else if n == 1 {
        '1'
    } else if n == 2 {
        '2'
    } else if n == 3 {
        '3'
    } else if n == 4 {
        '4'
    } else if n == 5 {
        '5'
    } else if n == 6 {
        '6'
    } else if n == 7 {
        '7'
    } else if n == 8 {
        '8'
    } else if n == 9 {
        '9'
    } else if n == 10 {
        'a'
    } else if n == 11 {
        'b'
    } else if n == 12 {
        'c'
    } else if n == 13 {
        'd'
    } else if n == 14 {
        'e'
    } else {
        'f'
    }
}

/// Lowercase hexadecimal encoding: two digits for each byte, in order.
pub open spec fn hex_of(bytes: Seq<u8>) -> Seq<char>
    decreases bytes.len(),
{
    if bytes.len() == 0 {
        Seq::empty()
    } else {
        hex_of(bytes.drop_last()) + seq![
            hex_digit(bytes.last() as int / 16),
            hex_digit(bytes.last() as int % 16),
        ]
    }
}

/// Largest byte count the hexadecimal encoder accepts.
pub const MAX_HEX_BYTES: usize = 262144;

/// Relies on `tari_utilities::hex::to_hex`, which writes each byte as two
/// lowercase hexadecimal digits, for inputs no longer than its documented
/// size cap.
#[verifier::external_body]
fn to_hex_string(bytes: &Vec<u8>) -> (r: String)
    requires
        bytes@.len() <= MAX_HEX_BYTES,
    ensures
        r@ == hex_of(bytes@),
{
    tari_utilities::hex::to_hex(bytes.as_slice())
}

/// Relies on `tor_hash_passwd::EncryptedKey::hash_password` and its
/// display form: the salted control-password hash always renders as `16:`,
/// sixteen salt digits, the indicator byte `60`, and forty hash digits —
/// sixty-one characters.  The salt is random, so only the shape is stated.
#[verifier::external_body]
fn hash_control_password(secret: &str) -> (r: String)
    ensures
        r@.len() == 61,
        r@.subrange(0, 3) == "16:"@,
{
    tor_hash_passwd::EncryptedKey::hash_password(secret).to_string()
}

/// Registry most images are pulled from.
pub fn default_registry() -> (r: &'static str)
    ensures
        r@ == "quay.io/tarilabs"@,
{
    "quay.io/tarilabs"
}

/// Registry of the monitoring images.
pub fn grafana_registry() -> (r: &'static str)
    ensures
        r@ == "grafana"@,
{
    "grafana"
}

/// The checker discipline a container type selects.
#[derive(Clone, Copy, PartialEq, Eq, Structural, Debug)]
pub enum CheckerKind {
    /// Subscribe to the log stream and match each line.
    LogDriven,
    /// Probe the service's own control interface on an interval.
    PollDriven,
}

/// The private network task every container attaches to.
pub struct LocalNet {}

impl LocalNet {
    pub fn id() -> (r: TaskId)
        ensures
            r.code == 1,
    {
        TaskId::new(1)
    }
}

/// The shared blockchain volume task.
pub struct SharedVolume {}

impl SharedVolume {
    pub fn id() -> (r: TaskId)
        ensures
            r.code == 2,
    {
        TaskId::new(2)
    }
}

/// The shared monitoring volume task.
pub struct SharedGrafanaVolume {}

impl SharedGrafanaVolume {
    pub fn id() -> (r: TaskId)
        ensures
            r.code == 3,
    {
        TaskId::new(3)
    }
}

/// The base node task other services discover through events.
pub struct TariBaseNode {}

impl TariBaseNode {
    pub fn id() -> (r: TaskId)
        ensures
            r.code == 4,
    {
        TaskId::new(4)
    }
}

/// A named volume whose lifetime the orchestrator manages.
pub trait ManagedVolume: Sized {
    /// The volume's name in the container runtime.
    fn volume_name(&self) -> &'static str;

    /// A volume should exist exactly while a configuration exists; the
    /// verdict is read off the snapshot and the volume itself is left
    /// untouched.
    fn reconfigure(&mut self, config: Option<&LaunchpadConfig>) -> (r: bool)
        ensures
            r == (config is Some),
            *final(self) == *old(self),
    {
        config.is_some()
    }
}

impl ManagedVolume for SharedVolume {
    fn volume_name(&self) -> &'static str {
        "blockchain"
    }
}

impl ManagedVolume for SharedGrafanaVolume {
    fn volume_name(&self) -> &'static str {
        "grafana"
    }
}

/// The fixed arguments the anonymizing proxy always receives.
pub open spec fn tor_args_prefix() -> Seq<ArgView> {
    seq![
        ArgView::Joined("--SocksPort"@, "0.0.0.0:9050"@),
        ArgView::Joined("--ControlPort"@, "0.0.0.0:9051"@),
        ArgView::Joined("--CookieAuthentication"@, "0"@),
        ArgView::Joined("--ClientOnly"@, "1"@),
        ArgView::Joined("--ClientUseIPv6"@, "1"@),
    ]
}

/// The anonymizing proxy image.
pub struct Tor {
    pub settings: Option<ConnectionSettings>,
}

impl Tor {
    pub fn new() -> (r: Tor)
        ensures
            r.settings is None,
    {
        Tor { settings: None }
    }

    pub fn id() -> (r: TaskId)
        ensures
            r.code == 5,
    {
        TaskId::new(5)
    }

    pub fn deps() -> (r: Vec<TaskId>)
        ensures
            r@ == seq![TaskId { code: 1 }, TaskId { code: 2 }],
    {
        let mut r: Vec<TaskId> = Vec::new();
        r.push(LocalNet::id());
        r.push(SharedVolume::id());
        proof {
            assert(r@ =~= seq![TaskId { code: 1 }, TaskId { code: 2 }]);
        }
        r
    }

    pub fn registry(&self) -> (r: &'static str)
        ensures
            r@ == "quay.io/tarilabs"@,
    {
        default_registry()
    }

    pub fn image_name(&self) -> (r: &'static str)
        ensures
            r@ == "tor"@,
    {
        "tor"
    }

    /// Recomputes settings from the snapshot; the proxy should run exactly
    /// when a configuration exists.  Idempotent: the verdict and the
    /// resulting settings depend on the snapshot alone.
    pub fn reconfigure(&mut self, config: Option<&LaunchpadConfig>) -> (r: bool)
        ensures
            r == (config is Some),
            match config {
                Some(c) => final(self).settings matches Some(s) && settings_match(s, *c),
                None => final(self).settings is None,
            },
    {
        match config {
            Some(c) => {
                self.settings = Some(ConnectionSettings::from_config(c));
                true
            },
            None => {
                self.settings = None;
                false
            },
        }
    }

    /// The proxy reports bootstrap progress through its log lines.
    pub fn checker(&mut self) -> (r: CheckerKind)
        ensures
            r == CheckerKind::LogDriven,
            *final(self) == *old(self),
    {
        CheckerKind::LogDriven
    }

    /// Appends the proxy's arguments: the fixed client setup, then the
    /// hashed control password when settings exist, then the torrc flag.
    pub fn args(&self, args: &mut Args)
        ensures
            self.settings is None ==> final(args)@ == old(args)@ + tor_args_prefix() + seq![
                ArgView::Flag("--allow-missing-torrc"@),
            ],
            self.settings is Some ==> exists|h: Seq<char>|
                h.len() == 61 && h.subrange(0, 3) == "16:"@ && final(args)@ == old(args)@
                    + tor_args_prefix() + seq![
                    ArgView::Joined("--HashedControlPassword"@, h),
                    ArgView::Flag("--allow-missing-torrc"@),
                ],
    {
        let ghost before = args@;
        args.set_pair("--SocksPort", String::from_str("0.0.0.0:9050"));
        args.set_pair("--ControlPort", String::from_str("0.0.0.0:9051"));
        args.set_pair("--CookieAuthentication", String::from_str("0"));
        args.set_pair("--ClientOnly", String::from_str("1"));
        args.set_pair("--ClientUseIPv6", String::from_str("1"));
        proof {
            assert(args@ =~= before + tor_args_prefix());
        }
        match &self.settings {
            Some(settings) => {
                let hashed = hash_control_password(settings.tor_password.as_str());
                let ghost h = hashed@;
                args.set_pair("--HashedControlPassword", hashed);
                args.flag("--allow-missing-torrc");
                proof {
                    assert(args@ =~= before + tor_args_prefix() + seq![
                        ArgView::Joined("--HashedControlPassword"@, h),
                        ArgView::Flag("--allow-missing-torrc"@),
                    ]);
                }
            },
            None => {
                args.flag("--allow-missing-torrc");
                proof {
                    assert(args@ =~= before + tor_args_prefix() + seq![
                        ArgView::Flag("--allow-missing-torrc"@),
                    ]);
                }
            },
        }
    }

    /// Appends the common environment when settings exist.
    pub fn envs(&self, envs: &mut Envs)
        ensures
            match self.settings {
                Some(s) => final(envs)@ == old(envs)@.push(
                    ("TARI_NETWORK"@, s.tari_network.spec_lower_case()),
                ).push(("DATA_FOLDER"@, s.data_directory@)),
                None => final(envs)@ == old(envs)@,
            },
    {
        if let Some(settings) = &self.settings {
            settings.add_common(envs);
        }
    }

    pub fn networks(&self, networks: &mut Networks)
        ensures
            final(networks)@ == old(networks)@.push(("tor"@, TaskId { code: 1 })),
    {
        networks.add("tor", LocalNet::id());
    }
}

/// The fixed arguments of the wallet image.
pub open spec fn wallet_args_prefix() -> Seq<ArgView> {
    seq![
        ArgView::Pair("--log-config"@, "/var/tari/config/log4rs.yml"@),
        ArgView::Pair("--seed-words-file"@, "/var/tari/config/seed_words.txt"@),
        ArgView::Flag("--enable-grpc"@),
        ArgView::Flag("-n"@),
    ]
}

/// The wallet image.
pub struct TariWallet {
    pub settings: Option<ConnectionSettings>,
    pub identity: Option<BaseNodeIdentity>,
}

impl TariWallet {
    /// The stored base-node identity stays within the hexadecimal
    /// encoder's size cap.
    pub open spec fn wf(&self) -> bool {
        match self.identity {
            Some(id) => id.public_key@.len() <= MAX_HEX_BYTES,
            None => true,
        }
    }

    pub fn new() -> (r: TariWallet)
        ensures
            r.settings is None,
            r.identity is None,
            r.wf(),
    {
        TariWallet { settings: None, identity: None }
    }

    pub fn id() -> (r: TaskId)
        ensures
            r.code == 6,
    {
        TaskId::new(6)
    }

    pub fn deps() -> (r: Vec<TaskId>)
        ensures
            r@ == seq![TaskId { code: 1 }, TaskId { code: 2 }, TaskId { code: 4 }],
    {
        let mut r: Vec<TaskId> = Vec::new();
        r.push(LocalNet::id());
        r.push(SharedVolume::id());
        r.push(TariBaseNode::id());
        proof {
            assert(r@ =~= seq![TaskId { code: 1 }, TaskId { code: 2 }, TaskId { code: 4 }]);
        }
        r
    }

    pub fn registry(&self) -> (r: &'static str)
        ensures
            r@ == "quay.io/tarilabs"@,
    {
        default_registry()
    }

    pub fn image_name(&self) -> (r: &'static str)
        ensures
            r@ == "tari_wallet"@,
    {
        "tari_wallet"
    }

    /// Recomputes settings from the snapshot; the wallet should run
    /// exactly when a configuration exists.
    pub fn reconfigure(&mut self, config: Option<&LaunchpadConfig>) -> (r: bool)
        requires
            old(self).wf(),
        ensures
            r == (config is Some),
            match config {
                Some(c) => final(self).settings matches Some(s) && settings_match(s, *c),
                None => final(self).settings is None,
            },
            final(self).identity == old(self).identity,
            final(self).wf(),
    {
        match config {
            Some(c) => {
                self.settings = Some(ConnectionSettings::from_config(c));
                true
            },
            None => {
                self.settings = None;
                false
            },
        }
    }

    /// Consumes a broadcast fact: the base node's identity is kept, the
    /// wallet's own identity echo is ignored.
    pub fn on_event(&mut self, event: InnerEvent)
        requires
            old(self).wf(),
            event matches InnerEvent::IdentityReady(id) ==> id.public_key@.len() <= MAX_HEX_BYTES,
        ensures
            match event {
                InnerEvent::IdentityReady(id) => final(self).identity == Some(id)
                    && final(self).settings == old(self).settings,
                InnerEvent::WalletIdentityReady(_) => *final(self) == *old(self),
            },
            final(self).wf(),
    {
        match event {
            InnerEvent::IdentityReady(identity) => {
                self.identity = Some(identity);
            },
            InnerEvent::WalletIdentityReady(_) => {},
        }
    }

    /// The wallet is probed through its own control interface.
    pub fn checker(&mut self) -> (r: CheckerKind)
        ensures
            r == CheckerKind::PollDriven,
            *final(self) == *old(self),
    {
        CheckerKind::PollDriven
    }

    pub fn ports(&self, ports: &mut Ports)
        ensures
            final(ports)@ == old(ports)@.push(18143u16).push(18188u16),
    {
        ports.add(18143);
        ports.add(18188);
    }

    /// Appends the wallet's arguments; once the base node's identity is
    /// known it is pinned as the custom base node, public key in
    /// hexadecimal.
    pub fn args(&self, args: &mut Args)
        requires
            self.wf(),
        ensures
            match self.identity {
                Some(id) => final(args)@ == old(args)@ + wallet_args_prefix() + seq![
                    ArgView::Joined(
                        "-p"@,
                        "wallet.custom_base_node="@ + hex_of(id.public_key@) + "::"@
                            + id.public_address@,
                    ),
                ],
                None => final(args)@ == old(args)@ + wallet_args_prefix(),
            },
    {
        let ghost before = args@;
        args.set("--log-config", "/var/tari/config/log4rs.yml");
        args.set("--seed-words-file", "/var/tari/config/seed_words.txt");
        args.flag("--enable-grpc");
        args.flag("-n");
        proof {
            assert(args@ =~= before + wallet_args_prefix());
        }
        if let Some(identity) = &self.identity {
            let hex = to_hex_string(&identity.public_key);
            let mut value = String::from_str("wallet.custom_base_node=");
            value.append(hex.as_str());
            value.append("::");
            value.append(identity.public_address.as_str());
            let ghost v = value@;
            args.set_pair("-p", value);
            proof {
                assert(args@ =~= before + wallet_args_prefix() + seq![
                    ArgView::Joined("-p"@, v),
                ]);
            }
        }
    }

    /// Appends the wallet environment: the shared settings, the proxy
    /// transport, the data directory per network, the wallet password, and
    /// the fixed shell setup.
    pub fn envs(&self, envs: &mut Envs)
        ensures
            match self.settings {
                Some(s) => final(envs)@ == old(envs)@ + seq![
                    ("TARI_NETWORK"@, s.tari_network.spec_lower_case()),
                    ("DATA_FOLDER"@, s.data_directory@),
                    ("TARI_BASE_NODE__P2P__TRANSPORT__TYPE"@, "tor"@),
                    ("WAIT_FOR_TOR"@, "0"@),
                    (
                        "TARI_BASE_NODE__DATA_DIR"@,
                        "/blockchain/"@ + s.tari_network.spec_lower_case(),
                    ),
                    ("TARI_WALLET_PASSWORD"@, s.wallet_password@),
                    ("SHELL"@, "/bin/bash"@),
                    ("TERM"@, "linux"@),
                    ("APP_NAME"@, "wallet"@),
                    ("APP_EXEC"@, "tari_console_wallet"@),
                ],
                None => final(envs)@ == old(envs)@ + seq![
                    ("SHELL"@, "/bin/bash"@),
                    ("TERM"@, "linux"@),
                    ("APP_NAME"@, "wallet"@),
                    ("APP_EXEC"@, "tari_console_wallet"@),
                ],
            },
    {
        let ghost before = envs@;
        if let Some(settings) = &self.settings {
            settings.add_common(envs);
            settings.add_tor(envs);
            envs.set("WAIT_FOR_TOR", String::from_str("0"));
            let mut dir = String::from_str("/blockchain/");
            dir.append(settings.tari_network.lower_case());
            envs.set("TARI_BASE_NODE__DATA_DIR", dir);
            envs.set("TARI_WALLET_PASSWORD", settings.wallet_password.clone());
        }
        envs.set("SHELL", String::from_str("/bin/bash"));
        envs.set("TERM", String::from_str("linux"));
        envs.set("APP_NAME", String::from_str("wallet"));
        envs.set("APP_EXEC", String::from_str("tari_console_wallet"));
        proof {
            match &self.settings {
                Some(s) => {
                    assert(envs@ =~= before + seq![
                        ("TARI_NETWORK"@, s.tari_network.spec_lower_case()),
                        ("DATA_FOLDER"@, s.data_directory@),
                        ("TARI_BASE_NODE__P2P__TRANSPORT__TYPE"@, "tor"@),
                        ("WAIT_FOR_TOR"@, "0"@),
                        (
                            "TARI_BASE_NODE__DATA_DIR"@,
                            "/blockchain/"@ + s.tari_network.spec_lower_case(),
                        ),
                        ("TARI_WALLET_PASSWORD"@, s.wallet_password@),
                        ("SHELL"@, "/bin/bash"@),
                        ("TERM"@, "linux"@),
                        ("APP_NAME"@, "wallet"@),
                        ("APP_EXEC"@, "tari_console_wallet"@),
                    ]);
                },
                None => {
                    assert(envs@ =~= before + seq![
                        ("SHELL"@, "/bin/bash"@),
                        ("TERM"@, "linux"@),
                        ("APP_NAME"@, "wallet"@),
                        ("APP_EXEC"@, "tari_console_wallet"@),
                    ]);
                },
            }
        }
    }

    pub fn networks(&self, networks: &mut Networks)
        ensures
            final(networks)@ == old(networks)@.push(("wallet"@, TaskId { code: 1 })),
    {
        networks.add("wallet", LocalNet::id());
    }

    pub fn volumes(&self, volumes: &mut Volumes)
        ensures
            final(volumes)@ == old(volumes)@.push("general"@),
    {
        volumes.add("general");
    }

    /// Binds the data directory and the shared blockchain volume once
    /// settings exist.
    pub fn mounts(&self, mounts: &mut Mounts)
        ensures
            match self.settings {
                Some(s) => final(mounts)@ == old(mounts)@ + seq![
                    MountView::BindPath(s.data_directory@, "/var/tari"@),
                    MountView::TaskVolume(TaskId { code: 2 }, "/blockchain"@),
                ],
                None => final(mounts)@ == old(mounts)@,
            },
    {
        let ghost before = mounts@;
        if let Some(settings) = &self.settings {
            mounts.bind_path(settings.data_directory.clone(), "/var/tari");
            mounts.add_volume(SharedVolume::id(), "/blockchain");
            proof {
                assert(mounts@ =~= before + seq![
                    MountView::BindPath(settings.data_directory@, "/var/tari"@),
                    MountView::TaskVolume(TaskId { code: 2 }, "/blockchain"@),
                ]);
            }
        }
    }
}

/// The monitoring dashboard image.
pub struct Grafana {
    pub settings: Option<ConnectionSettings>,
}

impl Grafana {
    pub fn new() -> (r: Grafana)
        ensures
            r.settings is None,
    {
        Grafana { settings: None }
    }

    pub fn id() -> (r: TaskId)
        ensures
            r.code == 7,
    {
        TaskId::new(7)
    }

    pub fn deps() -> (r: Vec<TaskId>)
        ensures
            r@ == seq![TaskId { code: 1 }, TaskId { code: 3 }],
    {
        let mut r: Vec<TaskId> = Vec::new();
        r.push(LocalNet::id());
        r.push(SharedGrafanaVolume::id());
        proof {
            assert(r@ =~= seq![TaskId { code: 1 }, TaskId { code: 3 }]);
        }
        r
    }

    pub fn registry(&self) -> (r: &'static str)
        ensures
            r@ == "grafana"@,
    {
        grafana_registry()
    }

    pub fn image_name(&self) -> (r: &'static str)
        ensures
            r@ == "grafana"@,
    {
        "grafana"
    }

    /// Appends the fixed search path, and the data folder once settings
    /// exist.
    pub fn envs(&self, envs: &mut Envs)
        ensures
            match self.settings {
                Some(s) => final(envs)@ == old(envs)@.push(("PATH"@, grafana_path())).push(
                    ("DATA_FOLDER"@, s.data_directory@),
                ),
                None => final(envs)@ == old(envs)@.push(("PATH"@, grafana_path())),
            },
    {
        envs.set(
            "PATH",
            String::from_str(
                "/usr/share/grafana/bin:/usr/local/sbin:/usr/local/bin:/usr/sbin:/usr/bin:/sbin:/bin",
            ),
        );
        if let Some(settings) = &self.settings {
            envs.set("DATA_FOLDER", settings.data_directory.clone());
        }
    }

    pub fn networks(&self, networks: &mut Networks)
        ensures
            final(networks)@ == old(networks)@.push(("grafana"@, TaskId { code: 1 })),
    {
        networks.add("grafana", LocalNet::id());
    }

    pub fn ports(&self, ports: &mut Ports)
        ensures
            final(ports)@ == old(ports)@.push(18300u16),
    {
        ports.add(18300);
    }

    /// Recomputes settings from the snapshot; the dashboard should run
    /// exactly when the snapshot asks for monitoring.
    pub fn reconfigure(&mut self, config: Option<&LaunchpadConfig>) -> (r: bool)
        ensures
            r == (config matches Some(c) && c.with_monitoring),
            match config {
                Some(c) => final(self).settings matches Some(s) && settings_match(s, *c),
                None => final(self).settings is None,
            },
    {
        match config {
            Some(c) => {
                self.settings = Some(ConnectionSettings::from_config(c));
                c.with_monitoring
            },
            None => {
                self.settings = None;
                false
            },
        }
    }

    pub fn volumes(&self, volumes: &mut Volumes)
        ensures
            final(volumes)@ == old(volumes)@.push("general"@),
    {
        volumes.add("general");
    }

    /// Binds the shared monitoring volume, and once settings exist the
    /// data directory with its dashboard configuration files.
    pub fn mounts(&self, mounts: &mut Mounts)
        ensures
            match self.settings {
                Some(s) => final(mounts)@ == old(mounts)@ + seq![
                    MountView::TaskVolume(TaskId { code: 3 }, "/grafana"@),
                    MountView::BindPath(s.data_directory@, "/var/tari"@),
                    MountView::BindPath(
                        s.data_directory@ + "/config/defaults.ini"@,
                        "/usr/share/grafana/conf/defaults.ini"@,
                    ),
                    MountView::BindPath(
                        s.data_directory@ + "/config/sources_provision.yml"@,
                        "/usr/share/grafana/conf/provisioning/datasources/sources_provision.yml"@,
                    ),
                ],
                None => final(mounts)@ == old(mounts)@.push(
                    MountView::TaskVolume(TaskId { code: 3 }, "/grafana"@),
                ),
            },
    {
        let ghost before = mounts@;
        mounts.add_volume(SharedGrafanaVolume::id(), "/grafana");
        if let Some(settings) = &self.settings {
            mounts.bind_path(settings.data_directory.clone(), "/var/tari");
            let mut defaults = settings.data_directory.clone();
            defaults.append("/config/defaults.ini");
            mounts.bind_path(defaults, "/usr/share/grafana/conf/defaults.ini");
            let mut provision = settings.data_directory.clone();
            provision.append("/config/sources_provision.yml");
            mounts.bind_path(
                provision,
                "/usr/share/grafana/conf/provisioning/datasources/sources_provision.yml",
            );
            proof {
                assert(mounts@ =~= before + seq![
                    MountView::TaskVolume(TaskId { code: 3 }, "/grafana"@),
                    MountView::BindPath(settings.data_directory@, "/var/tari"@),
                    MountView::BindPath(
                        settings.data_directory@ + "/config/defaults.ini"@,
                        "/usr/share/grafana/conf/defaults.ini"@,
                    ),
                    MountView::BindPath(
                        settings.data_directory@ + "/config/sources_provision.yml"@,
                        "/usr/share/grafana/conf/provisioning/datasources/sources_provision.yml"@,
                    ),
                ]);
            }
        }
    }
}

/// The fixed search path of the dashboard image.
pub open spec fn grafana_path() -> Seq<char> {
    "/usr/share/grafana/bin:/usr/local/sbin:/usr/local/bin:/usr/sbin:/usr/bin:/sbin:/bin"@
}

/// The log shipper image.
pub struct Promtail {}

impl Promtail {
    pub fn new() -> (r: Promtail) {
        Promtail {  }
    }

    pub fn id() -> (r: TaskId)
        ensures
            r.code == 8,
    {
        TaskId::new(8)
    }

    pub fn deps() -> (r: Vec<TaskId>)
        ensures
            r@ == seq![TaskId { code: 1 }],
    {
        let mut r: Vec<TaskId> = Vec::new();
        r.push(LocalNet::id());
        proof {
            assert(r@ =~= seq![TaskId { code: 1 }]);
        }
        r
    }

    pub fn registry(&self) -> (r: &'static str)
        ensures
            r@ == "grafana"@,
    {
        grafana_registry()
    }

    pub fn image_name(&self) -> (r: &'static str)
        ensures
            r@ == "promtail"@,
    {
        "promtail"
    }

    pub fn args(&self, args: &mut Args)
        ensures
            final(args)@ == old(args)@.push(
                ArgView::Pair("-config.file"@, "/etc/promtail/config.yml"@),
            ),
    {
        args.set("-config.file", "/etc/promtail/config.yml");
    }

    pub fn networks(&self, networks: &mut Networks)
        ensures
            final(networks)@ == old(networks)@.push(("promtail"@, TaskId { code: 1 })),
    {
        networks.add("promtail", LocalNet::id());
    }

    pub fn ports(&self, ports: &mut Ports)
        ensures
            final(ports)@ == old(ports)@.push(18980u16),
    {
        ports.add(18980);
    }

    /// The shipper should run exactly when the snapshot asks for
    /// monitoring; it keeps no settings of its own.
    pub fn reconfigure(&mut self, config: Option<&LaunchpadConfig>) -> (r: bool)
        ensures
            r == (config matches Some(c) && c.with_monitoring),
    {
        match config {
            Some(c) => c.with_monitoring,
            None => false,
        }
    }
}

/// The environment `Tor::envs` appends: the shared settings when they
/// exist.
pub open spec fn tor_envs(t: Tor) -> Seq<(Seq<char>, Seq<char>)> {
    match t.settings {
        Some(s) => seq![
            ("TARI_NETWORK"@, s.tari_network.spec_lower_case()),
            ("DATA_FOLDER"@, s.data_directory@),
        ],
        None => Seq::empty(),
    }
}

/// The arguments `TariWallet::args` appends: the fixed prefix, and the
/// discovered base node once known.
pub open spec fn wallet_args(w: TariWallet) -> Seq<ArgView> {
    match w.identity {
        Some(id) => wallet_args_prefix() + seq![
            ArgView::Joined(
                "-p"@,
                "wallet.custom_base_node="@ + hex_of(id.public_key@) + "::"@
                    + id.public_address@,
            ),
        ],
        None => wallet_args_prefix(),
    }
}

/// The environment `TariWallet::envs` appends.
pub open spec fn wallet_envs(w: TariWallet) -> Seq<(Seq<char>, Seq<char>)> {
    match w.settings {
        Some(s) => seq![
            ("TARI_NETWORK"@, s.tari_network.spec_lower_case()),
            ("DATA_FOLDER"@, s.data_directory@),
            ("TARI_BASE_NODE__P2P__TRANSPORT__TYPE"@, "tor"@),
            ("WAIT_FOR_TOR"@, "0"@),
            ("TARI_BASE_NODE__DATA_DIR"@, "/blockchain/"@ + s.tari_network.spec_lower_case()),
            ("TARI_WALLET_PASSWORD"@, s.wallet_password@),
            ("SHELL"@, "/bin/bash"@),
            ("TERM"@, "linux"@),
            ("APP_NAME"@, "wallet"@),
            ("APP_EXEC"@, "tari_console_wallet"@),
        ],
        None => seq![
            ("SHELL"@, "/bin/bash"@),
            ("TERM"@, "linux"@),
            ("APP_NAME"@, "wallet"@),
            ("APP_EXEC"@, "tari_console_wallet"@),
        ],
    }
}

/// The mounts `TariWallet::mounts` appends.
pub open spec fn wallet_mounts(w: TariWallet) -> Seq<MountView> {
    match w.settings {
        Some(s) => seq![
            MountView::BindPath(s.data_directory@, "/var/tari"@),
            MountView::TaskVolume(TaskId { code: 2 }, "/blockchain"@),
        ],
        None => Seq::empty(),
    }
}

/// The environment `Grafana::envs` appends.
pub open spec fn grafana_envs(g: Grafana) -> Seq<(Seq<char>, Seq<char>)> {
    match g.settings {
        Some(s) => seq![("PATH"@, grafana_path()), ("DATA_FOLDER"@, s.data_directory@)],
        None => seq![("PATH"@, grafana_path())],
    }
}

/// The mounts `Grafana::mounts` appends.
pub open spec fn grafana_mounts(g: Grafana) -> Seq<MountView> {
    match g.settings {
        Some(s) => seq![
            MountView::TaskVolume(TaskId { code: 3 }, "/grafana"@),
            MountView::BindPath(s.data_directory@, "/var/tari"@),
            MountView::BindPath(
                s.data_directory@ + "/config/defaults.ini"@,
                "/usr/share/grafana/conf/defaults.ini"@,
            ),
            MountView::BindPath(
                s.data_directory@ + "/config/sources_provision.yml"@,
                "/usr/share/grafana/conf/provisioning/datasources/sources_provision.yml"@,
            ),
        ],
        None => seq![MountView::TaskVolume(TaskId { code: 3 }, "/grafana"@)],
    }
}

/// The closed union of managed container types, so the scheduler can
/// match exhaustively instead of dispatching through trait objects.
pub enum ManagedImage {
    Tor(Tor),
    Wallet(TariWallet),
    Grafana(Grafana),
    Promtail(Promtail),
}

impl ManagedImage {
    pub open spec fn wf(&self) -> bool {
        match self {
            ManagedImage::Wallet(w) => w.wf(),
            _ => true,
        }
    }

    /// The verdict `reconfigure` returns for this image kind and
    /// snapshot: node services run whenever a configuration exists, the
    /// monitoring pair only when it asks for monitoring.
    pub open spec fn spec_should_run(&self, has_config: bool, with_monitoring: bool) -> bool {
        match self {
            ManagedImage::Tor(_) => has_config,
            ManagedImage::Wallet(_) => has_config,
            ManagedImage::Grafana(_) => has_config && with_monitoring,
            ManagedImage::Promtail(_) => has_config && with_monitoring,
        }
    }

    pub fn task_id(&self) -> (r: TaskId)
        ensures
            r == match self {
                ManagedImage::Tor(_) => TaskId { code: 5 },
                ManagedImage::Wallet(_) => TaskId { code: 6 },
                ManagedImage::Grafana(_) => TaskId { code: 7 },
                ManagedImage::Promtail(_) => TaskId { code: 8 },
            },
    {
        match self {
            ManagedImage::Tor(_) => Tor::id(),
            ManagedImage::Wallet(_) => TariWallet::id(),
            ManagedImage::Grafana(_) => Grafana::id(),
            ManagedImage::Promtail(_) => Promtail::id(),
        }
    }

    /// Applies a snapshot and returns whether the task should run under
    /// it.  The verdict depends on the snapshot alone, so a repeated
    /// identical snapshot returns the same verdict.
    pub fn reconfigure(&mut self, config: Option<&LaunchpadConfig>) -> (r: bool)
        requires
            old(self).wf(),
        ensures
            r == old(self).spec_should_run(
                config is Some,
                config matches Some(c) && c.with_monitoring,
            ),
            final(self).wf(),
            (*final(self) is Tor) <==> (*old(self) is Tor),
            (*final(self) is Wallet) <==> (*old(self) is Wallet),
            (*final(self) is Grafana) <==> (*old(self) is Grafana),
            (*final(self) is Promtail) <==> (*old(self) is Promtail),
    {
        match self {
            ManagedImage::Tor(t) => t.reconfigure(config),
            ManagedImage::Wallet(w) => w.reconfigure(config),
            ManagedImage::Grafana(g) => g.reconfigure(config),
            ManagedImage::Promtail(p) => p.reconfigure(config),
        }
    }

    /// The checker discipline of this container type.
    pub fn checker(&mut self) -> (r: CheckerKind)
        ensures
            r == match old(self) {
                ManagedImage::Tor(_) => CheckerKind::LogDriven,
                ManagedImage::Wallet(_) => CheckerKind::PollDriven,
                ManagedImage::Grafana(_) => CheckerKind::PollDriven,
                ManagedImage::Promtail(_) => CheckerKind::PollDriven,
            },
            *final(self) == *old(self),
    {
        match self {
            ManagedImage::Tor(t) => t.checker(),
            ManagedImage::Wallet(w) => w.checker(),
            ManagedImage::Grafana(_) => CheckerKind::PollDriven,
            ManagedImage::Promtail(_) => CheckerKind::PollDriven,
        }
    }

    /// Builds the declarative container specification afresh: a pure
    /// function of the image's current state, safe to call repeatedly.
    pub fn build_spec(&self) -> (r: ContainerSpec)
        requires
            self.wf(),
        ensures
            match self {
                ManagedImage::Tor(t) => {
                    &&& r.registry@ == "quay.io/tarilabs"@
                    &&& r.image_name@ == "tor"@
                    &&& (t.settings is None ==> r.args@ == tor_args_prefix() + seq![
                        ArgView::Flag("--allow-missing-torrc"@),
                    ])
                    &&& (t.settings is Some ==> exists|h: Seq<char>|
                        h.len() == 61 && h.subrange(0, 3) == "16:"@ && r.args@
                            == tor_args_prefix() + seq![
                            ArgView::Joined("--HashedControlPassword"@, h),
                            ArgView::Flag("--allow-missing-torrc"@),
                        ])
                    &&& r.envs@ == tor_envs(*t)
                    &&& r.ports@ == Seq::<u16>::empty()
                    &&& r.networks@ == seq![("tor"@, TaskId { code: 1 })]
                    &&& r.volumes@ == Seq::<Seq<char>>::empty()
                    &&& r.mounts@ == Seq::<MountView>::empty()
                },
                ManagedImage::Wallet(w) => {
                    &&& r.registry@ == "quay.io/tarilabs"@
                    &&& r.image_name@ == "tari_wallet"@
                    &&& r.args@ == wallet_args(*w)
                    &&& r.envs@ == wallet_envs(*w)
                    &&& r.ports@ == seq![18143u16, 18188u16]
                    &&& r.networks@ == seq![("wallet"@, TaskId { code: 1 })]
                    &&& r.volumes@ == seq!["general"@]
                    &&& r.mounts@ == wallet_mounts(*w)
                },
                ManagedImage::Grafana(g) => {
                    &&& r.registry@ == "grafana"@
                    &&& r.image_name@ == "grafana"@
                    &&& r.args@ == Seq::<ArgView>::empty()
                    &&& r.envs@ == grafana_envs(*g)
                    &&& r.ports@ == seq![18300u16]
                    &&& r.networks@ == seq![("grafana"@, TaskId { code: 1 })]
                    &&& r.volumes@ == seq!["general"@]
                    &&& r.mounts@ == grafana_mounts(*g)
                },
                ManagedImage::Promtail(_) => {
                    &&& r.registry@ == "grafana"@
                    &&& r.image_name@ == "promtail"@
                    &&& r.args@ == seq![ArgView::Pair("-config.file"@, "/etc/promtail/config.yml"@)]
                    &&& r.envs@ == Seq::<(Seq<char>, Seq<char>)>::empty()
                    &&& r.ports@ == seq![18980u16]
                    &&& r.networks@ == seq![("promtail"@, TaskId { code: 1 })]
                    &&& r.volumes@ == Seq::<Seq<char>>::empty()
                    &&& r.mounts@ == Seq::<MountView>::empty()
                },
            },
    {
        let mut args = Args::new();
        let mut envs = Envs::new();
        let mut ports = Ports::new();
        let mut networks = Networks::new();
        let mut volumes = Volumes::new();
        let mut mounts = Mounts::new();
        let registry: &'static str;
        let image_name: &'static str;
        match self {
            ManagedImage::Tor(t) => {
                registry = t.registry();
                image_name = t.image_name();
                t.args(&mut args);
                t.envs(&mut envs);
                t.networks(&mut networks);
                proof {
                    if t.settings is Some {
                        let h = choose|h: Seq<char>|
                            h.len() == 61 && h.subrange(0, 3) == "16:"@ && args@ == Seq::<
                                ArgView,
                            >::empty() + tor_args_prefix() + seq![
                                ArgView::Joined("--HashedControlPassword"@, h),
                                ArgView::Flag("--allow-missing-torrc"@),
                            ];
                        assert(args@ =~= tor_args_prefix() + seq![
                            ArgView::Joined("--HashedControlPassword"@, h),
                            ArgView::Flag("--allow-missing-torrc"@),
                        ]);
                    } else {
                        assert(args@ =~= tor_args_prefix() + seq![
                            ArgView::Flag("--allow-missing-torrc"@),
                        ]);
                    }
                    assert(envs@ =~= tor_envs(*t));
                    assert(networks@ =~= seq![("tor"@, TaskId { code: 1 })]);
                }
            },
            ManagedImage::Wallet(w) => {
                registry = w.registry();
                image_name = w.image_name();
                w.args(&mut args);
                w.envs(&mut envs);
                w.ports(&mut ports);
                w.networks(&mut networks);
                w.volumes(&mut volumes);
                w.mounts(&mut mounts);
                proof {
                    assert(args@ =~= wallet_args(*w));
                    assert(envs@ =~= wallet_envs(*w));
                    assert(ports@ =~= seq![18143u16, 18188u16]);
                    assert(networks@ =~= seq![("wallet"@, TaskId { code: 1 })]);
                    assert(volumes@ =~= seq!["general"@]);
                    assert(mounts@ =~= wallet_mounts(*w));
                }
            },
            ManagedImage::Grafana(g) => {
                registry = g.registry();
                image_name = g.image_name();
                g.envs(&mut envs);
                g.ports(&mut ports);
                g.networks(&mut networks);
                g.volumes(&mut volumes);
                g.mounts(&mut mounts);
                proof {
                    assert(envs@ =~= grafana_envs(*g));
                    assert(ports@ =~= seq![18300u16]);
                    assert(networks@ =~= seq![("grafana"@, TaskId { code: 1 })]);
                    assert(volumes@ =~= seq!["general"@]);
                    assert(mounts@ =~= grafana_mounts(*g));
                }
            },
            ManagedImage::Promtail(p) => {
                registry = p.registry();
                image_name = p.image_name();
                p.args(&mut args);
                p.networks(&mut networks);
                p.ports(&mut ports);
                proof {
                    assert(ports@ =~= seq![18980u16]);
                    assert(args@ =~= seq![
                        ArgView::Pair("-config.file"@, "/etc/promtail/config.yml"@),
                    ]);
                    assert(networks@ =~= seq![("promtail"@, TaskId { code: 1 })]);
                }
            },
        }
        ContainerSpec {
            registry: String::from_str(registry),
            image_name: String::from_str(image_name),
            args,
            envs,
            ports,
            networks,
            volumes,
            mounts,
        }
    }
}

/// The full static task set the orchestrator manages: networks and
/// volumes first, then the node services, then monitoring.  The set is
/// duplicate-free and closed under dependencies, so graph construction
/// always accepts it.
pub fn standard_tasks() -> (r: Vec<TaskDef>)
    ensures
        ids_of(r@) == seq![
            TaskId { code: 1 },
            TaskId { code: 2 },
            TaskId { code: 3 },
            TaskId { code: 4 },
            TaskId { code: 5 },
            TaskId { code: 6 },
            TaskId { code: 7 },
            TaskId { code: 8 },
        ],
        distinct_ids(r@),
        deps_closed(r@),
        r@.len() == 8,
        r@[0].deps@ == Seq::<TaskId>::empty(),
        r@[1].deps@ == Seq::<TaskId>::empty(),
        r@[2].deps@ == Seq::<TaskId>::empty(),
        r@[3].deps@ == seq![TaskId { code: 1 }, TaskId { code: 2 }],
        r@[4].deps@ == seq![TaskId { code: 1 }, TaskId { code: 2 }],
        r@[5].deps@ == seq![TaskId { code: 1 }, TaskId { code: 2 }, TaskId { code: 4 }],
        r@[6].deps@ == seq![TaskId { code: 1 }, TaskId { code: 3 }],
        r@[7].deps@ == seq![TaskId { code: 1 }],
{
    let mut r: Vec<TaskDef> = Vec::new();
    r.push(TaskDef { id: LocalNet::id(), deps: Vec::new() });
    r.push(TaskDef { id: SharedVolume::id(), deps: Vec::new() });
    r.push(TaskDef { id: SharedGrafanaVolume::id(), deps: Vec::new() });
    let mut base_deps: Vec<TaskId> = Vec::new();
    base_deps.push(LocalNet::id());
    base_deps.push(SharedVolume::id());
    r.push(TaskDef { id: TariBaseNode::id(), deps: base_deps });
    r.push(TaskDef { id: Tor::id(), deps: Tor::deps() });
    r.push(TaskDef { id: TariWallet::id(), deps: TariWallet::deps() });
    r.push(TaskDef { id: Grafana::id(), deps: Grafana::deps() });
    r.push(TaskDef { id: Promtail::id(), deps: Promtail::deps() });
    proof {
        assert(r@[0].deps@ =~= Seq::<TaskId>::empty());
        assert(r@[1].deps@ =~= Seq::<TaskId>::empty());
        assert(r@[2].deps@ =~= Seq::<TaskId>::empty());
        assert(r@[3].deps@ =~= seq![TaskId { code: 1 }, TaskId { code: 2 }]);
        assert(ids_of(r@) =~= seq![
            TaskId { code: 1 },
            TaskId { code: 2 },
            TaskId { code: 3 },
            TaskId { code: 4 },
            TaskId { code: 5 },
            TaskId { code: 6 },
            TaskId { code: 7 },
            TaskId { code: 8 },
        ]);
        assert forall|i: int, k: int|
            0 <= i < r@.len() && 0 <= k < r@[i].deps.len() implies ids_of(r@).contains(
            #[trigger] r@[i].deps[k],
        ) by {
            let d = r@[i].deps[k];
            assert(1 <= d.code <= 4);
            assert(ids_of(r@)[d.code - 1] == d);
        }
    }
    r
}

} // verus!


