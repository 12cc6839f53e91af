use launchpad::config::BaseNodeIdentity;
use launchpad::config::InnerEvent;
use launchpad::config::LaunchpadConfig;
use launchpad::config::SessionConfig;
use launchpad::config::TariNetwork;
use launchpad::container::Arg;
use launchpad::container::Args;
use launchpad::container::Envs;
use launchpad::container::Mount;
use launchpad::container::Mounts;
use launchpad::graph::TaskId;
use launchpad::images::CheckerKind;
use launchpad::images::Grafana;
use launchpad::images::ManagedImage;
use launchpad::images::Promtail;
use launchpad::images::TariWallet;
use launchpad::images::Tor;

fn config(with_monitoring: bool) -> LaunchpadConfig {
    LaunchpadConfig {
        tari_network: TariNetwork::StageNet,
        with_monitoring,
        session: SessionConfig { wallet_active: true },
        tor_password: "tor-secret".to_string(),
        wallet_password: "wallet-secret".to_string(),
        data_directory: "/home/user/.tari".to_string(),
    }
}

#[test]
fn tor_reconfigure_runs_exactly_when_configured() {
    let mut tor = Tor::new();
    assert!(!tor.reconfigure(None));
    assert!(tor.settings.is_none());
    let c = config(false);
    assert!(tor.reconfigure(Some(&c)));
    let s = tor.settings.as_ref().unwrap();
    assert_eq!(s.tari_network, TariNetwork::StageNet);
    assert_eq!(s.tor_password, "tor-secret");
    assert_eq!(s.data_directory, "/home/user/.tari");
    // A byte-identical snapshot gives the same verdict again.
    assert!(tor.reconfigure(Some(&c)));
}

#[test]
fn tor_args_carry_a_fresh_password_hash() {
    let mut tor = Tor::new();
    tor.reconfigure(Some(&config(false)));
    let mut args = Args::new();
    tor.args(&mut args);
    assert_eq!(args.items.len(), 7);
    assert_eq!(
        args.items[0],
        Arg::Joined("--SocksPort".to_string(), "0.0.0.0:9050".to_string())
    );
    assert_eq!(
        args.items[1],
        Arg::Joined("--ControlPort".to_string(), "0.0.0.0:9051".to_string())
    );
    match &args.items[5] {
        Arg::Joined(key, hash) => {
            assert_eq!(key, "--HashedControlPassword");
            // The tor hash renders as "16:", salt, indicator and hash:
            // sixty-one characters, never the raw password.
            assert_eq!(hash.len(), 61);
            assert!(hash.starts_with("16:"));
            assert_ne!(hash, "tor-secret");
        },
        other => panic!("expected the hashed password, got {:?}", other),
    }
    assert_eq!(args.items[6], Arg::Flag("--allow-missing-torrc".to_string()));
}

#[test]
fn tor_args_without_settings_skip_the_password() {
    let tor = Tor::new();
    let mut args = Args::new();
    tor.args(&mut args);
    assert_eq!(args.items.len(), 6);
    assert_eq!(args.items[5], Arg::Flag("--allow-missing-torrc".to_string()));
}

#[test]
fn wallet_pins_the_discovered_base_node() {
    let mut wallet = TariWallet::new();
    wallet.on_event(InnerEvent::IdentityReady(BaseNodeIdentity {
        public_key: vec![0xab, 0x01, 0xff],
        public_address: "/ip4/10.0.0.1/tcp/18189".to_string(),
    }));
    let mut args = Args::new();
    wallet.args(&mut args);
    let last = args.items.last().unwrap();
    assert_eq!(
        *last,
        Arg::Joined(
            "-p".to_string(),
            "wallet.custom_base_node=ab01ff::/ip4/10.0.0.1/tcp/18189".to_string()
        )
    );
}

#[test]
fn wallet_ignores_its_own_identity_echo() {
    let mut wallet = TariWallet::new();
    wallet.on_event(InnerEvent::WalletIdentityReady(
        launchpad::config::WalletIdentity {
            public_key: vec![1],
            public_address: "x".to_string(),
        },
    ));
    assert!(wallet.identity.is_none());
}

#[test]
fn wallet_envs_hold_the_session_facts() {
    let mut wallet = TariWallet::new();
    wallet.reconfigure(Some(&config(false)));
    let mut envs = Envs::new();
    wallet.envs(&mut envs);
    let expect: Vec<(&str, &str)> = vec![
        ("TARI_NETWORK", "stagenet"),
        ("DATA_FOLDER", "/home/user/.tari"),
        ("TARI_BASE_NODE__P2P__TRANSPORT__TYPE", "tor"),
        ("WAIT_FOR_TOR", "0"),
        ("TARI_BASE_NODE__DATA_DIR", "/blockchain/stagenet"),
        ("TARI_WALLET_PASSWORD", "wallet-secret"),
        ("SHELL", "/bin/bash"),
        ("TERM", "linux"),
        ("APP_NAME", "wallet"),
        ("APP_EXEC", "tari_console_wallet"),
    ];
    let got: Vec<(&str, &str)> =
        envs.items.iter().map(|(k, v)| (k.as_str(), v.as_str())).collect();
    assert_eq!(got, expect);
}

#[test]
fn wallet_mounts_bind_data_and_blockchain() {
    let mut wallet = TariWallet::new();
    wallet.reconfigure(Some(&config(false)));
    let mut mounts = Mounts::new();
    wallet.mounts(&mut mounts);
    assert_eq!(
        mounts.items,
        vec![
            Mount::BindPath("/home/user/.tari".to_string(), "/var/tari".to_string()),
            Mount::TaskVolume(TaskId::new(2), "/blockchain".to_string()),
        ]
    );
}

#[test]
fn monitoring_pair_runs_only_with_monitoring_on() {
    let mut grafana = Grafana::new();
    let mut promtail = Promtail::new();
    assert!(!grafana.reconfigure(Some(&config(false))));
    assert!(!promtail.reconfigure(Some(&config(false))));
    assert!(grafana.reconfigure(Some(&config(true))));
    assert!(promtail.reconfigure(Some(&config(true))));
    assert!(!grafana.reconfigure(None));
    assert!(!promtail.reconfigure(None));
}

#[test]
fn union_reconfigure_matches_each_image_policy() {
    let c = config(false);
    let mut tor = ManagedImage::Tor(Tor::new());
    let mut grafana = ManagedImage::Grafana(Grafana::new());
    assert!(tor.reconfigure(Some(&c)));
    assert!(!grafana.reconfigure(Some(&c)));
    assert_eq!(tor.task_id(), TaskId::new(5));
    assert_eq!(grafana.task_id(), TaskId::new(7));
    assert_eq!(tor.checker(), CheckerKind::LogDriven);
}

#[test]
fn build_spec_is_pure_and_names_the_images() {
    let mut wallet = TariWallet::new();
    wallet.reconfigure(Some(&config(false)));
    let img = ManagedImage::Wallet(wallet);
    let s1 = img.build_spec();
    let s2 = img.build_spec();
    assert_eq!(s1.registry, "quay.io/tarilabs");
    assert_eq!(s1.image_name, "tari_wallet");
    assert_eq!(s1.ports.items, vec![18143, 18188]);
    assert_eq!(s1.args.items, s2.args.items);
    assert_eq!(s1.envs.items, s2.envs.items);

    let p = ManagedImage::Promtail(Promtail::new());
    let ps = p.build_spec();
    assert_eq!(ps.registry, "grafana");
    assert_eq!(ps.image_name, "promtail");
    assert_eq!(
        ps.args.items,
        vec![Arg::Pair("-config.file".to_string(), "/etc/promtail/config.yml".to_string())]
    );
    assert_eq!(ps.ports.items, vec![18980]);

    let g = ManagedImage::Grafana(Grafana::new());
    let gs = g.build_spec();
    assert_eq!(gs.registry, "grafana");
    assert_eq!(gs.image_name, "grafana");
    assert_eq!(gs.ports.items, vec![18300]);
}
