use launchpad::actors::ActorContext;
use launchpad::actors::ActorState;
use launchpad::actors::SendError;
use launchpad::config::ConnectionSettings;
use launchpad::config::LaunchpadConfig;
use launchpad::config::SessionConfig;
use launchpad::config::TariNetwork;
use launchpad::container::Envs;
use launchpad::graph::DependencyGraph;
use launchpad::images::standard_tasks;
use launchpad::state::LaunchpadDelta;
use launchpad::state::LaunchpadState;
use launchpad::supervisor::DashboardEvent;
use launchpad::supervisor::Orchestrator;
use launchpad::supervisor::Supervisor;
use launchpad::ui::Label;
use launchpad::ui::MainView;
use launchpad::ui::MessageWidget;
use launchpad::ui::Mode;
use launchpad::ui::NormalTabs;
use launchpad::ui::OnboardingScene;
use launchpad::ui::WalletContainerWidget;

#[test]
fn launchpad_state_starts_with_the_fixed_figures() {
    let state = LaunchpadState::new();
    assert!(state.onboarding.messages.is_empty());
    assert_eq!(state.tari_mining.tari_amount, 123456);
    assert!(state.tari_mining.mining_started.is_none());
    assert_eq!(state.merged_mining.tari_amount, 45000);
    assert_eq!(state.merged_mining.monero_amount_tenths, 35);
}

#[test]
fn launchpad_update_with_neutral_delta_changes_nothing() {
    let mut state = LaunchpadState::new();
    state.update(LaunchpadDelta::Nothing);
    assert_eq!(state.tari_mining.tari_amount, 123456);
    assert_eq!(state.merged_mining.tari_amount, 45000);
}

#[test]
fn main_view_starts_in_normal_mode() {
    let view = MainView::new();
    assert_eq!(view.header.mode_selector.selected(), Mode::Normal);
}

#[test]
fn wallet_button_label_follows_session() {
    let widget = WalletContainerWidget::new();
    let mut session = SessionConfig { wallet_active: false };
    assert_eq!(widget.button_label(&session), "Start wallet");
    widget.on_activate(&mut session);
    assert!(session.wallet_active);
    assert_eq!(widget.button_label(&session), "Pause");
    widget.on_activate(&mut session);
    assert!(!session.wallet_active);
}

#[test]
fn onboarding_scene_winks_on_schedule() {
    let mut scene = OnboardingScene::new(1000);
    assert_eq!(scene.get_progress(), 100);
    assert!(!scene.on_tick(2000));
    assert_eq!(scene.wink, Some(1000));
    assert!(scene.on_tick(6000));
    assert_eq!(scene.wink, None);
    assert!(scene.on_tick(7000));
    assert_eq!(scene.wink, Some(7000));
}

#[test]
fn message_widget_keeps_its_message() {
    let w = MessageWidget::new(Some("hello".to_string()));
    assert_eq!(w.msg.as_deref(), Some("hello"));
    let empty = MessageWidget::new(None);
    assert!(empty.msg.is_none());
}

#[test]
fn label_keeps_its_text() {
    let label = Label::new("Balance".to_string());
    assert_eq!(label.text, "Balance");
}

#[test]
fn normal_tabs_enumerate_and_name_themselves() {
    let all = NormalTabs::all();
    assert_eq!(all.len(), 3);
    assert_eq!(NormalTabs::from_repr(0), Some(NormalTabs::Mining));
    assert_eq!(NormalTabs::from_repr(1), Some(NormalTabs::BaseNode));
    assert_eq!(NormalTabs::from_repr(2), Some(NormalTabs::Wallet));
    assert_eq!(NormalTabs::from_repr(3), None);
    assert_eq!(NormalTabs::BaseNode.title(), "Base Node");
    assert_eq!(NormalTabs::Mining.title(), "Mining");
}

#[test]
fn network_names_are_lowercase() {
    assert_eq!(TariNetwork::MainNet.lower_case(), "mainnet");
    assert_eq!(TariNetwork::StageNet.lower_case(), "stagenet");
    assert_eq!(TariNetwork::NextNet.lower_case(), "nextnet");
}

#[test]
fn connection_settings_copy_the_snapshot() {
    let c = LaunchpadConfig {
        tari_network: TariNetwork::NextNet,
        with_monitoring: false,
        session: SessionConfig { wallet_active: false },
        tor_password: "a".to_string(),
        wallet_password: "b".to_string(),
        data_directory: "/d".to_string(),
    };
    let s = ConnectionSettings::from_config(&c);
    assert_eq!(s.tari_network, TariNetwork::NextNet);
    assert_eq!(s.tor_password, "a");
    assert_eq!(s.wallet_password, "b");
    assert_eq!(s.data_directory, "/d");
    let mut envs = Envs::new();
    s.add_common(&mut envs);
    assert_eq!(envs.items[0], ("TARI_NETWORK".to_string(), "nextnet".to_string()));
    assert_eq!(envs.items[1], ("DATA_FOLDER".to_string(), "/d".to_string()));
}

#[test]
fn supervisor_shuts_down_on_dashboard_termination() {
    let graph = DependencyGraph::new(standard_tasks()).unwrap();
    let engine = Orchestrator::from_graph(graph, 3, 100);
    let mut supervisor = Supervisor::new();
    assert!(supervisor.dashboard.is_none());
    supervisor.initialize(engine);
    assert_eq!(supervisor.dashboard.map(|a| a.state), Some(ActorState::Active));

    let mut ctx: ActorContext<DashboardEvent> = ActorContext::new();
    supervisor.handle(DashboardEvent::Terminated, &mut ctx);
    assert!(supervisor.dashboard.is_none());
    assert_eq!(ctx.address().state, ActorState::Stopped);
    // Any later send to the supervisor reports the stopped actor.
    assert_eq!(ctx.do_next(DashboardEvent::Terminated), Err(SendError::ActorStopped));
}
