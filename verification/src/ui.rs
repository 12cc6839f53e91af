//! State and decisions of the dashboard components.  Rendering itself is
//! terminal I/O and lives outside the library; what stands here is every
//! fact a component keeps and every decision it takes on an event.

use vstd::prelude::*;
use crate::config::SessionConfig;

verus! {

/// Where focus moves after a component handled an input.
#[derive(Clone, Copy, PartialEq, Eq, Structural, Debug)]
pub enum MoveFocus {
    /// Entering into a component.
    In,
    /// Exiting out of a component.
    Out,
    Up,
    Down,
    Next,
    Prev,
}

/// The dashboard's top-level modes.
#[derive(Clone, Copy, PartialEq, Eq, Structural, Debug)]
pub enum Mode {
    Normal,
    Expert,
    Settings,
}

/// The animated logo block.
pub struct Logo {}

impl Logo {
    pub fn new() -> (r: Logo) {
        Logo {  }
    }
}

/// Chooses between the dashboard's top-level modes.
pub struct ModeSelector {
    pub selected: Mode,
}

impl ModeSelector {
    pub fn new() -> (r: ModeSelector)
        ensures
            r.selected == Mode::Normal,
    {
        ModeSelector { selected: Mode::Normal }
    }

    pub fn selected(&self) -> (r: Mode)
        ensures
            r == self.selected,
    {
        self.selected
    }

    pub fn select(&mut self, mode: Mode)
        ensures
            final(self).selected == mode,
    {
        self.selected = mode;
    }
}

/// The dashboard header: logo and mode selector.
pub struct Header {
    pub logo: Logo,
    pub mode_selector: ModeSelector,
}

impl Header {
    pub fn new() -> (r: Header)
        ensures
            r.mode_selector.selected == Mode::Normal,
    {
        Header { logo: Logo::new(), mode_selector: ModeSelector::new() }
    }
}

/// The wallet scene of the scene stack.
pub struct Wallet {}

impl Wallet {
    pub fn new() -> (r: Wallet) {
        Wallet {  }
    }
}

/// The wallet tab of the normal mode.
pub struct WalletScene {}

impl WalletScene {
    pub fn new() -> (r: WalletScene) {
        WalletScene {  }
    }
}

/// The base node tab of the normal mode.
pub struct BaseNodeScene {}

impl BaseNodeScene {
    pub fn new() -> (r: BaseNodeScene) {
        BaseNodeScene {  }
    }
}

/// The root view: header above the scene selected by the mode.
pub struct MainView {
    pub header: Header,
    pub wallet_scene: Wallet,
}

impl MainView {
    pub fn new() -> (r: MainView)
        ensures
            r.header.mode_selector.selected == Mode::Normal,
    {
        MainView { header: Header::new(), wallet_scene: Wallet::new() }
    }
}

/// Shows the newest onboarding message, or an ellipsis.
pub struct MessageWidget {
    pub msg: Option<String>,
}

impl MessageWidget {
    pub fn new(msg: Option<String>) -> (r: MessageWidget)
        ensures
            r.msg == msg,
    {
        MessageWidget { msg }
    }
}

/// Milliseconds the onboarding robot keeps its eyes open.
pub const WINK_MILLIS: u64 = 5000;

/// The onboarding scene: a progress gauge and a robot that winks on a
/// timer.
pub struct OnboardingScene {
    pub wink: Option<u64>,
}

impl OnboardingScene {
    /// Starts with open eyes at the given time, in milliseconds.
    pub fn new(now_ms: u64) -> (r: OnboardingScene)
        ensures
            r.wink == Some(now_ms),
    {
        OnboardingScene { wink: Some(now_ms) }
    }

    /// Advances the wink timer; returns whether a redraw is due.
    pub fn on_tick(&mut self, now_ms: u64) -> (redraw: bool)
        ensures
            match old(self).wink {
                Some(w) => {
                    if now_ms >= w && now_ms - w >= WINK_MILLIS {
                        final(self).wink is None && redraw
                    } else {
                        final(self).wink == old(self).wink && !redraw
                    }
                },
                None => final(self).wink == Some(now_ms) && redraw,
            },
    {
        match self.wink {
            Some(w) => {
                if now_ms >= w && now_ms - w >= WINK_MILLIS {
                    self.wink = None;
                    true
                } else {
                    false
                }
            },
            None => {
                self.wink = Some(now_ms);
                true
            },
        }
    }

    /// The gauge percentage shown while onboarding runs.
    pub fn get_progress(&self) -> (r: u16)
        ensures
            r == 100,
    {
        100
    }
}

/// A one-line bold label.
pub struct Label {
    pub text: String,
}

impl Label {
    pub fn new(text: String) -> (r: Label)
        ensures
            r.text == text,
    {
        Label { text }
    }
}

/// The wallet container card with its start/pause button.
pub struct WalletContainerWidget {}

impl WalletContainerWidget {
    pub fn new() -> (r: WalletContainerWidget) {
        WalletContainerWidget {  }
    }

    /// The button caption for the current session state.
    pub fn button_label(&self, session: &SessionConfig) -> (r: &'static str)
        ensures
            session.wallet_active ==> r@ == "Pause"@,
            !session.wallet_active ==> r@ == "Start wallet"@,
    {
        if session.is_wallet_active() {
            "Pause"
        } else {
            "Start wallet"
        }
    }

    /// Confirming the card toggles whether the wallet should run; the
    /// change feeds back through reconfiguration, never as a direct state
    /// write.
    pub fn on_activate(&self, session: &mut SessionConfig)
        ensures
            final(session).wallet_active == !old(session).wallet_active,
    {
        session.wallet_active = !session.wallet_active;
    }
}

/// The tabs of the normal mode.
#[derive(Clone, Copy, PartialEq, Eq, Structural, Debug)]
pub enum NormalTabs {
    Mining,
    BaseNode,
    Wallet,
}

impl NormalTabs {
    /// Every tab, in display order.
    pub fn all() -> (r: Vec<NormalTabs>)
        ensures
            r@ == seq![NormalTabs::Mining, NormalTabs::BaseNode, NormalTabs::Wallet],
    {
        let mut r: Vec<NormalTabs> = Vec::new();
        r.push(NormalTabs::Mining);
        r.push(NormalTabs::BaseNode);
        r.push(NormalTabs::Wallet);
        proof {
            assert(r@ =~= seq![NormalTabs::Mining, NormalTabs::BaseNode, NormalTabs::Wallet]);
        }
        r
    }

    /// The tab at a display position.
    pub fn from_repr(i: usize) -> (r: Option<NormalTabs>)
        ensures
            i == 0 ==> r == Some(NormalTabs::Mining),
            i == 1 ==> r == Some(NormalTabs::BaseNode),
            i == 2 ==> r == Some(NormalTabs::Wallet),
            i >= 3 ==> r is None,
    {
        if i == 0 {
            Some(NormalTabs::Mining)
        } else if i == 1 {
            Some(NormalTabs::BaseNode)
        } else if i == 2 {
            Some(NormalTabs::Wallet)
        } else {
            None
        }
    }

    /// The tab's caption.
    pub fn title(&self) -> (r: &'static str)
        ensures
            *self == NormalTabs::Mining ==> r@ == "Mining"@,
            *self == NormalTabs::BaseNode ==> r@ == "Base Node"@,
            *self == NormalTabs::Wallet ==> r@ == "Wallet"@,
    {
        match self {
            NormalTabs::Mining => "Mining",
            NormalTabs::BaseNode => "Base Node",
            NormalTabs::Wallet => "Wallet",
        }
    }
}

} // verus!
