//! The orchestrator: selects exactly one backend from the configuration's
//! case at construction, owns its handle for the instance's lifetime, and
//! exposes the backend's body as the panel content. It accepts no runtime
//! input and emits no output: after construction it is a passive container.

use vstd::prelude::*;

use crate::backend::{
    BackendKind, BackendWidget, CustomPowerMenu, SystemdPowerMenu, UnixPowerMenu,
};
use crate::config::PowerMenuConfig;

verus! {

/// The action rows of the body shown by the backend that `config` selects,
/// right after launch: the user-command backend lists its configured
/// commands; the other two manage their rows internally and expose none.
pub open spec fn launched_rows(config: PowerMenuConfig) -> Seq<Seq<char>> {
    match config {
        PowerMenuConfig::Custom(c) => c.command_list.deep_view(),
        _ => Seq::empty(),
    }
}

/// A running power menu: one live backend handle, in the case chosen by the
/// configuration at construction. The case never changes afterwards, and no
/// other component can reach the handle.
pub enum PowerMenu {
    Systemd(SystemdPowerMenu),
    Unix(UnixPowerMenu),
    Custom(CustomPowerMenu),
}

impl PowerMenu {
    /// The active backend strategy; fixed for the instance's lifetime.
    pub open spec fn kind(&self) -> BackendKind {
        match self {
            PowerMenu::Systemd(_) => BackendKind::Systemd,
            PowerMenu::Unix(_) => BackendKind::Unix,
            PowerMenu::Custom(_) => BackendKind::Custom,
        }
    }

    /// The action rows of the active backend's body.
    pub open spec fn rows(&self) -> Seq<Seq<char>> {
        match self {
            PowerMenu::Systemd(b) => b.rows_spec(),
            PowerMenu::Unix(b) => b.rows_spec(),
            PowerMenu::Custom(b) => b.rows_spec(),
        }
    }

    /// Construction: one branch over the three cases, each performing the
    /// identical sequence — take the nested configuration, hand it to the
    /// matching backend's start routine, wrap the handle in the matching
    /// case. No other backend is constructed or probed, and the
    /// configuration is not retained.
    pub fn init(config: PowerMenuConfig) -> (r: Self)
        ensures
            r.kind() == config.kind(),
            r.rows() == launched_rows(config),
    {
        match config {
            PowerMenuConfig::Systemd(c) => PowerMenu::Systemd(SystemdPowerMenu::launch(c)),
            PowerMenuConfig::Unix(c) => PowerMenu::Unix(UnixPowerMenu::launch(c)),
            PowerMenuConfig::Custom(c) => PowerMenu::Custom(CustomPowerMenu::launch(c)),
        }
    }

    /// The panel body: the active backend's displayable container, embedded
    /// unchanged. A pure read; may be called repeatedly, and the reference
    /// stays valid for the handle's lifetime.
    pub fn widget(&self) -> (r: &BackendWidget)
        ensures
            r.kind_spec() == self.kind(),
            r.rows_spec() == self.rows(),
    {
        match self {
            PowerMenu::Systemd(b) => b.widget(),
            PowerMenu::Unix(b) => b.widget(),
            PowerMenu::Custom(b) => b.widget(),
        }
    }

    /// Teardown: stop the held backend and release its handle. The instance
    /// is consumed, so teardown cannot happen a second time without explicit
    /// re-construction; the returned tag names the backend that was stopped.
    pub fn shutdown(self) -> (r: BackendKind)
        ensures
            r == self.kind(),
    {
        match self {
            PowerMenu::Systemd(b) => {
                b.stop();
                BackendKind::Systemd
            },
            PowerMenu::Unix(b) => {
                b.stop();
                BackendKind::Unix
            },
            PowerMenu::Custom(b) => {
                b.stop();
                BackendKind::Custom
            },
        }
    }
}

} // verus!
