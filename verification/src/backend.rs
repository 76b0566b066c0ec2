//! The three backend strategies, as the orchestrator sees them: an opaque
//! handle per strategy, started once from its own configuration, offering a
//! displayable body and a teardown.

use vstd::prelude::*;

use crate::config::{CustomPowerMenuConfig, SystemdPowerMenuConfig, UnixPowerMenuConfig};

verus! {

/// The tag of a backend strategy. Exactly one is active per menu instance,
/// chosen once at construction.
#[derive(Clone, Copy, Debug, PartialEq, Eq, Structural)]
pub enum BackendKind {
    Systemd,
    Unix,
    Custom,
}

impl BackendKind {
    /// The diagnostic name of the strategy, as shown in the heading subtitle.
    pub open spec fn name_spec(&self) -> Seq<char> {
        match self {
            BackendKind::Systemd => "systemd"@,
            BackendKind::Unix => "unix"@,
            BackendKind::Custom => "custom"@,
        }
    }

    pub fn name(&self) -> (r: &'static str)
        ensures
            r@ == self.name_spec(),
    {
        match self {
            BackendKind::Systemd => "systemd",
            BackendKind::Unix => "unix",
            BackendKind::Custom => "custom",
        }
    }
}

/// The displayable body a running backend hands to its container. The
/// orchestrator embeds it unchanged: `kind` records which strategy produced
/// the body, `rows` are the action rows the container can enumerate, in
/// display order.
pub struct BackendWidget {
    kind: BackendKind,
    rows: Vec<String>,
}

impl BackendWidget {
    /// Which strategy produced this body.
    pub closed spec fn kind_spec(&self) -> BackendKind {
        self.kind
    }

    /// The action rows of the body, in display order.
    pub closed spec fn rows_spec(&self) -> Seq<Seq<char>> {
        self.rows.deep_view()
    }

    pub fn kind(&self) -> (r: BackendKind)
        ensures
            r == self.kind_spec(),
    {
        self.kind
    }

    pub fn rows(&self) -> (r: &Vec<String>)
        ensures
            r.deep_view() == self.rows_spec(),
    {
        &self.rows
    }
}

/// A handle to a running service-manager backend. `launch` is the only
/// constructor, so holding a handle witnesses that the backend was started
/// exactly once; the holder may only read the body or stop the backend.
pub struct SystemdPowerMenu {
    widget: BackendWidget,
}

impl SystemdPowerMenu {
    /// Every handle carries a body produced by this strategy.
    #[verifier::type_invariant]
    pub closed spec fn inv(&self) -> bool {
        self.widget.kind_spec() == BackendKind::Systemd
    }

    /// The action rows of the running backend's body. This backend talks to
    /// the service manager itself and manages its rows internally, so the
    /// handle exposes none.
    pub closed spec fn rows_spec(&self) -> Seq<Seq<char>> {
        self.widget.rows_spec()
    }

    /// Start the backend with its configuration, consumed by value.
    pub fn launch(config: SystemdPowerMenuConfig) -> (r: Self)
        ensures
            r.rows_spec() == Seq::<Seq<char>>::empty(),
    {
        let SystemdPowerMenuConfig {} = config;
        let r = SystemdPowerMenu {
            widget: BackendWidget { kind: BackendKind::Systemd, rows: Vec::new() },
        };
        proof {
            assert(r.rows_spec() =~= Seq::<Seq<char>>::empty());
        }
        r
    }

    /// The backend's current body; valid for the handle's whole lifetime.
    pub fn widget(&self) -> (r: &BackendWidget)
        ensures
            r.kind_spec() == BackendKind::Systemd,
            r.rows_spec() == self.rows_spec(),
    {
        proof {
            use_type_invariant(self);
        }
        &self.widget
    }

    /// Stop the running backend and release the handle. Taking the handle by
    /// value makes a second teardown unrepresentable without re-construction.
    pub fn stop(self) {
    }
}

/// A handle to a running direct-OS backend; same contract surface as the
/// other strategies, by design.
pub struct UnixPowerMenu {
    widget: BackendWidget,
}

impl UnixPowerMenu {
    /// Every handle carries a body produced by this strategy.
    #[verifier::type_invariant]
    pub closed spec fn inv(&self) -> bool {
        self.widget.kind_spec() == BackendKind::Unix
    }

    /// The action rows of the running backend's body. This backend issues OS
    /// calls itself and manages its rows internally, so the handle exposes
    /// none.
    pub closed spec fn rows_spec(&self) -> Seq<Seq<char>> {
        self.widget.rows_spec()
    }

    /// Start the backend with its configuration, consumed by value.
    pub fn launch(config: UnixPowerMenuConfig) -> (r: Self)
        ensures
            r.rows_spec() == Seq::<Seq<char>>::empty(),
    {
        let UnixPowerMenuConfig {} = config;
        let r = UnixPowerMenu {
            widget: BackendWidget { kind: BackendKind::Unix, rows: Vec::new() },
        };
        proof {
            assert(r.rows_spec() =~= Seq::<Seq<char>>::empty());
        }
        r
    }

    /// The backend's current body; valid for the handle's whole lifetime.
    pub fn widget(&self) -> (r: &BackendWidget)
        ensures
            r.kind_spec() == BackendKind::Unix,
            r.rows_spec() == self.rows_spec(),
    {
        proof {
            use_type_invariant(self);
        }
        &self.widget
    }

    /// Stop the running backend and release the handle. Taking the handle by
    /// value makes a second teardown unrepresentable without re-construction.
    pub fn stop(self) {
    }
}

/// A handle to a running user-command backend: its body lists the configured
/// commands, one action row each, in order.
pub struct CustomPowerMenu {
    widget: BackendWidget,
}

impl CustomPowerMenu {
    /// Every handle carries a body produced by this strategy.
    #[verifier::type_invariant]
    pub closed spec fn inv(&self) -> bool {
        self.widget.kind_spec() == BackendKind::Custom
    }

    /// The action rows of the running backend's body.
    pub closed spec fn rows_spec(&self) -> Seq<Seq<char>> {
        self.widget.rows_spec()
    }

    /// Start the backend with its configuration, consumed by value: the body
    /// shows exactly the configured commands, in order.
    pub fn launch(config: CustomPowerMenuConfig) -> (r: Self)
        ensures
            r.rows_spec() == config.command_list.deep_view(),
    {
        let CustomPowerMenuConfig { command_list } = config;
        CustomPowerMenu {
            widget: BackendWidget { kind: BackendKind::Custom, rows: command_list },
        }
    }

    /// The backend's current body; valid for the handle's whole lifetime.
    pub fn widget(&self) -> (r: &BackendWidget)
        ensures
            r.kind_spec() == BackendKind::Custom,
            r.rows_spec() == self.rows_spec(),
    {
        proof {
            use_type_invariant(self);
        }
        &self.widget
    }

    /// Stop the running backend and release the handle. Taking the handle by
    /// value makes a second teardown unrepresentable without re-construction.
    pub fn stop(self) {
    }
}

} // verus!
