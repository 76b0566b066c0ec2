//! The configuration model: a closed, tagged choice among the three backend
//! strategies, each case wrapping that backend's own configuration. The value
//! is built once by an external loader and consumed by the orchestrator.

use vstd::prelude::*;

use crate::backend::BackendKind;

verus! {

/// Configuration consumed by the service-manager backend. Its meaning is
/// owned by that backend; the orchestrator never inspects it.
pub struct SystemdPowerMenuConfig {}

impl Default for SystemdPowerMenuConfig {
    fn default() -> (r: Self)
        ensures
            r == (SystemdPowerMenuConfig {}),
    {
        SystemdPowerMenuConfig {}
    }
}

/// Configuration consumed by the direct-OS backend. Its meaning is owned by
/// that backend; the orchestrator never inspects it.
pub struct UnixPowerMenuConfig {}

impl Default for UnixPowerMenuConfig {
    fn default() -> (r: Self)
        ensures
            r == (UnixPowerMenuConfig {}),
    {
        UnixPowerMenuConfig {}
    }
}

/// Configuration consumed by the user-command backend: the commands it offers,
/// one action row each, kept in order.
pub struct CustomPowerMenuConfig {
    pub command_list: Vec<String>,
}

impl Default for CustomPowerMenuConfig {
    fn default() -> (r: Self)
        ensures
            r.command_list@ == Seq::<String>::empty(),
    {
        CustomPowerMenuConfig { command_list: Vec::new() }
    }
}

/// The tagged choice: exactly one case is active, and the wrapped value's
/// shape is fully determined by the case. Decoding from external data, and
/// the rejection of unknown tags, belong to the loader that produces a value
/// of this type; nothing here validates the nested configurations.
pub enum PowerMenuConfig {
    Systemd(SystemdPowerMenuConfig),
    Unix(UnixPowerMenuConfig),
    Custom(CustomPowerMenuConfig),
}

impl PowerMenuConfig {
    /// The tag of the backend strategy this configuration selects.
    pub open spec fn kind(&self) -> BackendKind {
        match self {
            PowerMenuConfig::Systemd(_) => BackendKind::Systemd,
            PowerMenuConfig::Unix(_) => BackendKind::Unix,
            PowerMenuConfig::Custom(_) => BackendKind::Custom,
        }
    }
}

impl Default for PowerMenuConfig {
    /// With no case supplied, the menu uses the service-manager backend with
    /// that backend's own default configuration.
    fn default() -> (r: Self)
        ensures
            r == PowerMenuConfig::Systemd(SystemdPowerMenuConfig {}),
    {
        PowerMenuConfig::Systemd(SystemdPowerMenuConfig::default())
    }
}

} // verus!
