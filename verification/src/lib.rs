//! Core of a configurable power menu widget: a tagged configuration that names
//! one of three interchangeable backend strategies, an orchestrator that
//! starts exactly one backend and exposes its displayable body, and the
//! markup-escaping helper that renders the menu's heading.

pub mod backend;
pub mod config;
pub mod label;
pub mod menu;
