//! Security components of the core: the reversible traffic-obfuscation engine
//! and the fail-closed kill-switch state machine.

pub mod kill_switch;
pub mod traffic_obfuscation;
