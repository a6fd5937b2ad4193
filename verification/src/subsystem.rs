//! What the server reports of its subsystems.

use vstd::prelude::*;

verus! {

/// No module of the subsystem has failed.
pub const FAILURE_NONE: u8 = 0;

/// A module gives a hint.
pub const FAILURE_HINT: u8 = 1;

/// A module warns.
pub const FAILURE_WARNING: u8 = 2;

/// A module has failed.
pub const FAILURE_ERROR: u8 = 3;

/// The state of one module of a subsystem.
#[derive(Debug, PartialEq, Clone)]
pub struct ModuleStatus {
    pub name: String,
    pub enabled: bool,
    pub status: u8,
    pub failure_status: u8,
    pub failure_id: String,
    pub failure_msg: String,
}

/// A subsystem of the server: its modules, and how badly the worst of them
/// has failed.
#[derive(Debug, PartialEq, Clone)]
pub struct Subsystem {
    pub id: String,
    pub name: String,
    pub description: String,
    pub module_status: Vec<ModuleStatus>,
    pub failure_status: u8,
}

} // verus!
