//! State model and input-loop decisions for a turn-based grid game driven one
//! beat per keypress: 8-bit coordinates with checked arithmetic, a fixed-capacity
//! state store with bounds-checked lookups, and the rules that end a session.

pub mod coords;
pub mod session;
pub mod state;
