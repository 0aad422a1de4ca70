//! Window-control bookkeeping: controls, their creation state machine, the
//! event registries, and the layout arranger.

pub mod button;
pub mod events;
pub mod globals;
pub mod layout_arranger;
pub mod native_control_base;
