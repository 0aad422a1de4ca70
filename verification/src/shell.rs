//! Shell-side interfaces: the modal dialog family, shell items and their
//! arrays, the taskbar list, and the shell launch call.

pub mod hwnd;
pub mod ifiledialog;
pub mod imodalwindow;
pub mod ishellitem;
pub mod ishellitemarray;
pub mod itaskbarlist3;
