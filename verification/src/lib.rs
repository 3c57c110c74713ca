//! Resident runtime of a small single-CPU kernel: keyboard capture, a polling
//! ATA driver and a one-sector flat-file directory, modelled as verified
//! state machines over plain values.

pub mod keymap;
pub mod input;
pub mod record;
pub mod directory;
pub mod ata;
pub mod shell;
pub mod session;
pub mod routing;
pub mod display;
pub mod screen;
pub mod heap;
pub mod kernel;
pub mod task;
