//! A terminal piano tutor's core: the note event model and its catalog, an
//! ASCII keyboard renderer, the playback driver and the interactive trainers,
//! all as plain values and state machines that a front end drives.

pub mod notes;
pub mod text;
pub mod catalog;
pub mod device;
pub mod keyboard;
pub mod menu;
pub mod playback;
pub mod trainer;
