//! Prayer-time companion library: clock arithmetic, the daily prayer
//! schedule, Hijri dates, text formatting and the small decision procedures
//! that drive the desktop application.

pub mod clock;
pub mod types;
pub mod prayer;
pub mod text;
pub mod format;
pub mod hijri;
pub mod tabular;
pub mod cli;
pub mod spa;
pub mod detect;
pub mod input;
pub mod tray;
pub mod schedule;
pub mod qiblah;
pub mod controls;
