//! The computing half of a status-bar updater.
//!
//! Each tick the program around this library reads a handful of host
//! metrics, and this library turns them into one line of text for the root
//! window's name: it averages, scales and parses the raw readings, lays the
//! line out, decides whether the line may be published, and says what the
//! loop does next. Nothing here touches a file, a socket or a child process.

pub mod battery;
pub mod clock;
pub mod cpu;
pub mod cycle;
pub mod line;
pub mod memory;
pub mod text;
pub mod thermal;
pub mod volume;
pub mod warning;
