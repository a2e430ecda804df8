//! Core of the installer of an audio plugin.
//!
//! The installer is a wizard: it walks through selecting plugin formats and
//! destination directories, deploys the plugin binaries and tells how that
//! went. Before the wizard is shown, the process makes sure that it runs
//! with elevated rights.
//!
//! All decisions are taken here. The host performs the outside work
//! (dialogs, the file system, the launch of a process) and hands back what
//! happened:
//!
//! - [`elevation`] decides what follows the elevation check and a relaunch;
//! - [`wizard`] is the state machine of the wizard, [`page`] and [`buttons`]
//!   its pages and its navigation buttons;
//! - [`deploy`] orders the steps that place one binary, [`format`] and
//!   [`path`] say where it goes, [`outcome`] and [`notify`] put a result
//!   into words;
//! - [`laws`] proves what holds over whole runs.
//!
//! Two small state holders of the user interface live here as well:
//! [`installing_page`], and [`waveform`], the sample history behind the
//! plugin's waveform display.

pub mod buttons;
pub mod deploy;
pub mod elevation;
pub mod format;
pub mod installing_page;
pub mod laws;
pub mod notify;
pub mod outcome;
pub mod page;
pub mod path;
pub mod waveform;
pub mod wizard;

pub use crate::page::TabPage;
pub use crate::wizard::{AppData, AppEvent};
