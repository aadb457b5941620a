//! A Windows performance optimizer's logic: the optimization profiles, the
//! changes a profile makes and how each is carried out and undone through
//! PowerShell, the snapshot that records what was overwritten, and the reading
//! of hardware reports.
pub mod text;
pub mod json;
pub mod types;
pub mod registry;
pub mod scripts;
pub mod optimizer;
pub mod revert;
pub mod laws;
pub mod outcomes;
pub mod readings;
pub mod profiles;
pub mod detector;
pub mod snapshot;
pub mod commands;
