//! Verified core of the FocusGuard procrastination-detection client: the
//! configuration defaults, the per-window feature counting, the capture and
//! prediction-loop decision machines, the JITAI activity selection and the
//! label bookkeeping that the desktop shell drives.
pub mod activity;
pub mod analytics;
pub mod breaks;
pub mod capture;
pub mod config;
pub mod extractor;
pub mod features;
pub mod intervention;
pub mod jitai;
pub mod models;
pub mod settings;
pub mod shell;
pub mod table_structs;
pub mod text;
