//! Application configuration: storage paths and the capture, model and
//! intervention settings with their defaults.
use vstd::prelude::*;
use std::path::PathBuf;

verus! {

#[verifier::external_type_specification]
#[verifier::external_body]
pub struct ExPathBuf(PathBuf);

/// `PathBuf::clone`, which std documents as returning a copy of the path.
pub assume_specification[ <PathBuf as Clone>::clone ](p: &PathBuf) -> (r: PathBuf)
    ensures
        r == *p,
;

/// Root configuration object used throughout the application.
#[derive(Debug, Clone)]
pub struct AppConfig {
    pub paths: PathsConfig,
    pub capture: CaptureConfig,
    pub ml: MLConfig,
    pub intervention: InterventionConfig,
}

/// Application storage paths.
#[derive(Debug, Clone)]
pub struct PathsConfig {
    pub app_data_dir: PathBuf,
    pub database_path: PathBuf,
    pub model_path: PathBuf,
    pub logs_dir: PathBuf,
}

/// Human-computer interaction capture settings.
#[derive(Debug, Clone, Copy, PartialEq, Eq)]
pub struct CaptureConfig {
    pub keyboard_poll_interval_ms: u64,
    pub mouse_poll_interval_ms: u64,
    pub idle_threshold_seconds: u64,
}

/// Machine learning inference settings.
#[derive(Debug, Clone, Copy, PartialEq, Eq)]
pub struct MLConfig {
    pub feature_window_seconds: u64,
    pub prediction_interval_seconds: u64,
}

/// Intervention system settings (JITAI logic).
#[derive(Debug, Clone, Copy, PartialEq, Eq)]
pub struct InterventionConfig {
    pub risk_prediction_threshold: u32,
    pub cooldown_minutes: u64,
}

pub open spec fn default_capture() -> CaptureConfig {
    CaptureConfig { keyboard_poll_interval_ms: 100, mouse_poll_interval_ms: 100, idle_threshold_seconds: 15 }
}

pub open spec fn default_ml() -> MLConfig {
    MLConfig { feature_window_seconds: 30, prediction_interval_seconds: 15 }
}

pub open spec fn default_intervention() -> InterventionConfig {
    InterventionConfig { risk_prediction_threshold: 3, cooldown_minutes: 15 }
}

impl Default for CaptureConfig {
    fn default() -> (r: Self)
        ensures
            r == default_capture(),
    {
        CaptureConfig { keyboard_poll_interval_ms: 100, mouse_poll_interval_ms: 100, idle_threshold_seconds: 15 }
    }
}

impl Default for MLConfig {
    fn default() -> (r: Self)
        ensures
            r == default_ml(),
    {
        MLConfig { feature_window_seconds: 30, prediction_interval_seconds: 15 }
    }
}

impl Default for InterventionConfig {
    fn default() -> (r: Self)
        ensures
            r == default_intervention(),
    {
        InterventionConfig { risk_prediction_threshold: 3, cooldown_minutes: 15 }
    }
}

impl AppConfig {
    /// A configuration with the given storage paths and default settings.
    pub fn new(paths: PathsConfig) -> (r: Self)
        ensures
            r.paths == paths,
            r.capture == default_capture(),
            r.ml == default_ml(),
            r.intervention == default_intervention(),
    {
        AppConfig {
            paths,
            capture: CaptureConfig::default(),
            ml: MLConfig::default(),
            intervention: InterventionConfig::default(),
        }
    }
}

} // verus!
