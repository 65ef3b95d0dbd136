//! Rows of the behaviour database that the verified logic builds or reads.
use vstd::prelude::*;

verus! {

/// A row of the `interventions` table.
#[derive(Debug, Clone, PartialEq, Eq)]
pub struct Interventions {
    pub predictions_id: i64,
    pub timestamp: i64,
    pub intervention_type: String,
    pub prediction_label: String,
    pub user_label: Option<String>,
    pub dismissed: bool,
}

/// A row of the `user_preferences` table: a break activity the user chose,
/// with its suggestion bookkeeping. (Its average focus score is kept beside
/// it by the database layer.)
#[derive(Debug, Clone, PartialEq, Eq)]
pub struct UserPreferences {
    pub id: Option<i64>,
    pub activity_name: String,
    pub min_duration_minutes: i64,
    pub max_duration_minutes: i64,
    pub times_suggested: i64,
    pub times_completed: i64,
    pub last_suggested: i64,
}

} // verus!
