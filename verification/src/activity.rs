//! The catalogue of break activities a user can choose from.
use vstd::prelude::*;
use crate::table_structs::UserPreferences;

verus! {

/// The catalogue: each activity's name and its shortest and longest duration in minutes.
pub open spec fn catalogue() -> Seq<(Seq<char>, i64, i64)> {
    seq![
        ("Walking"@, 5i64, 10i64),
        ("Light Exercise"@, 10i64, 20i64),
        ("Gaming"@, 10i64, 25i64),
        ("Reading"@, 10i64, 20i64),
        ("Meditation"@, 5i64, 10i64),
        ("Stretching"@, 5i64, 10i64),
        ("Crochet"@, 15i64, 20i64),
        ("Snack break"@, 5i64, 10i64),
        ("Youtube"@, 10i64, 15i64),
        ("Scrolling reels"@, 5i64, 10i64),
    ]
}

/// A fresh preference row for a catalogue entry: never suggested nor completed.
pub open spec fn is_catalogue_row(p: UserPreferences, e: (Seq<char>, i64, i64)) -> bool {
    &&& p.id == Some(0i64)
    &&& p.activity_name@ == e.0
    &&& p.min_duration_minutes == e.1
    &&& p.max_duration_minutes == e.2
    &&& p.times_suggested == 0
    &&& p.times_completed == 0
    &&& p.last_suggested == 0
}

/// The first catalogue position with the given name, if any.
pub open spec fn catalogue_index(name: Seq<char>) -> Option<int> {
    if exists|k: int| 0 <= k < catalogue().len() && #[trigger] catalogue()[k].0 == name {
        Some(
            choose|k: int|
                0 <= k < catalogue().len() && #[trigger] catalogue()[k].0 == name && forall|j: int|
                    0 <= j < k ==> catalogue()[j].0 != name,
        )
    } else {
        None
    }
}

/// The catalogue entries saved for a list of chosen names, in the order
/// chosen; names outside the catalogue are skipped.
pub open spec fn saved_entries(chosen: Seq<String>) -> Seq<(Seq<char>, i64, i64)>
    decreases chosen.len(),
{
    if chosen.len() == 0 {
        Seq::empty()
    } else {
        let prev = saved_entries(chosen.drop_last());
        match catalogue_index(chosen.last()@) {
            Some(k) => prev.push(catalogue()[k]),
            None => prev,
        }
    }
}

fn catalogue_row(name: &str, min_duration_minutes: i64, max_duration_minutes: i64) -> (r: UserPreferences)
    ensures
        r.id == Some(0i64),
        r.activity_name@ == name@,
        r.min_duration_minutes == min_duration_minutes,
        r.max_duration_minutes == max_duration_minutes,
        r.times_suggested == 0,
        r.times_completed == 0,
        r.last_suggested == 0,
{
    UserPreferences {
        id: Some(0),
        activity_name: name.to_string(),
        min_duration_minutes,
        max_duration_minutes,
        times_suggested: 0,
        times_completed: 0,
        last_suggested: 0,
    }
}

/// An exact copy of a preference row.
pub fn copy_preference(p: &UserPreferences) -> (r: UserPreferences)
    ensures
        r == *p,
{
    UserPreferences {
        id: p.id,
        activity_name: p.activity_name.clone(),
        min_duration_minutes: p.min_duration_minutes,
        max_duration_minutes: p.max_duration_minutes,
        times_suggested: p.times_suggested,
        times_completed: p.times_completed,
        last_suggested: p.last_suggested,
    }
}

/// The break activities offered to the user, in catalogue order.
pub fn break_activities() -> (r: Vec<UserPreferences>)
    ensures
        r@.len() == catalogue().len(),
        forall|i: int| 0 <= i < r@.len() ==> is_catalogue_row(#[trigger] r@[i], catalogue()[i]),
{
    let mut v: Vec<UserPreferences> = Vec::new();
    v.push(catalogue_row("Walking", 5, 10));
    v.push(catalogue_row("Light Exercise", 10, 20));
    v.push(catalogue_row("Gaming", 10, 25));
    v.push(catalogue_row("Reading", 10, 20));
    v.push(catalogue_row("Meditation", 5, 10));
    v.push(catalogue_row("Stretching", 5, 10));
    v.push(catalogue_row("Crochet", 15, 20));
    v.push(catalogue_row("Snack break", 5, 10));
    v.push(catalogue_row("Youtube", 10, 15));
    v.push(catalogue_row("Scrolling reels", 5, 10));
    v
}

/// The names of the catalogue activities, in catalogue order.
pub fn preference_names() -> (r: Vec<String>)
    ensures
        r@.len() == catalogue().len(),
        forall|i: int| 0 <= i < r@.len() ==> (#[trigger] r@[i])@ == catalogue()[i].0,
{
    let activities = break_activities();
    let mut names: Vec<String> = Vec::new();
    let n = activities.len();
    let mut i: usize = 0;
    while i < n
        invariant
            n == activities@.len(),
            n == catalogue().len(),
            i <= n,
            forall|j: int| 0 <= j < n ==> is_catalogue_row(#[trigger] activities@[j], catalogue()[j]),
            names@.len() == i,
            forall|j: int| 0 <= j < i ==> (#[trigger] names@[j])@ == catalogue()[j].0,
        decreases n - i,
    {
        names.push(activities[i].activity_name.clone());
        i = i + 1;
    }
    names
}

fn find_in_catalogue(activities: &Vec<UserPreferences>, name: &String) -> (r: Option<usize>)
    requires
        activities@.len() == catalogue().len(),
        forall|i: int| 0 <= i < activities@.len() ==> is_catalogue_row(#[trigger] activities@[i], catalogue()[i]),
    ensures
        r matches Some(k) ==> catalogue_index(name@) == Some(k as int),
        r is None ==> catalogue_index(name@) is None,
{
    let n = activities.len();
    let mut k: usize = 0;
    while k < n
        invariant
            n == activities@.len(),
            n == catalogue().len(),
            k <= n,
            forall|i: int| 0 <= i < activities@.len() ==> is_catalogue_row(#[trigger] activities@[i], catalogue()[i]),
            forall|j: int| 0 <= j < k ==> catalogue()[j].0 != name@,
        decreases n - k,
    {
        if activities[k].activity_name == *name {
            assert(is_catalogue_row(activities@[k as int], catalogue()[k as int]));
            assert(catalogue()[k as int].0 == name@);
            let ghost c = catalogue_index(name@);
            assert(c is Some);
            assert(c == Some(k as int)) by {
                let kk = c->0;
                if kk < k {
                } else if kk > k {
                    assert(catalogue()[k as int].0 == name@);
                }
            }
            return Some(k);
        }
        assert(is_catalogue_row(activities@[k as int], catalogue()[k as int]));
        k = k + 1;
    }
    None
}

/// The catalogue rows to save for the names the user chose: for each chosen
/// name in turn, the catalogue activity of that name; unknown names are skipped.
pub fn activities_to_save(chosen: &Vec<String>) -> (r: Vec<UserPreferences>)
    ensures
        r@.len() == saved_entries(chosen@).len(),
        forall|i: int| 0 <= i < r@.len() ==> is_catalogue_row(#[trigger] r@[i], saved_entries(chosen@)[i]),
{
    let activities = break_activities();
    let mut out: Vec<UserPreferences> = Vec::new();
    let n = chosen.len();
    let mut i: usize = 0;
    while i < n
        invariant
            n == chosen@.len(),
            i <= n,
            activities@.len() == catalogue().len(),
            forall|j: int| 0 <= j < activities@.len() ==> is_catalogue_row(#[trigger] activities@[j], catalogue()[j]),
            out@.len() == saved_entries(chosen@.take(i as int)).len(),
            forall|j: int| 0 <= j < out@.len() ==> is_catalogue_row(#[trigger] out@[j], saved_entries(chosen@.take(i as int))[j]),
        decreases n - i,
    {
        proof {
            assert(chosen@.take(i + 1).drop_last() =~= chosen@.take(i as int));
            assert(chosen@.take(i + 1).last() == chosen@[i as int]);
        }
        match find_in_catalogue(&activities, &chosen[i]) {
            Some(k) => {
                assert(is_catalogue_row(activities@[k as int], catalogue()[k as int]));
                out.push(copy_preference(&activities[k]));
            },
            None => {},
        }
        i = i + 1;
    }
    proof {
        assert(chosen@.take(n as int) =~= chosen@);
    }
    out
}

} // verus!
