//! Just-in-time choice of a break activity: activities never suggested come
//! first; once all have been tried, an epsilon-greedy bandit exploits the
//! best-scored activity seven times in ten and explores at random otherwise.
//! The activity suggested last is left out whenever there is another choice.
use vstd::prelude::*;
use rand::seq::IndexedRandom;
use rand::RngExt;
use crate::models::{ActivitySuggestion, PreferenceUpdate};
use crate::table_structs::UserPreferences;

verus! {

/// Chance, out of [`EXPLOIT_DENOMINATOR`], of exploiting the best-scored activity.
pub const EXPLOIT_NUMERATOR: u32 = 7;

pub const EXPLOIT_DENOMINATOR: u32 = 10;

/// Positions `k < n`, in increasing order, that satisfy `pred`.
pub open spec fn indices_where(n: nat, pred: spec_fn(usize) -> bool) -> Seq<usize>
    decreases n,
{
    if n == 0 {
        Seq::empty()
    } else {
        let prev = indices_where((n - 1) as nat, pred);
        if pred((n - 1) as usize) {
            prev.push((n - 1) as usize)
        } else {
            prev
        }
    }
}

/// The position of the most recently suggested activity: the last one with
/// the greatest `last_suggested`.
pub open spec fn most_recent(prefs: Seq<UserPreferences>) -> Option<int>
    decreases prefs.len(),
{
    if prefs.len() == 0 {
        None
    } else {
        match most_recent(prefs.drop_last()) {
            None => Some(prefs.len() - 1),
            Some(j) => if prefs.last().last_suggested >= prefs[j].last_suggested {
                Some(prefs.len() - 1)
            } else {
                Some(j)
            },
        }
    }
}

pub open spec fn untried_pred(prefs: Seq<UserPreferences>) -> spec_fn(usize) -> bool {
    |k: usize| prefs[k as int].times_suggested == 0
}

pub open spec fn untried_other_pred(prefs: Seq<UserPreferences>, id: Option<i64>) -> spec_fn(usize) -> bool {
    |k: usize| prefs[k as int].times_suggested == 0 && prefs[k as int].id != id
}

pub open spec fn other_pred(prefs: Seq<UserPreferences>, id: Option<i64>) -> spec_fn(usize) -> bool {
    |k: usize| prefs[k as int].id != id
}

pub open spec fn any_pred() -> spec_fn(usize) -> bool {
    |k: usize| true
}

/// The id of the most recently suggested activity (`None` when there is none).
pub open spec fn last_id(prefs: Seq<UserPreferences>) -> Option<i64> {
    match most_recent(prefs) {
        Some(j) => prefs[j].id,
        None => None,
    }
}

/// The activities never suggested; when there are several, without those
/// sharing the id of the most recently suggested one.
pub open spec fn untried_pool(prefs: Seq<UserPreferences>) -> Seq<usize> {
    let untried = indices_where(prefs.len(), untried_pred(prefs));
    if untried.len() > 1 && most_recent(prefs) is Some {
        indices_where(prefs.len(), untried_other_pred(prefs, last_id(prefs)))
    } else {
        untried
    }
}

/// All activities; when there are several, without those sharing the id of
/// the most recently suggested one.
pub open spec fn fallback_pool(prefs: Seq<UserPreferences>) -> Seq<usize> {
    if prefs.len() > 1 && most_recent(prefs) is Some {
        indices_where(prefs.len(), other_pred(prefs, last_id(prefs)))
    } else {
        indices_where(prefs.len(), any_pred())
    }
}

/// The activity the bandit settles on.
#[derive(Debug, Clone, PartialEq, Eq)]
pub enum ActivityPick {
    /// The activity at this position.
    Chosen(usize),
    /// The activity with the highest average focus score among these
    /// positions (the last of equals), which the score keeper resolves.
    BestScoredAmong(Vec<usize>),
}

/// A suggestion and the bookkeeping to write back for it, with the bounds
/// that the break's duration was drawn between.
#[derive(Clone)]
pub struct SuggestionOutcome {
    pub update: PreferenceUpdate,
    pub suggestion: ActivitySuggestion,
    pub duration_bounds: Ghost<(i64, i64)>,
}

proof fn lemma_indices_where(n: nat, pred: spec_fn(usize) -> bool)
    requires
        n <= usize::MAX + 1,
    ensures
        forall|k: usize| #[trigger] indices_where(n, pred).contains(k) <==> (k < n && pred(k)),
        forall|a: int, b: int|
            0 <= a < b < indices_where(n, pred).len() ==> indices_where(n, pred)[a] < indices_where(n, pred)[b],
        forall|a: int| 0 <= a < indices_where(n, pred).len() ==> indices_where(n, pred)[a] < n,
        indices_where(n, pred).len() <= n,
    decreases n,
{
    if n > 0 {
        lemma_indices_where((n - 1) as nat, pred);
        let prev = indices_where((n - 1) as nat, pred);
        let cur = indices_where(n, pred);
        if pred((n - 1) as usize) {
            assert forall|k: usize| cur.contains(k) <==> (k < n && pred(k)) by {
                if k == (n - 1) as usize {
                    assert(cur[cur.len() - 1] == k);
                } else {
                    if cur.contains(k) {
                        let j = choose|j: int| 0 <= j < cur.len() && cur[j] == k;
                        assert(j < cur.len() - 1);
                        assert(prev[j] == k);
                        assert(prev.contains(k));
                    }
                    if k < n && pred(k) {
                        assert(prev.contains(k));
                        let j = choose|j: int| 0 <= j < prev.len() && prev[j] == k;
                        assert(cur[j] == k);
                    }
                }
            }
        }
    }
}

/// Appends `k` when it satisfies `pred`, extending `indices_where(k, pred)` by one position.
proof fn lemma_indices_where_step(k: nat, pred: spec_fn(usize) -> bool)
    requires
        k < usize::MAX,
    ensures
        indices_where(k + 1, pred) == if pred(k as usize) {
            indices_where(k, pred).push(k as usize)
        } else {
            indices_where(k, pred)
        },
{
}

/// Calls rand's `IndexedRandom::choose` on the positions with the thread
/// generator. The contract states what rand documents: `None` exactly when
/// there is nothing to choose from, else one of the given positions. Which
/// one is left unsaid: it is drawn at random.
#[verifier::external_body]
fn choose_position(pool: &Vec<usize>) -> (r: Option<usize>)
    ensures
        r is None <==> pool@.len() == 0,
        r matches Some(k) ==> pool@.contains(k),
{
    pool.choose(&mut rand::rng()).copied()
}

/// Calls rand's `RngExt::random_ratio` with the thread generator, and hands
/// back, as a ghost value, the ratio it asked for. The contract states what
/// rand documents: always `false` for a zero numerator and always `true`
/// when numerator and denominator are equal; otherwise the outcome is drawn
/// at random and left unsaid.
#[verifier::external_body]
fn draw_ratio(numerator: u32, denominator: u32) -> (r: (bool, Ghost<(u32, u32)>))
    requires
        denominator > 0,
        numerator <= denominator,
    ensures
        numerator == 0 ==> !r.0,
        numerator == denominator ==> r.0,
        r.1@ == (numerator, denominator),
{
    (rand::rng().random_ratio(numerator, denominator), Ghost((numerator, denominator)))
}

/// Calls rand's `RngExt::random_range` on `min..=max` with the thread
/// generator, and hands back, as a ghost value, the bounds it asked for. The
/// contract states what rand documents: the value lies in the range; which
/// one is drawn at random and left unsaid.
#[verifier::external_body]
fn draw_minutes(min: i64, max: i64) -> (r: (i64, Ghost<(i64, i64)>))
    requires
        min <= max,
    ensures
        min <= r.0 <= max,
        r.1@ == (min, max),
{
    (rand::rng().random_range(min..=max), Ghost((min, max)))
}

/// Calls `chrono::Utc::now().timestamp()`. The current time is not stated.
#[verifier::external_body]
fn now_timestamp() -> (r: i64) {
    chrono::Utc::now().timestamp()
}

fn most_recent_exec(prefs: &Vec<UserPreferences>) -> (r: Option<usize>)
    ensures
        r matches Some(j) ==> most_recent(prefs@) == Some(j as int) && j < prefs@.len(),
        r is None ==> most_recent(prefs@) is None,
{
    let n = prefs.len();
    let mut best: Option<usize> = None;
    let mut i: usize = 0;
    while i < n
        invariant
            n == prefs@.len(),
            i <= n,
            best matches Some(j) ==> most_recent(prefs@.take(i as int)) == Some(j as int) && j < i,
            best is None ==> most_recent(prefs@.take(i as int)) is None,
        decreases n - i,
    {
        proof {
            assert(prefs@.take(i + 1).drop_last() =~= prefs@.take(i as int));
            assert(prefs@.take(i + 1).last() == prefs@[i as int]);
        }
        match best {
            None => {
                best = Some(i);
            },
            Some(j) => {
                assert(prefs@.take(i + 1)[j as int] == prefs@[j as int]);
                if prefs[i].last_suggested >= prefs[j].last_suggested {
                    best = Some(i);
                }
            },
        }
        i = i + 1;
    }
    proof {
        assert(prefs@.take(n as int) =~= prefs@);
    }
    best
}

fn id_eq(a: Option<i64>, b: Option<i64>) -> (r: bool)
    ensures
        r == (a == b),
{
    match (a, b) {
        (Some(x), Some(y)) => x == y,
        (None, None) => true,
        _ => false,
    }
}

/// The candidate positions for a suggestion: the never-suggested pool and the fallback pool.
pub fn suggestion_pools(prefs: &Vec<UserPreferences>) -> (r: (Vec<usize>, Vec<usize>))
    ensures
        r.0@ == untried_pool(prefs@),
        r.1@ == fallback_pool(prefs@),
{
    let n = prefs.len();
    let last = most_recent_exec(prefs);
    let last_id: Option<i64> = match last {
        Some(j) => prefs[j].id,
        None => None,
    };
    let ghost s = prefs@;
    let ghost lid = last_id;
    assert(lid == crate::jitai::last_id(s));
    let mut untried: Vec<usize> = Vec::new();
    let mut untried_other: Vec<usize> = Vec::new();
    let mut other: Vec<usize> = Vec::new();
    let mut all: Vec<usize> = Vec::new();
    let mut k: usize = 0;
    while k < n
        invariant
            n == s.len(),
            s == prefs@,
            k <= n,
            lid == last_id,
            untried@ == indices_where(k as nat, untried_pred(s)),
            untried_other@ == indices_where(k as nat, untried_other_pred(s, lid)),
            other@ == indices_where(k as nat, other_pred(s, lid)),
            all@ == indices_where(k as nat, any_pred()),
        decreases n - k,
    {
        proof {
            lemma_indices_where_step(k as nat, untried_pred(s));
            lemma_indices_where_step(k as nat, untried_other_pred(s, lid));
            lemma_indices_where_step(k as nat, other_pred(s, lid));
            lemma_indices_where_step(k as nat, any_pred());
        }
        let fresh = prefs[k].times_suggested == 0;
        let same = id_eq(prefs[k].id, last_id);
        if fresh {
            untried.push(k);
            if !same {
                untried_other.push(k);
            }
        }
        if !same {
            other.push(k);
        }
        all.push(k);
        k = k + 1;
    }
    let pool = if untried.len() > 1 && last.is_some() {
        untried_other
    } else {
        untried
    };
    let fallback = if n > 1 && last.is_some() {
        other
    } else {
        all
    };
    (pool, fallback)
}

/// Settles the pick given the random draws: `drawn` is the position drawn
/// from the never-suggested pool when that pool is not empty, else (when not
/// exploiting) from the fallback pool; `exploit` is the 7-in-10 draw, which
/// only matters once every activity has been suggested.
pub fn pick_with(prefs: &Vec<UserPreferences>, exploit: bool, drawn: usize) -> (r: ActivityPick)
    requires
        untried_pool(prefs@).len() > 0 || fallback_pool(prefs@).len() > 0,
    ensures
        untried_pool(prefs@).len() > 0 ==> r == ActivityPick::Chosen(drawn),
        untried_pool(prefs@).len() == 0 && exploit ==> (r matches ActivityPick::BestScoredAmong(v)
            && v@ == fallback_pool(prefs@)),
        untried_pool(prefs@).len() == 0 && !exploit ==> r == ActivityPick::Chosen(drawn),
{
    let (pool, fallback) = suggestion_pools(prefs);
    if pool.len() == 0 && exploit {
        ActivityPick::BestScoredAmong(fallback)
    } else {
        ActivityPick::Chosen(drawn)
    }
}

/// Picks the activity to suggest: one drawn from the never-suggested pool
/// when it is not empty; otherwise, with chance 7/10, the best-scored
/// activity of the fallback pool, else one drawn from the fallback pool. The
/// second part of the result is the ratio the exploit draw was made with
/// (`None` when no such draw was needed). The draws are settled by
/// [`pick_with`]. There must be something to suggest: see
/// [`suggestion_pools`].
pub fn pick_activity(prefs: &Vec<UserPreferences>) -> (r: (ActivityPick, Ghost<Option<(u32, u32)>>))
    requires
        untried_pool(prefs@).len() > 0 || fallback_pool(prefs@).len() > 0,
    ensures
        untried_pool(prefs@).len() > 0 ==> (r.0 matches ActivityPick::Chosen(k) && untried_pool(
            prefs@,
        ).contains(k)) && r.1@ is None,
        untried_pool(prefs@).len() == 0 ==> r.1@ == Some((EXPLOIT_NUMERATOR, EXPLOIT_DENOMINATOR)),
        untried_pool(prefs@).len() == 0 ==> ((r.0 matches ActivityPick::Chosen(k) && fallback_pool(
            prefs@,
        ).contains(k)) || (r.0 matches ActivityPick::BestScoredAmong(v) && v@ == fallback_pool(
            prefs@,
        ))),
{
    let (pool, fallback) = suggestion_pools(prefs);
    if pool.len() > 0 {
        let drawn = match choose_position(&pool) {
            Some(k) => k,
            None => 0,
        };
        (pick_with(prefs, false, drawn), Ghost(None))
    } else {
        let (exploit, ratio) = draw_ratio(EXPLOIT_NUMERATOR, EXPLOIT_DENOMINATOR);
        let drawn = if exploit {
            0
        } else {
            match choose_position(&fallback) {
                Some(k) => k,
                None => 0,
            }
        };
        (pick_with(prefs, exploit, drawn), Ghost(Some(ratio@)))
    }
}

/// The suggestion for the chosen activity, made at time `now`, and the
/// bookkeeping to write back: one more suggestion, last made `now`, and a
/// duration drawn between the activity's shortest and longest.
pub fn prepare_suggestion(chosen: &UserPreferences, now: i64) -> (r: SuggestionOutcome)
    requires
        chosen.id is Some,
        chosen.times_suggested < i64::MAX,
        chosen.min_duration_minutes <= chosen.max_duration_minutes,
    ensures
        r.update.preference_id == chosen.id->0,
        r.update.times_suggested == chosen.times_suggested + 1,
        r.update.last_suggested == now,
        r.suggestion.preference_id == chosen.id->0,
        r.suggestion.activity@ == chosen.activity_name@,
        chosen.min_duration_minutes <= r.suggestion.random_duration <= chosen.max_duration_minutes,
        r.duration_bounds@ == (chosen.min_duration_minutes, chosen.max_duration_minutes),
{
    let id = match chosen.id {
        Some(id) => id,
        None => 0,
    };
    let update = PreferenceUpdate { preference_id: id, times_suggested: chosen.times_suggested + 1, last_suggested: now };
    let (random_duration, duration_bounds) = draw_minutes(chosen.min_duration_minutes, chosen.max_duration_minutes);
    let suggestion = ActivitySuggestion { preference_id: id, activity: chosen.activity_name.clone(), random_duration };
    SuggestionOutcome { update, suggestion, duration_bounds }
}

/// [`prepare_suggestion`] at the current time, read from the clock.
pub fn prepare_suggestion_now(chosen: &UserPreferences) -> (r: SuggestionOutcome)
    requires
        chosen.id is Some,
        chosen.times_suggested < i64::MAX,
        chosen.min_duration_minutes <= chosen.max_duration_minutes,
    ensures
        r.update.preference_id == chosen.id->0,
        r.update.times_suggested == chosen.times_suggested + 1,
        r.suggestion.preference_id == chosen.id->0,
        r.suggestion.activity@ == chosen.activity_name@,
        chosen.min_duration_minutes <= r.suggestion.random_duration <= chosen.max_duration_minutes,
        r.duration_bounds@ == (chosen.min_duration_minutes, chosen.max_duration_minutes),
{
    prepare_suggestion(chosen, now_timestamp())
}

/// With distinct ids, as the database's keys are: a never-suggested activity
/// is suggested whenever one exists; the most recently suggested activity is
/// left out of both pools whenever there is another activity (for the
/// never-suggested pool: another never-suggested one); and every other
/// activity stays in the fallback pool.
pub proof fn lemma_pools_avoid_last_suggested(prefs: Seq<UserPreferences>)
    requires
        prefs.len() <= usize::MAX,
        forall|i: int, j: int| 0 <= i < prefs.len() && 0 <= j < prefs.len() && i != j ==> prefs[i].id != prefs[j].id,
    ensures
        indices_where(prefs.len(), untried_pred(prefs)).len() > 0 ==> untried_pool(prefs).len() > 0,
        most_recent(prefs) is Some && indices_where(prefs.len(), untried_pred(prefs)).len() > 1
            ==> !untried_pool(prefs).contains(most_recent(prefs)->0 as usize),
        most_recent(prefs) is Some && prefs.len() > 1 ==> !fallback_pool(prefs).contains(
            most_recent(prefs)->0 as usize,
        ),
        most_recent(prefs) is Some && prefs.len() > 1 ==> forall|k: usize|
            k < prefs.len() && k != most_recent(prefs)->0 ==> #[trigger] fallback_pool(prefs).contains(k),
{
    let n = prefs.len();
    lemma_indices_where(n, untried_pred(prefs));
    lemma_indices_where(n, any_pred());
    lemma_most_recent_in_range(prefs);
    let u = indices_where(n, untried_pred(prefs));
    if most_recent(prefs) is Some {
        let m = most_recent(prefs)->0;
        let lid = last_id(prefs);
        lemma_indices_where(n, untried_other_pred(prefs, lid));
        lemma_indices_where(n, other_pred(prefs, lid));
        if u.len() > 1 {
            let a = u[0];
            let b = u[1];
            assert(u.contains(a));
            assert(u.contains(b));
            assert(a < b);
            if prefs[a as int].id == lid {
                assert(a as int == m);
                assert(untried_other_pred(prefs, lid)(b));
                assert(untried_pool(prefs).contains(b));
            } else {
                assert(untried_other_pred(prefs, lid)(a));
                assert(untried_pool(prefs).contains(a));
            }
            assert(!untried_other_pred(prefs, lid)(m as usize));
        }
        if n > 1 {
            assert forall|k: usize| k < prefs.len() && k != m implies #[trigger] fallback_pool(prefs).contains(k) by {
                assert(other_pred(prefs, lid)(k));
            }
            assert(!other_pred(prefs, lid)(m as usize));
        }
    }
    if u.len() == 1 {
        assert(untried_pool(prefs) == u);
    }
}

/// Every activity in the never-suggested pool is one that has never been
/// suggested, and every activity in either pool is one of the activities.
pub proof fn lemma_pools_hold_their_activities(prefs: Seq<UserPreferences>, k: usize)
    requires
        prefs.len() <= usize::MAX,
    ensures
        untried_pool(prefs).contains(k) ==> k < prefs.len() && prefs[k as int].times_suggested == 0,
        fallback_pool(prefs).contains(k) ==> k < prefs.len(),
{
    let n = prefs.len();
    lemma_indices_where(n, untried_pred(prefs));
    lemma_indices_where(n, untried_other_pred(prefs, last_id(prefs)));
    lemma_indices_where(n, other_pred(prefs, last_id(prefs)));
    lemma_indices_where(n, any_pred());
    if untried_pool(prefs).contains(k) {
        if indices_where(n, untried_pred(prefs)).len() > 1 && most_recent(prefs) is Some {
            assert(untried_other_pred(prefs, last_id(prefs))(k));
        } else {
            assert(untried_pred(prefs)(k));
        }
    }
}

proof fn lemma_most_recent_in_range(prefs: Seq<UserPreferences>)
    ensures
        most_recent(prefs) matches Some(m) ==> 0 <= m < prefs.len(),
        most_recent(prefs) is None <==> prefs.len() == 0,
    decreases prefs.len(),
{
    if prefs.len() > 0 {
        lemma_most_recent_in_range(prefs.drop_last());
    }
}

} // verus!
