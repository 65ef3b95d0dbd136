//! The integer side of the behavioural features of one 60-second window.
//!
//! The features of a window are counts over its events: key presses per
//! second of the window (typing speed), repeated keys over key presses
//! (repetitive key ratio), idle seconds capped at the window over its length
//! (idle ratio), the number of changes of active window itself (window switch
//! frequency) and wheel movement per second (scroll velocity).
//! [`extract_feature_counts`] computes every count exactly; the mouse path
//! length per second (mouse velocity), a sum of Euclidean distances, is left
//! to the caller, which receives the positions of the mouse-move events.
use vstd::prelude::*;
use crate::text::str_eq;

verus! {

/// Length of a feature window in seconds, and the cap of its idle time.
pub const FEATURE_WINDOW_SECONDS: i64 = 60;

/// Gaps longer than this many seconds count as idle time.
pub const IDLE_GAP_SECONDS: i64 = 2;

/// The fields of a captured input event that the feature counts read.
#[derive(Debug, Clone, PartialEq, Eq)]
pub struct EventSample {
    /// Seconds since the Unix epoch.
    pub timestamp: i64,
    /// "KeyPress", "KeyRelease", "MouseMove", "WheelScroll", "ButtonPress" or "ButtonRelease".
    pub event_action: String,
    /// The key, for keyboard events.
    pub key_code: Option<String>,
    /// Vertical wheel movement, for wheel events.
    pub wheel_y: Option<i64>,
    /// Application that had the focus.
    pub active_window: String,
}

/// The exact counts behind the features of one window.
#[derive(Debug, Clone, PartialEq, Eq)]
pub struct FeatureCounts {
    /// Number of key presses.
    pub key_presses: usize,
    /// Number of consecutive key-press pairs with the same key.
    pub repeated_key_pairs: usize,
    /// Positions, in order, of the mouse-move events.
    pub mouse_moves: Vec<usize>,
    /// Idle seconds of the window, at most [`FEATURE_WINDOW_SECONDS`].
    pub idle_seconds: i64,
    /// Number of consecutive pairs of non-pointer events in different windows.
    pub window_switches: usize,
    /// Sum of the absolute vertical wheel movements.
    pub scroll_total: u128,
}

pub open spec fn is_key_press(e: EventSample) -> bool {
    e.event_action@ == "KeyPress"@
}

pub open spec fn is_mouse_move(e: EventSample) -> bool {
    e.event_action@ == "MouseMove"@
}

pub open spec fn is_wheel_scroll(e: EventSample) -> bool {
    e.event_action@ == "WheelScroll"@
}

/// Events that can change the active window: all but mouse moves and wheel scrolls.
pub open spec fn is_window_activity(e: EventSample) -> bool {
    !is_mouse_move(e) && !is_wheel_scroll(e)
}

pub open spec fn key_press_pred() -> spec_fn(EventSample) -> bool {
    |e: EventSample| is_key_press(e)
}

pub open spec fn window_activity_pred() -> spec_fn(EventSample) -> bool {
    |e: EventSample| is_window_activity(e)
}

/// Both events carry a key, and it is the same key.
pub open spec fn same_key(a: EventSample, b: EventSample) -> bool {
    match (a.key_code, b.key_code) {
        (Some(x), Some(y)) => x@ == y@,
        _ => false,
    }
}

/// The two events happened in different applications.
pub open spec fn switched_window(a: EventSample, b: EventSample) -> bool {
    a.active_window@ != b.active_window@
}

/// Number of consecutive pairs `(s[k], s[k + 1])` of `s` related by `rel`.
pub open spec fn related_pairs(s: Seq<EventSample>, rel: spec_fn(EventSample, EventSample) -> bool) -> nat
    decreases s.len(),
{
    if s.len() < 2 {
        0
    } else {
        related_pairs(s.drop_last(), rel) + if rel(s[s.len() - 2], s.last()) {
            1nat
        } else {
            0nat
        }
    }
}

pub open spec fn same_key_rel() -> spec_fn(EventSample, EventSample) -> bool {
    |a: EventSample, b: EventSample| same_key(a, b)
}

pub open spec fn switched_window_rel() -> spec_fn(EventSample, EventSample) -> bool {
    |a: EventSample, b: EventSample| switched_window(a, b)
}

/// Positions of the mouse-move events of `s`, in order.
pub open spec fn mouse_move_positions(s: Seq<EventSample>) -> Seq<usize>
    decreases s.len(),
{
    if s.len() == 0 {
        Seq::empty()
    } else if is_mouse_move(s.last()) {
        mouse_move_positions(s.drop_last()).push((s.len() - 1) as usize)
    } else {
        mouse_move_positions(s.drop_last())
    }
}

/// The idle part of a gap between two instants.
pub open spec fn idle_part(gap: int) -> int {
    if gap > IDLE_GAP_SECONDS {
        gap
    } else {
        0
    }
}

/// Idle time between consecutive events.
pub open spec fn gap_idle(s: Seq<EventSample>) -> int
    decreases s.len(),
{
    if s.len() < 2 {
        0
    } else {
        gap_idle(s.drop_last()) + idle_part(s.last().timestamp - s[s.len() - 2].timestamp)
    }
}

/// Idle time of a window: the whole window when it has no events, else the
/// long gaps before the first event, between events and after the last one.
pub open spec fn idle_seconds(s: Seq<EventSample>, window_start: i64, window_end: i64) -> int {
    if s.len() == 0 {
        FEATURE_WINDOW_SECONDS as int
    } else {
        idle_part(s[0].timestamp - window_start) + gap_idle(s) + idle_part(window_end - s.last().timestamp)
    }
}

pub open spec fn min_int(a: int, b: int) -> int {
    if a <= b {
        a
    } else {
        b
    }
}

proof fn lemma_gap_idle_nonnegative(s: Seq<EventSample>)
    ensures
        gap_idle(s) >= 0,
    decreases s.len(),
{
    if s.len() >= 2 {
        lemma_gap_idle_nonnegative(s.drop_last());
    }
}

/// Whatever the events, sorted or not, inside the window or not, the idle
/// time of a window, capped at the window's length, lies between none of it
/// and all of it.
pub proof fn lemma_idle_time_within_window(s: Seq<EventSample>, window_start: i64, window_end: i64)
    ensures
        0 <= min_int(idle_seconds(s, window_start, window_end), FEATURE_WINDOW_SECONDS as int)
            <= FEATURE_WINDOW_SECONDS,
{
    lemma_gap_idle_nonnegative(s);
}

/// Absolute vertical wheel movement of a wheel event; zero for other events.
pub open spec fn wheel_amount(e: EventSample) -> int {
    if is_wheel_scroll(e) {
        match e.wheel_y {
            Some(w) => if w < 0 {
                -w
            } else {
                w as int
            },
            None => 0,
        }
    } else {
        0
    }
}

pub open spec fn scroll_total(s: Seq<EventSample>) -> int
    decreases s.len(),
{
    if s.len() == 0 {
        0
    } else {
        scroll_total(s.drop_last()) + wheel_amount(s.last())
    }
}

pub open spec fn fits_i64(x: int) -> bool {
    i64::MIN <= x <= i64::MAX
}

/// The time differences of the window and the absolute wheel movements are
/// representable as `i64` (the feature arithmetic overflows otherwise).
pub open spec fn window_arithmetic_fits(s: Seq<EventSample>, window_start: i64, window_end: i64) -> bool {
    &&& s.len() > 0 ==> fits_i64(s[0].timestamp - window_start) && fits_i64(window_end - s.last().timestamp)
    &&& forall|k: int| 0 < k < s.len() ==> fits_i64(#[trigger] s[k].timestamp - s[k - 1].timestamp)
    &&& forall|k: int| 0 <= k < s.len() && is_wheel_scroll(#[trigger] s[k]) ==> s[k].wheel_y != Some(i64::MIN)
}

/// The counts of a window of events, by definition.
pub open spec fn feature_counts_spec(
    s: Seq<EventSample>,
    window_start: i64,
    window_end: i64,
    r: FeatureCounts,
) -> bool {
    &&& r.key_presses == s.filter(key_press_pred()).len()
    &&& r.repeated_key_pairs == related_pairs(s.filter(key_press_pred()), same_key_rel())
    &&& r.mouse_moves@ == mouse_move_positions(s)
    &&& r.idle_seconds == min_int(idle_seconds(s, window_start, window_end), FEATURE_WINDOW_SECONDS as int)
    &&& r.window_switches == related_pairs(s.filter(window_activity_pred()), switched_window_rel())
    &&& r.scroll_total == scroll_total(s)
}

/// Key counts read key presses only: an event whose action is anything but
/// "KeyPress" (a key release, a click, a pointer move, a scroll), inserted
/// anywhere in a window, changes neither the number of key presses nor the
/// number of repeated keys; and one more key press at the end adds one key
/// press.
pub proof fn lemma_key_counts_read_key_presses_only(
    s: Seq<EventSample>,
    i: int,
    e: EventSample,
    window_start: i64,
    window_end: i64,
    r1: FeatureCounts,
    r2: FeatureCounts,
    r3: FeatureCounts,
)
    requires
        0 <= i <= s.len(),
        feature_counts_spec(s, window_start, window_end, r1),
        feature_counts_spec(s.insert(i, e), window_start, window_end, r2),
        feature_counts_spec(s.push(e), window_start, window_end, r3),
    ensures
        e.event_action@ != "KeyPress"@ ==> r2.key_presses == r1.key_presses && r2.repeated_key_pairs
            == r1.repeated_key_pairs,
        e.event_action@ == "KeyPress"@ ==> r3.key_presses == r1.key_presses + 1,
{
    let p = key_press_pred();
    let a = s.take(i);
    let b = s.skip(i);
    assert(s =~= a + b);
    assert(s.insert(i, e) =~= a + (seq![e] + b));
    Seq::filter_distributes_over_add(a, b, p);
    Seq::filter_distributes_over_add(a, seq![e] + b, p);
    b.lemma_filter_prepend(e, p);
    if e.event_action@ != "KeyPress"@ {
        assert(!p(e));
        assert(s.insert(i, e).filter(p) =~= s.filter(p));
    }
    s.lemma_filter_push(e, p);
}

proof fn lemma_related_pairs_push(f: Seq<EventSample>, x: EventSample, rel: spec_fn(EventSample, EventSample) -> bool)
    ensures
        related_pairs(f.push(x), rel) == related_pairs(f, rel) + if f.len() >= 1 && rel(f.last(), x) {
            1nat
        } else {
            0nat
        },
{
    assert(f.push(x).drop_last() =~= f);
    if f.len() >= 1 {
        assert(f.push(x)[f.push(x).len() - 2] == f.last());
    }
}

proof fn lemma_filter_step(s: Seq<EventSample>, i: int, pred: spec_fn(EventSample) -> bool)
    requires
        0 <= i < s.len(),
    ensures
        s.take(i + 1).filter(pred) == if pred(s[i]) {
            s.take(i).filter(pred).push(s[i])
        } else {
            s.take(i).filter(pred)
        },
{
    reveal_with_fuel(Seq::filter, 1);
    assert(s.take(i + 1).drop_last() =~= s.take(i));
}

proof fn lemma_related_pairs_bound(f: Seq<EventSample>, rel: spec_fn(EventSample, EventSample) -> bool)
    ensures
        related_pairs(f, rel) <= if f.len() == 0 {
            0
        } else {
            f.len() - 1
        },
    decreases f.len(),
{
    if f.len() >= 2 {
        lemma_related_pairs_bound(f.drop_last(), rel);
    }
}

proof fn lemma_gap_idle_nonneg(s: Seq<EventSample>)
    ensures
        gap_idle(s) >= 0,
    decreases s.len(),
{
    if s.len() >= 2 {
        lemma_gap_idle_nonneg(s.drop_last());
    }
}

fn wheel_amount_exec(e: &EventSample) -> (r: u128)
    ensures
        r == wheel_amount(*e),
        r <= 0x8000_0000_0000_0000,
{
    if str_eq(e.event_action.as_str(), "WheelScroll") {
        match e.wheel_y {
            Some(w) => if w < 0 {
                (0i128 - w as i128) as u128
            } else {
                w as u128
            },
            None => 0,
        }
    } else {
        0
    }
}

fn idle_part_exec(gap: i128) -> (r: i128)
    ensures
        r == idle_part(gap as int),
{
    if gap > IDLE_GAP_SECONDS as i128 {
        gap
    } else {
        0
    }
}

fn same_key_exec(a: &EventSample, b: &EventSample) -> (r: bool)
    ensures
        r == same_key(*a, *b),
{
    match (&a.key_code, &b.key_code) {
        (Some(x), Some(y)) => *x == *y,
        _ => false,
    }
}

fn fits_i64_exec(x: i128) -> (r: bool)
    ensures
        r == fits_i64(x as int),
{
    i64::MIN as i128 <= x && x <= i64::MAX as i128
}

/// Whether [`extract_feature_counts`] can be applied to a window.
pub fn window_arithmetic_fits_exec(events: &Vec<EventSample>, window_start: i64, window_end: i64) -> (r: bool)
    ensures
        r == window_arithmetic_fits(events@, window_start, window_end),
{
    let n = events.len();
    if n > 0 {
        if !fits_i64_exec(events[0].timestamp as i128 - window_start as i128) {
            return false;
        }
        if !fits_i64_exec(window_end as i128 - events[n - 1].timestamp as i128) {
            return false;
        }
    }
    let mut k: usize = 0;
    while k < n
        invariant
            n == events@.len(),
            k <= n,
            forall|j: int| 0 < j < k ==> fits_i64(#[trigger] events@[j].timestamp - events@[j - 1].timestamp),
            forall|j: int| 0 <= j < k && is_wheel_scroll(#[trigger] events@[j]) ==> events@[j].wheel_y != Some(i64::MIN),
        decreases n - k,
    {
        if k > 0 && !fits_i64_exec(events[k].timestamp as i128 - events[k - 1].timestamp as i128) {
            return false;
        }
        if str_eq(events[k].event_action.as_str(), "WheelScroll") {
            match events[k].wheel_y {
                Some(w) => {
                    if w == i64::MIN {
                        return false;
                    }
                },
                None => {},
            }
        }
        k = k + 1;
    }
    true
}

/// Counts the features of the events of the window `[window_start, window_end]`.
pub fn extract_feature_counts(events: &Vec<EventSample>, window_start: i64, window_end: i64) -> (r: FeatureCounts)
    requires
        window_arithmetic_fits(events@, window_start, window_end),
    ensures
        feature_counts_spec(events@, window_start, window_end, r),
        r.repeated_key_pairs <= r.key_presses,
        r.key_presses > 0 ==> r.repeated_key_pairs < r.key_presses,
        r.key_presses <= events@.len(),
        0 <= r.idle_seconds <= FEATURE_WINDOW_SECONDS,
        events@.len() == 0 ==> r.idle_seconds == FEATURE_WINDOW_SECONDS,
        r.mouse_moves@.len() <= events@.len(),
{
    let ghost s = events@;
    let n = events.len();
    let mut key_presses: usize = 0;
    let mut repeated_key_pairs: usize = 0;
    let mut last_key: Option<usize> = None;
    let mut window_switches: usize = 0;
    let mut last_activity: Option<usize> = None;
    let mut mouse_moves: Vec<usize> = Vec::new();
    let mut scroll: u128 = 0;
    let mut idle: i128 = if n == 0 {
        FEATURE_WINDOW_SECONDS as i128
    } else {
        let first = idle_part_exec(events[0].timestamp as i128 - window_start as i128);
        if first > FEATURE_WINDOW_SECONDS as i128 {
            FEATURE_WINDOW_SECONDS as i128
        } else {
            first
        }
    };
    proof {
        assert(s.take(0) =~= Seq::<EventSample>::empty());
        reveal_with_fuel(Seq::filter, 1);
    }
    let mut i: usize = 0;
    while i < n
        invariant
            n == s.len(),
            s == events@,
            i <= n,
            key_presses == s.take(i as int).filter(key_press_pred()).len(),
            repeated_key_pairs == related_pairs(s.take(i as int).filter(key_press_pred()), same_key_rel()),
            key_presses <= i,
            (last_key is Some) == (s.take(i as int).filter(key_press_pred()).len() > 0),
            last_key matches Some(j) ==> j < i && s[j as int] == s.take(i as int).filter(key_press_pred()).last(),
            window_switches == related_pairs(
                s.take(i as int).filter(window_activity_pred()),
                switched_window_rel(),
            ),
            window_switches <= i,
            (last_activity is Some) == (s.take(i as int).filter(window_activity_pred()).len() > 0),
            last_activity matches Some(j) ==> j < i && s[j as int] == s.take(i as int).filter(
                window_activity_pred(),
            ).last(),
            mouse_moves@ == mouse_move_positions(s.take(i as int)),
            mouse_moves@.len() <= i,
            scroll == scroll_total(s.take(i as int)),
            scroll <= i * 0x8000_0000_0000_0000,
            n == 0 ==> idle == FEATURE_WINDOW_SECONDS,
            n > 0 ==> idle == min_int(
                idle_part(s[0].timestamp - window_start) + gap_idle(s.take(i as int)),
                FEATURE_WINDOW_SECONDS as int,
            ),
            0 <= idle <= FEATURE_WINDOW_SECONDS,
        decreases n - i,
    {
        let e = &events[i];
        proof {
            broadcast use vstd::seq_lib::group_filter_ensures;

            let ti = s.take(i as int);
            let tn = s.take(i + 1);
            assert(tn.drop_last() =~= ti);
            assert(tn.last() == s[i as int]);
            lemma_filter_step(s, i as int, key_press_pred());
            lemma_filter_step(s, i as int, window_activity_pred());
            lemma_related_pairs_push(ti.filter(key_press_pred()), s[i as int], same_key_rel());
            lemma_related_pairs_push(ti.filter(window_activity_pred()), s[i as int], switched_window_rel());
            lemma_related_pairs_bound(ti.filter(key_press_pred()), same_key_rel());
            lemma_related_pairs_bound(ti.filter(window_activity_pred()), switched_window_rel());
            if i > 0 {
                assert(tn[tn.len() - 2] == s[i - 1]);
            }
            lemma_gap_idle_nonneg(ti);
        }
        // key presses and repeated keys
        if str_eq(e.event_action.as_str(), "KeyPress") {
            match last_key {
                Some(j) => {
                    if same_key_exec(&events[j], e) {
                        repeated_key_pairs = repeated_key_pairs + 1;
                    }
                },
                None => {},
            }
            key_presses = key_presses + 1;
            last_key = Some(i);
        }
        // mouse moves
        let is_move = str_eq(e.event_action.as_str(), "MouseMove");
        if is_move {
            mouse_moves.push(i);
        }
        // window switches
        if !is_move && !str_eq(e.event_action.as_str(), "WheelScroll") {
            match last_activity {
                Some(j) => {
                    if events[j].active_window != e.active_window {
                        window_switches = window_switches + 1;
                    }
                },
                None => {},
            }
            last_activity = Some(i);
        }
        // scrolling
        let w = wheel_amount_exec(e);
        scroll = scroll + w;
        // idle gaps between events
        if i > 0 {
            let gap = idle_part_exec(e.timestamp as i128 - events[i - 1].timestamp as i128);
            let sum = idle + gap;
            idle = if sum > FEATURE_WINDOW_SECONDS as i128 {
                FEATURE_WINDOW_SECONDS as i128
            } else {
                sum
            };
        }
        i = i + 1;
    }
    if n > 0 {
        let last = idle_part_exec(window_end as i128 - events[n - 1].timestamp as i128);
        let sum = idle + last;
        idle = if sum > FEATURE_WINDOW_SECONDS as i128 {
            FEATURE_WINDOW_SECONDS as i128
        } else {
            sum
        };
    }
    proof {
        assert(s.take(n as int) =~= s);
        lemma_related_pairs_bound(s.filter(key_press_pred()), same_key_rel());
        lemma_gap_idle_nonneg(s);
    }
    FeatureCounts {
        key_presses,
        repeated_key_pairs,
        mouse_moves,
        idle_seconds: idle as i64,
        window_switches,
        scroll_total: scroll,
    }
}

} // verus!
