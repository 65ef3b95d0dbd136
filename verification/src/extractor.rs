//! The decisions of the rolling-window prediction loop.
//!
//! Every 60 seconds the desktop shell asks [`ExtractorState::begin_window`]
//! whether to stop, idle through a break, wait, or process a window; after the
//! window has been classified it reports the label to
//! [`ExtractorState::post_break_step`] and [`ExtractorState::record_prediction`],
//! which say what to record and which pop-up, if any, to raise.
use vstd::prelude::*;
use crate::text::str_eq;
use crate::intervention::cooldown_active;

verus! {

/// Length of one feature window, in seconds.
pub const WINDOW_SECONDS: i64 = 60;

/// Number of confident at-risk or procrastinating windows that raise a pop-up.
pub const INTERVENTION_STREAK: i32 = 3;

/// Number of consecutive at-risk or procrastinating windows, of any
/// confidence, that raise a pop-up.
pub const RISK_WINDOW_STREAK: i32 = 5;

/// Number of counted idle windows that raise an idle check.
pub const IDLE_STREAK: i32 = 10;

/// Number of windows scored after a break ends.
pub const POST_BREAK_WINDOWS: u32 = 5;

/// How the loop reacts to a predicted state label.
#[derive(Debug, Clone, Copy, PartialEq, Eq)]
pub enum LabelClass {
    /// "Procrastinating" or "At Risk".
    Risk,
    /// "Focused".
    Focused,
    /// "Idle".
    Idle,
    /// Any other label, such as "Unknown".
    Other,
}

/// The class of a label, by its text.
pub open spec fn label_class(label: Seq<char>) -> LabelClass {
    if label == "Procrastinating"@ || label == "At Risk"@ {
        LabelClass::Risk
    } else if label == "Focused"@ {
        LabelClass::Focused
    } else if label == "Idle"@ {
        LabelClass::Idle
    } else {
        LabelClass::Other
    }
}

/// Classifies a predicted state label.
pub fn classify_label(label: &str) -> (r: LabelClass)
    ensures
        r == label_class(label@),
{
    if str_eq(label, "Procrastinating") || str_eq(label, "At Risk") {
        LabelClass::Risk
    } else if str_eq(label, "Focused") {
        LabelClass::Focused
    } else if str_eq(label, "Idle") {
        LabelClass::Idle
    } else {
        LabelClass::Other
    }
}

/// The pop-up that a processed window raises.
#[derive(Debug, Clone, Copy, PartialEq, Eq)]
pub enum WindowAlert {
    NoAlert,
    /// A "PopUp" intervention with an activity suggestion.
    Intervention,
    /// A focus check over the given number of focused windows.
    FocusCheck { streak_windows: i32 },
    /// An idle check over the given number of idle windows.
    IdleCheck { streak_windows: i32 },
}

/// What the loop does with the current tick.
#[derive(Debug, Clone, Copy, PartialEq, Eq)]
pub enum WindowStart {
    /// Collection was switched off: leave the loop.
    Stop,
    /// The user is on a break: go round again at once.
    OnBreak,
    /// The window would still overlap the break: sleep out the tick.
    Wait,
    /// Classify the events of `[window_start, window_end]`.
    Process { window_start: i64, window_end: i64 },
}

/// The decision for a tick, and whether the "break ended" flag was consumed
/// (the shell then clears it and drops the confidences it kept).
#[derive(Debug, Clone, Copy, PartialEq, Eq)]
pub struct WindowPlan {
    pub start: WindowStart,
    pub clear_break_ended: bool,
}

/// What happens to the post-break focus scoring in a processed window.
#[derive(Debug, Clone, Copy, PartialEq, Eq)]
pub enum PostBreakStep {
    /// No post-break scoring is under way.
    Nothing,
    /// Record this window: its confidence when `focused`, else zero.
    Record { focused: bool },
    /// The five recorded windows are complete: their sum divided by five is
    /// the break's focus score; the recorded scores are dropped.
    Finish,
}

/// The counters and post-break bookkeeping of the prediction loop.
#[derive(Debug, Clone, Copy, PartialEq, Eq)]
pub struct ExtractorState {
    /// Confident at-risk or procrastinating windows in the current run of such windows.
    pub prediction_counter: i32,
    /// At-risk or procrastinating windows in a row, whatever their confidence.
    pub risk_streak: i32,
    /// Counted focused windows in a row.
    pub focused_counter: i32,
    /// Counted idle windows in a row.
    pub idle_counter: i32,
    /// Focused windows that raise a focus check.
    pub focused_streak_threshold: i32,
    /// Windows still to be scored after the last break.
    pub post_break_remaining_windows: u32,
    /// Windows already scored after the last break.
    pub post_break_scores: u32,
    /// Time at which the last break ended, while no full window has passed since.
    pub resume_from_ts: Option<i64>,
    /// Minutes after a pop-up intervention during which no other is raised.
    pub cooldown_minutes: u64,
    /// End of the window that raised the last pop-up intervention.
    pub last_intervention_ts: Option<i64>,
}

/// Adds one to a counter, staying at the largest `i32`.
pub open spec fn bump(c: i32) -> i32 {
    if c < i32::MAX {
        (c + 1) as i32
    } else {
        c
    }
}

fn bump_exec(c: i32) -> (r: i32)
    ensures
        r == bump(c),
{
    if c < i32::MAX {
        c + 1
    } else {
        c
    }
}

/// The counters after one classified window, before any pop-up is raised.
pub open spec fn count_label(s: ExtractorState, class: LabelClass, confident: bool) -> ExtractorState {
    match class {
        LabelClass::Risk => ExtractorState {
            prediction_counter: if confident { bump(s.prediction_counter) } else { s.prediction_counter },
            risk_streak: bump(s.risk_streak),
            focused_counter: 0,
            idle_counter: 0,
            ..s
        },
        LabelClass::Focused => ExtractorState {
            prediction_counter: 0,
            risk_streak: 0,
            focused_counter: if confident { bump(s.focused_counter) } else { s.focused_counter },
            idle_counter: 0,
            ..s
        },
        LabelClass::Idle => ExtractorState {
            prediction_counter: 0,
            risk_streak: 0,
            focused_counter: 0,
            idle_counter: if confident { bump(s.idle_counter) } else { s.idle_counter },
            ..s
        },
        LabelClass::Other => ExtractorState {
            prediction_counter: 0,
            risk_streak: 0,
            focused_counter: 0,
            idle_counter: 0,
            ..s
        },
    }
}

/// A pop-up raised at `last` holds back further ones until `cooldown_minutes`
/// minutes have passed by the time `now`.
pub open spec fn in_cooldown(last: Option<i64>, now: i64, cooldown_minutes: u64) -> bool {
    match last {
        Some(t) => now - t < cooldown_minutes * 60,
        None => false,
    }
}

/// A run of at-risk or procrastinating windows is complete: three of them
/// confident, or five of them whatever their confidence.
pub open spec fn risk_streak_complete(c: ExtractorState) -> bool {
    c.prediction_counter == INTERVENTION_STREAK || c.risk_streak == RISK_WINDOW_STREAK
}

/// One classified window, ending at `now`: the counters after it and the
/// pop-up it raises. A complete run of risk windows wins over a focus check,
/// which wins over an idle check; the counters of the raised pop-up start
/// again from zero. A complete run of risk windows inside the cooldown of the
/// last pop-up intervention starts again from zero without raising one.
pub open spec fn counters_step(s: ExtractorState, class: LabelClass, confident: bool, now: i64) -> (
    ExtractorState,
    WindowAlert,
) {
    let c = count_label(s, class, confident);
    if risk_streak_complete(c) {
        if in_cooldown(c.last_intervention_ts, now, c.cooldown_minutes) {
            (ExtractorState { prediction_counter: 0, risk_streak: 0, ..c }, WindowAlert::NoAlert)
        } else {
            (
                ExtractorState { prediction_counter: 0, risk_streak: 0, last_intervention_ts: Some(now), ..c },
                WindowAlert::Intervention,
            )
        }
    } else if c.focused_counter == c.focused_streak_threshold {
        (
            ExtractorState { focused_counter: 0, ..c },
            WindowAlert::FocusCheck { streak_windows: c.focused_counter },
        )
    } else if c.idle_counter == IDLE_STREAK {
        (ExtractorState { idle_counter: 0, ..c }, WindowAlert::IdleCheck { streak_windows: c.idle_counter })
    } else {
        (c, WindowAlert::NoAlert)
    }
}

/// One tick of the loop, before the window's events are read.
pub open spec fn begin_step(
    s: ExtractorState,
    running: bool,
    on_break: bool,
    break_ended: bool,
    now: i64,
) -> (ExtractorState, WindowPlan) {
    if !running {
        (s, WindowPlan { start: WindowStart::Stop, clear_break_ended: false })
    } else if on_break {
        (
            ExtractorState { prediction_counter: 0, risk_streak: 0, ..s },
            WindowPlan { start: WindowStart::OnBreak, clear_break_ended: false },
        )
    } else {
        let s1 = if break_ended {
            ExtractorState {
                post_break_remaining_windows: POST_BREAK_WINDOWS,
                post_break_scores: 0,
                resume_from_ts: Some(now),
                ..s
            }
        } else {
            s
        };
        let window_start = now - WINDOW_SECONDS;
        match s1.resume_from_ts {
            Some(resume) => if window_start < resume {
                (s1, WindowPlan { start: WindowStart::Wait, clear_break_ended: break_ended })
            } else {
                (
                    ExtractorState { resume_from_ts: None, ..s1 },
                    WindowPlan {
                        start: WindowStart::Process { window_start: window_start as i64, window_end: now },
                        clear_break_ended: break_ended,
                    },
                )
            },
            None => (
                s1,
                WindowPlan {
                    start: WindowStart::Process { window_start: window_start as i64, window_end: now },
                    clear_break_ended: break_ended,
                },
            ),
        }
    }
}

/// The post-break scoring of one processed window.
pub open spec fn post_break_spec(s: ExtractorState, class: LabelClass) -> (ExtractorState, PostBreakStep) {
    if s.post_break_remaining_windows > 0 {
        (
            ExtractorState {
                post_break_remaining_windows: (s.post_break_remaining_windows - 1) as u32,
                post_break_scores: (s.post_break_scores + 1) as u32,
                ..s
            },
            PostBreakStep::Record { focused: class == LabelClass::Focused },
        )
    } else if s.post_break_scores > 0 {
        (ExtractorState { post_break_scores: 0, ..s }, PostBreakStep::Finish)
    } else {
        (s, PostBreakStep::Nothing)
    }
}

impl ExtractorState {
    /// Whether a pop-up intervention at `now` is still held back by the last one.
    pub fn in_cooldown(&self, now: i64) -> (r: bool)
        requires
            self.cooldown_minutes * 60 <= u64::MAX,
        ensures
            r == in_cooldown(self.last_intervention_ts, now, self.cooldown_minutes),
    {
        match self.last_intervention_ts {
            Some(t) => {
                let elapsed = now as i128 - t as i128;
                if elapsed < 0 {
                    true
                } else if elapsed > u64::MAX as i128 {
                    false
                } else {
                    cooldown_active(elapsed as u64, self.cooldown_minutes)
                }
            },
            None => false,
        }
    }

    /// The bounds that every reachable state keeps.
    pub open spec fn wf(self) -> bool {
        &&& 0 <= self.prediction_counter < INTERVENTION_STREAK
        &&& 0 <= self.risk_streak < RISK_WINDOW_STREAK
        &&& 0 <= self.focused_counter
        &&& 0 <= self.idle_counter
        &&& self.post_break_remaining_windows <= POST_BREAK_WINDOWS
        &&& (self.post_break_remaining_windows + self.post_break_scores == POST_BREAK_WINDOWS as int
            || (self.post_break_remaining_windows == 0 && self.post_break_scores == 0))
        &&& self.cooldown_minutes * 60 <= u64::MAX
    }

    /// A fresh loop with the given focus-check threshold and intervention
    /// cooldown in minutes.
    pub fn new(focused_streak_threshold: i32, cooldown_minutes: u64) -> (r: Self)
        requires
            cooldown_minutes * 60 <= u64::MAX,
        ensures
            r.wf(),
            r == (ExtractorState {
                prediction_counter: 0,
                risk_streak: 0,
                focused_counter: 0,
                idle_counter: 0,
                focused_streak_threshold,
                post_break_remaining_windows: 0,
                post_break_scores: 0,
                resume_from_ts: None,
                cooldown_minutes,
                last_intervention_ts: None,
            }),
    {
        ExtractorState {
            prediction_counter: 0,
            risk_streak: 0,
            focused_counter: 0,
            idle_counter: 0,
            focused_streak_threshold,
            post_break_remaining_windows: 0,
            post_break_scores: 0,
            resume_from_ts: None,
            cooldown_minutes,
            last_intervention_ts: None,
        }
    }

    /// Decides what to do with a tick that starts at time `now` (seconds since
    /// the epoch), given the collection, break and break-ended flags.
    pub fn begin_window(&mut self, running: bool, on_break: bool, break_ended: bool, now: i64) -> (plan: WindowPlan)
        requires
            old(self).wf(),
            running && !on_break ==> now >= i64::MIN + WINDOW_SECONDS,
        ensures
            final(self).wf(),
            (*final(self), plan) == begin_step(*old(self), running, on_break, break_ended, now),
    {
        if !running {
            return WindowPlan { start: WindowStart::Stop, clear_break_ended: false };
        }
        if on_break {
            self.prediction_counter = 0;
            self.risk_streak = 0;
            return WindowPlan { start: WindowStart::OnBreak, clear_break_ended: false };
        }
        if break_ended {
            self.post_break_remaining_windows = POST_BREAK_WINDOWS;
            self.post_break_scores = 0;
            self.resume_from_ts = Some(now);
        }
        let window_start = now - WINDOW_SECONDS;
        match self.resume_from_ts {
            Some(resume) => {
                if window_start < resume {
                    return WindowPlan { start: WindowStart::Wait, clear_break_ended: break_ended };
                }
                self.resume_from_ts = None;
            },
            None => {},
        }
        WindowPlan { start: WindowStart::Process { window_start, window_end: now }, clear_break_ended: break_ended }
    }

    /// Advances the post-break scoring by one processed window with the given label.
    pub fn post_break_step(&mut self, label: &str) -> (step: PostBreakStep)
        requires
            old(self).wf(),
        ensures
            final(self).wf(),
            (*final(self), step) == post_break_spec(*old(self), label_class(label@)),
            step == PostBreakStep::Finish ==> old(self).post_break_scores == POST_BREAK_WINDOWS,
    {
        let class = classify_label(label);
        if self.post_break_remaining_windows > 0 {
            self.post_break_remaining_windows = self.post_break_remaining_windows - 1;
            self.post_break_scores = self.post_break_scores + 1;
            PostBreakStep::Record { focused: matches!(class, LabelClass::Focused) }
        } else if self.post_break_scores > 0 {
            self.post_break_scores = 0;
            PostBreakStep::Finish
        } else {
            PostBreakStep::Nothing
        }
    }

    /// Counts one classified window ending at `now` (`confident`: its
    /// confidence reached the pop-up threshold) and says which pop-up it raises.
    pub fn record_prediction(&mut self, label: &str, confident: bool, now: i64) -> (alert: WindowAlert)
        requires
            old(self).wf(),
        ensures
            final(self).wf(),
            (*final(self), alert) == counters_step(*old(self), label_class(label@), confident, now),
    {
        let class = classify_label(label);
        match class {
            LabelClass::Risk => {
                self.focused_counter = 0;
                self.idle_counter = 0;
                self.risk_streak = bump_exec(self.risk_streak);
                if confident {
                    self.prediction_counter = bump_exec(self.prediction_counter);
                }
            },
            LabelClass::Focused => {
                self.prediction_counter = 0;
                self.risk_streak = 0;
                self.idle_counter = 0;
                if confident {
                    self.focused_counter = bump_exec(self.focused_counter);
                }
            },
            LabelClass::Idle => {
                self.focused_counter = 0;
                self.prediction_counter = 0;
                self.risk_streak = 0;
                if confident {
                    self.idle_counter = bump_exec(self.idle_counter);
                }
            },
            LabelClass::Other => {
                self.prediction_counter = 0;
                self.risk_streak = 0;
                self.focused_counter = 0;
                self.idle_counter = 0;
            },
        }
        if self.prediction_counter == INTERVENTION_STREAK || self.risk_streak == RISK_WINDOW_STREAK {
            self.prediction_counter = 0;
            self.risk_streak = 0;
            if self.in_cooldown(now) {
                WindowAlert::NoAlert
            } else {
                self.last_intervention_ts = Some(now);
                WindowAlert::Intervention
            }
        } else if self.focused_counter == self.focused_streak_threshold {
            let streak_windows = self.focused_counter;
            self.focused_counter = 0;
            WindowAlert::FocusCheck { streak_windows }
        } else if self.idle_counter == IDLE_STREAK {
            let streak_windows = self.idle_counter;
            self.idle_counter = 0;
            WindowAlert::IdleCheck { streak_windows }
        } else {
            WindowAlert::NoAlert
        }
    }
}


/// A pop-up intervention is raised by a window exactly when that window is an
/// at-risk or procrastinating one that completes a run (a third confident one,
/// or a fifth in a row) outside the cooldown of the last pop-up; the pop-up's
/// time is remembered.
pub proof fn lemma_intervention_exactly_when_run_completes(
    s: ExtractorState,
    class: LabelClass,
    confident: bool,
    now: i64,
)
    requires
        s.wf(),
    ensures
        (counters_step(s, class, confident, now).1 == WindowAlert::Intervention) <==> (class == LabelClass::Risk
            && ((confident && s.prediction_counter == INTERVENTION_STREAK - 1) || s.risk_streak
            == RISK_WINDOW_STREAK - 1) && !in_cooldown(s.last_intervention_ts, now, s.cooldown_minutes)),
        counters_step(s, class, confident, now).1 == WindowAlert::Intervention ==> counters_step(
            s,
            class,
            confident,
            now,
        ).0.last_intervention_ts == Some(now),
{
}

/// From reset counts, three confident at-risk or procrastinating windows in a
/// row raise a pop-up on the third and not before, when the third falls
/// outside the cooldown of the last pop-up; the counts start again from zero.
pub proof fn lemma_three_confident_risk_windows_raise_popup(s: ExtractorState, t1: i64, t2: i64, t3: i64)
    requires
        s.wf(),
        s.prediction_counter == 0,
        s.risk_streak == 0,
        !in_cooldown(s.last_intervention_ts, t3, s.cooldown_minutes),
    ensures
        ({
            let (s1, a1) = counters_step(s, LabelClass::Risk, true, t1);
            let (s2, a2) = counters_step(s1, LabelClass::Risk, true, t2);
            let (s3, a3) = counters_step(s2, LabelClass::Risk, true, t3);
            &&& a1 != WindowAlert::Intervention
            &&& a2 != WindowAlert::Intervention
            &&& a3 == WindowAlert::Intervention
            &&& s3.prediction_counter == 0
            &&& s3.last_intervention_ts == Some(t3)
        }),
{
}

/// Five at-risk or procrastinating windows in a row, whatever their
/// confidence, raise at least one pop-up when none of them falls within the
/// cooldown of the last pop-up before them.
pub proof fn lemma_five_risk_windows_raise_popup(
    s: ExtractorState,
    c1: bool,
    c2: bool,
    c3: bool,
    c4: bool,
    c5: bool,
    t1: i64,
    t2: i64,
    t3: i64,
    t4: i64,
    t5: i64,
)
    requires
        s.wf(),
        !in_cooldown(s.last_intervention_ts, t1, s.cooldown_minutes),
        !in_cooldown(s.last_intervention_ts, t2, s.cooldown_minutes),
        !in_cooldown(s.last_intervention_ts, t3, s.cooldown_minutes),
        !in_cooldown(s.last_intervention_ts, t4, s.cooldown_minutes),
        !in_cooldown(s.last_intervention_ts, t5, s.cooldown_minutes),
    ensures
        ({
            let (s1, a1) = counters_step(s, LabelClass::Risk, c1, t1);
            let (s2, a2) = counters_step(s1, LabelClass::Risk, c2, t2);
            let (s3, a3) = counters_step(s2, LabelClass::Risk, c3, t3);
            let (s4, a4) = counters_step(s3, LabelClass::Risk, c4, t4);
            let (s5, a5) = counters_step(s4, LabelClass::Risk, c5, t5);
            a1 == WindowAlert::Intervention || a2 == WindowAlert::Intervention || a3 == WindowAlert::Intervention
                || a4 == WindowAlert::Intervention || a5 == WindowAlert::Intervention
        }),
{
}

/// A window that is not at risk or procrastinating ends any run of risk
/// windows: both risk counts are zero after it, and it raises no pop-up
/// intervention.
pub proof fn lemma_non_risk_window_ends_risk_run(s: ExtractorState, class: LabelClass, confident: bool, now: i64)
    requires
        s.wf(),
        class != LabelClass::Risk,
    ensures
        counters_step(s, class, confident, now).0.risk_streak == 0,
        counters_step(s, class, confident, now).0.prediction_counter == 0,
        counters_step(s, class, confident, now).1 != WindowAlert::Intervention,
{
}

/// Every tick taken while collecting and on a break resets both risk counts,
/// whether or not the end of a break is also flagged.
pub proof fn lemma_break_tick_resets_risk_counts(s: ExtractorState, break_ended: bool, now: i64)
    requires
        s.wf(),
    ensures
        begin_step(s, true, true, break_ended, now).0.risk_streak == 0,
        begin_step(s, true, true, break_ended, now).0.prediction_counter == 0,
        begin_step(s, true, true, break_ended, now).1.start == WindowStart::OnBreak,
{
}

/// The number of consecutive at-risk or procrastinating windows that end a run.
pub open spec fn trailing_risk(ws: Seq<(LabelClass, bool, i64)>) -> nat
    decreases ws.len(),
{
    if ws.len() == 0 {
        0
    } else if ws.last().0 == LabelClass::Risk {
        trailing_risk(ws.drop_last()) + 1
    } else {
        0
    }
}

proof fn lemma_risk_counts_within_trailing_run(s: ExtractorState, ws: Seq<(LabelClass, bool, i64)>)
    requires
        s.wf(),
        s.risk_streak == 0,
        s.prediction_counter == 0,
    ensures
        run_windows(s, ws).wf(),
        run_windows(s, ws).risk_streak <= trailing_risk(ws),
        run_windows(s, ws).prediction_counter <= trailing_risk(ws),
    decreases ws.len(),
{
    if ws.len() > 0 {
        let prev = ws.drop_last();
        lemma_risk_counts_within_trailing_run(s, prev);
        let w = ws.last();
        lemma_counters_step_keeps_wf(run_windows(s, prev), w.0, w.1, w.2);
    }
}

/// From reset risk counts (a fresh loop, or the first tick after a break), a
/// window raises a pop-up intervention only when it is itself at risk or
/// procrastinating and closes an unbroken run of such windows: at least three
/// in a row, and at least five in a row when it is below the confidence
/// threshold. Any other window in between starts the run again.
pub proof fn lemma_popup_needs_unbroken_risk_run(
    s: ExtractorState,
    ws: Seq<(LabelClass, bool, i64)>,
    class: LabelClass,
    confident: bool,
    now: i64,
)
    requires
        s.wf(),
        s.risk_streak == 0,
        s.prediction_counter == 0,
    ensures
        counters_step(run_windows(s, ws), class, confident, now).1 == WindowAlert::Intervention ==> {
            let full = ws.push((class, confident, now));
            &&& class == LabelClass::Risk
            &&& trailing_risk(full) >= INTERVENTION_STREAK
            &&& !confident ==> trailing_risk(full) >= RISK_WINDOW_STREAK
        },
{
    lemma_risk_counts_within_trailing_run(s, ws);
    lemma_intervention_exactly_when_run_completes(run_windows(s, ws), class, confident, now);
    let full = ws.push((class, confident, now));
    assert(full.drop_last() =~= ws);
    assert(full.last() == (class, confident, now));
}

/// The state after a run of classified windows, each a class, whether it was
/// confident, and the time it ends.
pub open spec fn run_windows(s: ExtractorState, ws: Seq<(LabelClass, bool, i64)>) -> ExtractorState
    decreases ws.len(),
{
    if ws.len() == 0 {
        s
    } else {
        counters_step(run_windows(s, ws.drop_last()), ws.last().0, ws.last().1, ws.last().2).0
    }
}

/// Once a pop-up intervention has been raised at `t0`, no window ending less
/// than the cooldown after `t0` raises another, whatever windows come between.
pub proof fn lemma_no_popup_within_cooldown(
    s: ExtractorState,
    t0: i64,
    ws: Seq<(LabelClass, bool, i64)>,
    class: LabelClass,
    confident: bool,
    now: i64,
)
    requires
        s.last_intervention_ts == Some(t0),
        forall|i: int| 0 <= i < ws.len() ==> #[trigger] ws[i].2 - t0 < s.cooldown_minutes * 60,
        now - t0 < s.cooldown_minutes * 60,
    ensures
        run_windows(s, ws).last_intervention_ts == Some(t0),
        run_windows(s, ws).cooldown_minutes == s.cooldown_minutes,
        counters_step(run_windows(s, ws), class, confident, now).1 != WindowAlert::Intervention,
    decreases ws.len(),
{
    if ws.len() > 0 {
        let w = ws.last();
        assert(ws[ws.len() - 1] == w);
        lemma_no_popup_within_cooldown(s, t0, ws.drop_last(), w.0, w.1, w.2);
    }
}

/// A window that is not at risk or procrastinating resets the risk count; one
/// that is resets the focused and idle counts.
pub proof fn lemma_other_states_reset_counts(s: ExtractorState, class: LabelClass, confident: bool, now: i64)
    requires
        s.wf(),
    ensures
        class != LabelClass::Risk ==> counters_step(s, class, confident, now).0.prediction_counter == 0,
        class == LabelClass::Risk ==> counters_step(s, class, confident, now).0.focused_counter == 0
            && counters_step(s, class, confident, now).0.idle_counter == 0,
{
}

/// A window below the confidence threshold neither advances nor resets the
/// confident count of its own state (a risk window can still complete a run
/// of five).
pub proof fn lemma_unconfident_window_keeps_own_count(s: ExtractorState, class: LabelClass, now: i64)
    requires
        s.wf(),
    ensures
        class == LabelClass::Risk && s.risk_streak != RISK_WINDOW_STREAK - 1 ==> counters_step(
            s,
            class,
            false,
            now,
        ).0.prediction_counter == s.prediction_counter && counters_step(s, class, false, now).1
            != WindowAlert::Intervention,
        class == LabelClass::Focused && s.focused_counter != s.focused_streak_threshold
            ==> counters_step(s, class, false, now).0.focused_counter == s.focused_counter,
        class == LabelClass::Idle && s.idle_counter != IDLE_STREAK && 0 != s.focused_streak_threshold
            ==> counters_step(s, class, false, now).0.idle_counter == s.idle_counter,
{
}

/// A focus check reports a streak of exactly the configured threshold and an
/// idle check a streak of exactly ten windows; the reported count restarts.
pub proof fn lemma_check_streaks(s: ExtractorState, class: LabelClass, confident: bool, now: i64)
    requires
        s.wf(),
    ensures
        ({
            let (t, a) = counters_step(s, class, confident, now);
            &&& (a matches WindowAlert::FocusCheck { streak_windows } ==> streak_windows
                == s.focused_streak_threshold && t.focused_counter == 0)
            &&& (a matches WindowAlert::IdleCheck { streak_windows } ==> streak_windows == IDLE_STREAK
                && t.idle_counter == 0)
        }),
{
}

/// The focused streak after a run of classified windows, as the focus check
/// reads it: a focused window adds one when confident, to a streak that starts
/// again once it has reached `threshold`; any other window ends the streak.
pub open spec fn focus_streak(threshold: int, ws: Seq<(LabelClass, bool, i64)>) -> int
    decreases ws.len(),
{
    if ws.len() == 0 {
        0
    } else {
        let p = focus_streak(threshold, ws.drop_last());
        if ws.last().0 == LabelClass::Focused {
            (if p == threshold { 0 } else { p }) + (if ws.last().1 { 1int } else { 0int })
        } else {
            0
        }
    }
}

/// The idle streak after a run of classified windows, as the idle check reads
/// it: an idle window adds one when confident, to a streak that starts again
/// once it has reached ten; any other window ends the streak.
pub open spec fn idle_streak(ws: Seq<(LabelClass, bool, i64)>) -> int
    decreases ws.len(),
{
    if ws.len() == 0 {
        0
    } else {
        let p = idle_streak(ws.drop_last());
        if ws.last().0 == LabelClass::Idle {
            (if p == IDLE_STREAK { 0 } else { p }) + (if ws.last().1 { 1int } else { 0int })
        } else {
            0
        }
    }
}

/// Every classified window keeps the bounds of a reachable state.
pub proof fn lemma_counters_step_keeps_wf(s: ExtractorState, class: LabelClass, confident: bool, now: i64)
    requires
        s.wf(),
    ensures
        counters_step(s, class, confident, now).0.wf(),
        counters_step(s, class, confident, now).0.focused_streak_threshold == s.focused_streak_threshold,
{
}

proof fn lemma_run_counts_follow_streaks(s: ExtractorState, ws: Seq<(LabelClass, bool, i64)>)
    requires
        s.wf(),
        s.focused_streak_threshold >= 1,
        s.focused_counter == 0,
        s.idle_counter == 0,
    ensures
        run_windows(s, ws).wf(),
        run_windows(s, ws).focused_streak_threshold == s.focused_streak_threshold,
        0 <= focus_streak(s.focused_streak_threshold as int, ws) <= s.focused_streak_threshold,
        run_windows(s, ws).focused_counter == if focus_streak(s.focused_streak_threshold as int, ws)
            == s.focused_streak_threshold {
            0
        } else {
            focus_streak(s.focused_streak_threshold as int, ws)
        },
        0 <= idle_streak(ws) <= IDLE_STREAK,
        run_windows(s, ws).idle_counter == if idle_streak(ws) == IDLE_STREAK {
            0
        } else {
            idle_streak(ws)
        },
    decreases ws.len(),
{
    if ws.len() > 0 {
        let prev = ws.drop_last();
        lemma_run_counts_follow_streaks(s, prev);
        let w = ws.last();
        lemma_counters_step_keeps_wf(run_windows(s, prev), w.0, w.1, w.2);
    }
}

/// From a fresh count and a focus-check threshold of at least one, a window
/// raises a focus check, reporting the threshold, exactly when it brings the
/// focused streak to the threshold; and an idle check, reporting ten windows,
/// exactly when it brings the idle streak to ten; whatever windows came before.
pub proof fn lemma_checks_follow_streaks_over_run(
    s: ExtractorState,
    ws: Seq<(LabelClass, bool, i64)>,
    class: LabelClass,
    confident: bool,
    now: i64,
)
    requires
        s.wf(),
        s.focused_streak_threshold >= 1,
        s.focused_counter == 0,
        s.idle_counter == 0,
    ensures
        ({
            let a = counters_step(run_windows(s, ws), class, confident, now).1;
            let full = ws.push((class, confident, now));
            &&& (a == WindowAlert::FocusCheck { streak_windows: s.focused_streak_threshold }) <==> focus_streak(
                s.focused_streak_threshold as int,
                full,
            ) == s.focused_streak_threshold
            &&& (a == WindowAlert::IdleCheck { streak_windows: IDLE_STREAK }) <==> idle_streak(full)
                == IDLE_STREAK
            &&& (a is FocusCheck) == (a == WindowAlert::FocusCheck { streak_windows: s.focused_streak_threshold })
            &&& (a is IdleCheck) == (a == WindowAlert::IdleCheck { streak_windows: IDLE_STREAK })
        }),
{
    lemma_run_counts_follow_streaks(s, ws);
    let full = ws.push((class, confident, now));
    assert(full.drop_last() =~= ws);
    assert(full.last() == (class, confident, now));
}

/// After a break ends, the next five processed windows are scored and the
/// sixth completes the break's focus score.
pub proof fn lemma_post_break_scores_five_windows(
    s: ExtractorState,
    c1: LabelClass,
    c2: LabelClass,
    c3: LabelClass,
    c4: LabelClass,
    c5: LabelClass,
    c6: LabelClass,
)
    requires
        s.wf(),
        s.post_break_remaining_windows == POST_BREAK_WINDOWS,
    ensures
        ({
            let (s1, p1) = post_break_spec(s, c1);
            let (s2, p2) = post_break_spec(s1, c2);
            let (s3, p3) = post_break_spec(s2, c3);
            let (s4, p4) = post_break_spec(s3, c4);
            let (s5, p5) = post_break_spec(s4, c5);
            let (s6, p6) = post_break_spec(s5, c6);
            &&& p1 == PostBreakStep::Record { focused: c1 == LabelClass::Focused }
            &&& p2 == PostBreakStep::Record { focused: c2 == LabelClass::Focused }
            &&& p3 == PostBreakStep::Record { focused: c3 == LabelClass::Focused }
            &&& p4 == PostBreakStep::Record { focused: c4 == LabelClass::Focused }
            &&& p5 == PostBreakStep::Record { focused: c5 == LabelClass::Focused }
            &&& p6 == PostBreakStep::Finish
            &&& s6.post_break_remaining_windows == 0
            &&& s6.post_break_scores == 0
        }),
{
}

/// The tick at which the end of a break is seen never processes a window: the
/// window would overlap the break, so the loop waits; and while the user is on
/// a break the risk counts are reset.
pub proof fn lemma_break_end_defers_window(s: ExtractorState, now: i64)
    requires
        s.wf(),
        now >= i64::MIN + WINDOW_SECONDS,
    ensures
        begin_step(s, true, false, true, now).1 == (WindowPlan { start: WindowStart::Wait, clear_break_ended: true }),
        begin_step(s, true, false, true, now).0.post_break_remaining_windows == POST_BREAK_WINDOWS,
        begin_step(s, true, true, true, now).0.prediction_counter == 0,
        begin_step(s, true, true, true, now).0.risk_streak == 0,
        begin_step(s, true, true, true, now).1.start == WindowStart::OnBreak,
{
}

/// Once the end of a break has been seen at `resume`, no window that starts
/// before `resume` is processed: until one is, every tick that is not on a
/// break either waits, keeping `resume` pending, or processes a window that
/// starts at `resume` or later and clears it.
pub proof fn lemma_no_window_before_break_end(s: ExtractorState, on_break: bool, now: i64, resume: i64)
    requires
        s.wf(),
        s.resume_from_ts == Some(resume),
        now >= i64::MIN + WINDOW_SECONDS,
    ensures
        ({
            let (t, plan) = begin_step(s, true, on_break, false, now);
            &&& (plan.start matches WindowStart::Process { window_start, .. } ==> window_start >= resume
                && t.resume_from_ts is None)
            &&& (!(plan.start is Process) ==> t.resume_from_ts == Some(resume))
        }),
{
}

/// A processed window always spans exactly sixty seconds and ends at the tick.
pub proof fn lemma_processed_window_spans_sixty_seconds(
    s: ExtractorState,
    running: bool,
    on_break: bool,
    break_ended: bool,
    now: i64,
)
    requires
        s.wf(),
        now >= i64::MIN + WINDOW_SECONDS,
    ensures
        begin_step(s, running, on_break, break_ended, now).1.start matches WindowStart::Process {
            window_start,
            window_end,
        } ==> window_end == now && window_end - window_start == WINDOW_SECONDS,
{
}

} // verus!
