//! The decisions of the input-event hook: which events are recorded, how they
//! are described, and which application they are attributed to.
use vstd::prelude::*;
use crate::text::str_eq;

verus! {

/// An input event as delivered by the OS hook, with the names of keys and
/// buttons already spelled out. Pointer coordinates are not part of it.
#[derive(Debug, Clone, PartialEq, Eq)]
pub enum EventKind {
    KeyPress { key: String },
    KeyRelease { key: String },
    ButtonPress { button: String },
    ButtonRelease { button: String },
    MouseMove,
    Wheel { delta_x: i64, delta_y: i64 },
}

/// The description of an event that is stored with it.
#[derive(Debug, Clone, PartialEq, Eq)]
pub struct EventFields {
    pub event_type: String,
    pub event_action: String,
    pub key_code: Option<String>,
    pub wheel_x: Option<i64>,
    pub wheel_y: Option<i64>,
    pub button: Option<String>,
}

/// The application an event is attributed to.
#[derive(Debug, Clone, PartialEq, Eq)]
pub enum WindowChoice {
    /// Use this name, as it stands.
    Known(String),
    /// Read the focused application now and hand it to [`CaptureState::remember_window`].
    Query,
}

/// What to do with one event from the hook.
#[derive(Debug, Clone, PartialEq, Eq)]
pub enum CapturePlan {
    /// Collection is off, the user is on a break, or the event time is unusable.
    Drop,
    /// Store the event with these fields at this time.
    Record { timestamp: i64, fields: EventFields, window: WindowChoice },
}

/// The state the hook keeps between events.
#[derive(Debug, Clone, PartialEq, Eq)]
pub struct CaptureState {
    /// The application of the last event that read it.
    pub last_window: String,
    /// The break flag last seen while collecting.
    pub last_on_break: Option<bool>,
}

pub open spec fn event_type_of(kind: EventKind) -> Seq<char> {
    match kind {
        EventKind::KeyPress { .. } | EventKind::KeyRelease { .. } => "keyboard"@,
        _ => "Mouse"@,
    }
}

pub open spec fn event_action_of(kind: EventKind) -> Seq<char> {
    match kind {
        EventKind::KeyPress { .. } => "KeyPress"@,
        EventKind::KeyRelease { .. } => "KeyRelease"@,
        EventKind::ButtonPress { .. } => "ButtonPress"@,
        EventKind::ButtonRelease { .. } => "ButtonRelease"@,
        EventKind::MouseMove => "MouseMove"@,
        EventKind::Wheel { .. } => "WheelScroll"@,
    }
}

/// The stored description of an event, by definition.
pub open spec fn describes(kind: EventKind, f: EventFields) -> bool {
    &&& f.event_type@ == event_type_of(kind)
    &&& f.event_action@ == event_action_of(kind)
    &&& f.key_code == match kind {
        EventKind::KeyPress { key } | EventKind::KeyRelease { key } => Some(key),
        _ => None::<String>,
    }
    &&& f.button == match kind {
        EventKind::ButtonPress { button } | EventKind::ButtonRelease { button } => Some(button),
        _ => None::<String>,
    }
    &&& f.wheel_x == match kind {
        EventKind::Wheel { delta_x, .. } => Some(delta_x),
        _ => None::<i64>,
    }
    &&& f.wheel_y == match kind {
        EventKind::Wheel { delta_y, .. } => Some(delta_y),
        _ => None::<i64>,
    }
}

/// The seconds since the epoch that chrono's `DateTime::from_timestamp(secs, 0)`
/// turns into a date: those whose day lies between the first day of year
/// -262143 and the last day of year 262142, the range of chrono's dates.
pub open spec fn chrono_accepts_timestamp(secs: i64) -> bool {
    -8_334_601_228_800 <= secs <= 8_210_266_876_799
}

#[verifier::external_body]
fn timestamp_in_range(secs: i64) -> (r: bool)
    ensures
        r == chrono_accepts_timestamp(secs),
{
    chrono::DateTime::from_timestamp(secs, 0).is_some()
}

/// Describes an event for storage.
pub fn describe_event(kind: &EventKind) -> (f: EventFields)
    ensures
        describes(*kind, f),
{
    match kind {
        EventKind::KeyPress { key } => EventFields {
            event_type: "keyboard".to_string(),
            event_action: "KeyPress".to_string(),
            key_code: Some(key.clone()),
            wheel_x: None,
            wheel_y: None,
            button: None,
        },
        EventKind::KeyRelease { key } => EventFields {
            event_type: "keyboard".to_string(),
            event_action: "KeyRelease".to_string(),
            key_code: Some(key.clone()),
            wheel_x: None,
            wheel_y: None,
            button: None,
        },
        EventKind::ButtonPress { button } => EventFields {
            event_type: "Mouse".to_string(),
            event_action: "ButtonPress".to_string(),
            key_code: None,
            wheel_x: None,
            wheel_y: None,
            button: Some(button.clone()),
        },
        EventKind::ButtonRelease { button } => EventFields {
            event_type: "Mouse".to_string(),
            event_action: "ButtonRelease".to_string(),
            key_code: None,
            wheel_x: None,
            wheel_y: None,
            button: Some(button.clone()),
        },
        EventKind::MouseMove => EventFields {
            event_type: "Mouse".to_string(),
            event_action: "MouseMove".to_string(),
            key_code: None,
            wheel_x: None,
            wheel_y: None,
            button: None,
        },
        EventKind::Wheel { delta_x, delta_y } => EventFields {
            event_type: "Mouse".to_string(),
            event_action: "WheelScroll".to_string(),
            key_code: None,
            wheel_x: Some(*delta_x),
            wheel_y: Some(*delta_y),
            button: None,
        },
    }
}

/// The event time in whole seconds, when it is after the epoch, fits an
/// `i64` and is a date that chrono accepts.
pub open spec fn usable_seconds(since_epoch: Option<u64>) -> Option<i64> {
    match since_epoch {
        Some(secs) => if secs <= i64::MAX && chrono_accepts_timestamp(secs as i64) {
            Some(secs as i64)
        } else {
            None
        },
        None => None,
    }
}

/// The application an event is attributed to: pointer moves keep the last one
/// read, wheel scrolls get none, and every other event reads it afresh.
pub open spec fn window_rule(kind: EventKind, last_window: Seq<char>, window: WindowChoice) -> bool {
    match kind {
        EventKind::MouseMove => window matches WindowChoice::Known(w) && w@ == last_window,
        EventKind::Wheel { .. } => window matches WindowChoice::Known(w) && w@ == Seq::<char>::empty(),
        _ => window == WindowChoice::Query,
    }
}

/// Only pointer moves and wheel scrolls are attributed without reading the
/// focused application: an event stored with any other action (a key press or
/// release, a button press or release) always reads it afresh.
pub proof fn lemma_other_events_read_the_window(
    kind: EventKind,
    fields: EventFields,
    last_window: Seq<char>,
    window: WindowChoice,
)
    requires
        describes(kind, fields),
        window_rule(kind, last_window, window),
        fields.event_action@ != "MouseMove"@,
        fields.event_action@ != "WheelScroll"@,
    ensures
        window == WindowChoice::Query,
{
    reveal_strlit("MouseMove");
    reveal_strlit("WheelScroll");
}

impl CaptureState {
    /// The state before the first event.
    pub fn new() -> (r: Self)
        ensures
            r.last_window@ == Seq::<char>::empty(),
            r.last_on_break is None,
    {
        CaptureState { last_window: String::new(), last_on_break: None }
    }

    /// Decides what to do with an event, given the collection and break flags
    /// and the event time as whole seconds since the epoch (`None` when the
    /// event is dated before the epoch).
    pub fn on_event(&mut self, running: bool, on_break: bool, since_epoch: Option<u64>, kind: &EventKind) -> (plan:
        CapturePlan)
        ensures
            !running ==> plan == CapturePlan::Drop && *final(self) == *old(self),
            running ==> final(self).last_on_break == Some(on_break) && final(self).last_window
                == old(self).last_window,
            running && on_break ==> plan == CapturePlan::Drop,
            running && !on_break && usable_seconds(since_epoch) is None ==> plan == CapturePlan::Drop,
            running && !on_break && usable_seconds(since_epoch) is Some ==> (plan matches CapturePlan::Record {
                timestamp,
                fields,
                window,
            } && timestamp == usable_seconds(since_epoch)->0 && describes(*kind, fields) && window_rule(
                *kind,
                old(self).last_window@,
                window,
            )),
    {
        if !running {
            return CapturePlan::Drop;
        }
        self.last_on_break = Some(on_break);
        if on_break {
            return CapturePlan::Drop;
        }
        let secs = match since_epoch {
            Some(s) => s,
            None => return CapturePlan::Drop,
        };
        if secs > i64::MAX as u64 {
            return CapturePlan::Drop;
        }
        let timestamp = secs as i64;
        if !timestamp_in_range(timestamp) {
            return CapturePlan::Drop;
        }
        let fields = describe_event(kind);
        let window = match kind {
            EventKind::MouseMove => WindowChoice::Known(self.last_window.clone()),
            EventKind::Wheel { .. } => WindowChoice::Known(String::new()),
            _ => WindowChoice::Query,
        };
        CapturePlan::Record { timestamp, fields, window }
    }

    /// Records the focused application that was read for an event (`None`
    /// when it could not be read) and returns the name to store with it.
    pub fn remember_window(&mut self, read: Option<String>) -> (name: String)
        ensures
            name@ == match read {
                Some(w) => w@,
                None => "Unknown window"@,
            },
            final(self).last_window@ == name@,
            final(self).last_on_break == old(self).last_on_break,
    {
        let name = match read {
            Some(w) => w,
            None => "Unknown window".to_string(),
        };
        self.last_window = name.clone();
        name
    }
}

} // verus!
