//! Messages that the user interface sends, and the inputs they carry.
use crate::property::WorkerUpdate;
use vstd::prelude::*;

verus! {

/// Which part of a slider control a message comes from.
#[derive(Debug, Clone, Copy, PartialEq, Eq, Structural)]
pub enum SlideMessage {
    /// The text field of the upper bound.
    SetMax,
    /// The text field of the lower bound.
    SetMin,
    /// The slider itself.
    SetVal,
}

/// A value typed or slid by the user: a parameter change, or the text that did not parse.
#[derive(Debug)]
pub enum NewValue {
    Number(WorkerUpdate),
    Nan(String),
}

/// An event of the user interface.
#[derive(Debug)]
pub enum Message {
    /// A value typed into a parameter's text field.
    Input(NewValue),
    /// A value coming from a slider control.
    Slide((NewValue, SlideMessage)),
    /// Time to advance the simulation by one recorded frame.
    Tick,
    /// Toggle between running and paused.
    Pause,
}

impl Clone for NewValue {
    fn clone(&self) -> (r: NewValue)
        ensures
            r == *self,
    {
        match self {
            NewValue::Number(u) => NewValue::Number(*u),
            NewValue::Nan(t) => NewValue::Nan(t.clone()),
        }
    }
}

impl Clone for Message {
    fn clone(&self) -> (m: Message)
        ensures
            m == *self,
    {
        match self {
            Message::Input(v) => Message::Input(v.clone()),
            Message::Slide((v, which)) => Message::Slide((v.clone(), *which)),
            Message::Tick => Message::Tick,
            Message::Pause => Message::Pause,
        }
    }
}

/// The message that an edited text field of a control sends: `parsed` is the parameter
/// change the text stands for, if it is a number, and `bound` the slider bound the field
/// edits, if it is one. Text that is not a number is always sent as an input.
pub fn field_message(
    parsed: Option<WorkerUpdate>,
    text: String,
    bound: Option<SlideMessage>,
) -> (m: Message)
    ensures
        m == match parsed {
            None => Message::Input(NewValue::Nan(text)),
            Some(u) => match bound {
                None => Message::Input(NewValue::Number(u)),
                Some(which) => Message::Slide((NewValue::Number(u), which)),
            },
        },
{
    match parsed {
        None => Message::Input(NewValue::Nan(text)),
        Some(u) => match bound {
            None => Message::Input(NewValue::Number(u)),
            Some(which) => Message::Slide((NewValue::Number(u), which)),
        },
    }
}

/// Which bound a bound field of a slider control edits: the upper one if `upper`.
pub fn bound_tag(upper: bool) -> (which: SlideMessage)
    ensures
        which == if upper {
            SlideMessage::SetMax
        } else {
            SlideMessage::SetMin
        },
{
    if upper {
        SlideMessage::SetMax
    } else {
        SlideMessage::SetMin
    }
}

/// The bounds of a slider.
#[derive(Debug, Clone, Copy, Default, PartialEq, Eq)]
pub struct Range<T> {
    pub lower: T,
    pub higher: T,
}

impl NewValue {
    /// Hands a parsed value to `f` and gives back what it returned; gives `None` for text
    /// that did not parse (the caller reports it).
    pub fn apply_or_warn<T>(self, f: impl FnOnce(WorkerUpdate) -> T) -> (r: Option<T>)
        requires
            self matches NewValue::Number(v) ==> call_requires(f, (v,)),
        ensures
            match self {
                NewValue::Nan(_) => r is None,
                NewValue::Number(v) => r matches Some(t) && call_ensures(f, (v,), t),
            },
    {
        match self {
            NewValue::Nan(_) => None,
            NewValue::Number(v) => Some(f(v)),
        }
    }
}

} // verus!
