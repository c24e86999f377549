//! How the simulator window reacts to each message: the paused/running state, the pacing
//! of frames and the slider bounds of the control panel.
use crate::gui::map_property_to_idx;
use crate::gui::message::{Message, NewValue, Range, SlideMessage};
use crate::gui::panel::{with_bound, Panel};
use crate::gui::{property_index, PROPERTY_COUNT};
use crate::property::WorkerUpdate;
use vstd::prelude::*;

verus! {

/// When the next frame is due after a message was handled.
#[derive(Debug, Clone, Copy, PartialEq, Eq, Structural)]
pub enum Schedule {
    /// No frame is scheduled.
    Idle,
    /// The next frame is due at once.
    Now,
    /// The next frame is due after this many nanoseconds.
    After(u64),
}

/// What the window has to do in answer to a message.
#[derive(Debug, Clone, PartialEq, Eq)]
pub enum Reaction {
    /// Hand this parameter change to the simulation.
    Apply(WorkerUpdate),
    /// Report this text, which is not a number, and change nothing.
    Invalid(String),
    /// The slider bounds of the control at this position changed.
    RangeChanged(usize),
    /// A bound was sent for the control at this position, which has no slider; report it.
    NoSlider(usize),
    /// Advance the simulation by one frame, redraw, then follow the schedule.
    Step(Schedule),
    /// The run/pause state was toggled; follow the schedule.
    Toggled(Schedule),
}

/// The state of the window that is not simulation data.
pub struct Session {
    paused: bool,
    last_update: Option<u64>,
    panel: Panel,
}

/// The abstract state of a [`Session`]: whether it is paused, when the last frame was
/// advanced (nanoseconds on the caller's clock), and the slider bounds of the panel.
pub struct SessionView {
    pub paused: bool,
    pub last_update: Option<u64>,
    pub ranges: Seq<Option<Range<u64>>>,
}

impl View for Session {
    type V = SessionView;

    closed spec fn view(&self) -> SessionView {
        SessionView { paused: self.paused, last_update: self.last_update, ranges: self.panel@ }
    }
}

/// How long to wait, from `now`, until one frame period after the frame advanced at
/// `last`; zero when that moment has passed.
pub open spec fn frame_delay(last: u64, frame: u64, now: u64) -> int {
    if last + frame > now {
        last + frame - now
    } else {
        0
    }
}

/// The reaction to a parameter value: apply it, or report the text that did not parse.
pub open spec fn value_reaction(v: NewValue) -> Reaction {
    match v {
        NewValue::Number(u) => Reaction::Apply(u),
        NewValue::Nan(t) => Reaction::Invalid(t),
    }
}

/// The state after a slider bound message and the reaction to it.
pub open spec fn bound_step(s: SessionView, v: NewValue, upper: bool) -> (SessionView, Reaction) {
    match v {
        NewValue::Nan(t) => (s, Reaction::Invalid(t)),
        NewValue::Number(u) => {
            let i = property_index(u);
            if s.ranges[i] is Some {
                (
                    SessionView { ranges: with_bound(s.ranges, u, upper), ..s },
                    Reaction::RangeChanged(i as usize),
                )
            } else {
                (s, Reaction::NoSlider(i as usize))
            }
        },
    }
}

/// The state after `message` arrived at time `now` and the reaction to it, `frame` being
/// the frame period in nanoseconds.
pub open spec fn session_step(s: SessionView, message: Message, now: u64, frame: u64) -> (
    SessionView,
    Reaction,
) {
    match message {
        Message::Input(v) => (s, value_reaction(v)),
        Message::Slide((v, SlideMessage::SetVal)) => (s, value_reaction(v)),
        Message::Slide((v, SlideMessage::SetMax)) => bound_step(s, v, true),
        Message::Slide((v, SlideMessage::SetMin)) => bound_step(s, v, false),
        Message::Tick => if s.paused {
            (s, Reaction::Step(Schedule::Idle))
        } else {
            (
                SessionView { last_update: Some(now), ..s },
                Reaction::Step(
                    match s.last_update {
                        None => Schedule::Now,
                        Some(l) => Schedule::After(frame_delay(l, frame, now) as u64),
                    },
                ),
            )
        },
        Message::Pause => (
            SessionView { paused: !s.paused, ..s },
            Reaction::Toggled(
                if s.paused {
                    Schedule::Now
                } else {
                    Schedule::Idle
                },
            ),
        ),
    }
}

impl Session {
    /// The panel has an entry per control and none for the two controls without slider.
    pub open spec fn well_formed(&self) -> bool {
        &&& self@.ranges.len() == PROPERTY_COUNT
        &&& self@.ranges[3] is None
        &&& self@.ranges[4] is None
    }

    /// Whether the next frame time, one period after the last frame, can be represented.
    pub open spec fn can_pace(&self, frame: u64) -> bool {
        self@.last_update matches Some(l) ==> l + frame <= u64::MAX
    }

    /// A paused session that has not advanced any frame yet, with the given panel.
    pub fn new(panel: Panel) -> (s: Session)
        requires
            panel.well_formed(),
        ensures
            s.well_formed(),
            s@.paused,
            s@.last_update is None,
            s@.ranges == panel@,
    {
        Session { paused: true, last_update: None, panel }
    }

    /// Whether the simulation is paused.
    pub fn paused(&self) -> (p: bool)
        ensures
            p == self@.paused,
    {
        self.paused
    }

    /// When the last frame was advanced.
    pub fn last_update(&self) -> (t: Option<u64>)
        ensures
            t == self@.last_update,
    {
        self.last_update
    }

    /// The slider bounds of the panel.
    pub fn panel(&self) -> (p: &Panel)
        ensures
            p@ == self@.ranges,
            self.well_formed() ==> p.well_formed(),
    {
        &self.panel
    }

    /// Handles one message that arrived at time `now`, `frame` being the frame period;
    /// the new state and the reaction are those of [`session_step`].
    pub fn update(&mut self, message: Message, now: u64, frame: u64) -> (reaction: Reaction)
        requires
            old(self).well_formed(),
            message is Tick && !old(self)@.paused ==> old(self).can_pace(frame),
        ensures
            final(self).well_formed(),
            (final(self)@, reaction) == session_step(old(self)@, message, now, frame),
    {
        match message {
            Message::Input(v) => Self::value_reaction(v),
            Message::Slide((v, which)) => match which {
                SlideMessage::SetVal => Self::value_reaction(v),
                SlideMessage::SetMax => self.move_bound(v, true),
                SlideMessage::SetMin => self.move_bound(v, false),
            },
            Message::Tick => {
                if self.paused {
                    Reaction::Step(Schedule::Idle)
                } else {
                    let schedule = match self.last_update {
                        None => Schedule::Now,
                        Some(l) => Schedule::After((l + frame).saturating_sub(now)),
                    };
                    self.last_update = Some(now);
                    Reaction::Step(schedule)
                }
            },
            Message::Pause => {
                self.paused = !self.paused;
                Reaction::Toggled(
                    if self.paused {
                        Schedule::Idle
                    } else {
                        Schedule::Now
                    },
                )
            },
        }
    }

    fn value_reaction(v: NewValue) -> (r: Reaction)
        ensures
            r == value_reaction(v),
    {
        match v {
            NewValue::Number(u) => Reaction::Apply(u),
            NewValue::Nan(t) => Reaction::Invalid(t),
        }
    }

    fn move_bound(&mut self, v: NewValue, upper: bool) -> (r: Reaction)
        requires
            old(self).well_formed(),
        ensures
            final(self).well_formed(),
            (final(self)@, r) == bound_step(old(self)@, v, upper),
    {
        match v {
            NewValue::Nan(t) => Reaction::Invalid(t),
            NewValue::Number(u) => {
                let i = map_property_to_idx(u);
                if self.panel.set_bound(u, upper) {
                    Reaction::RangeChanged(i)
                } else {
                    Reaction::NoSlider(i)
                }
            },
        }
    }
}

} // verus!
