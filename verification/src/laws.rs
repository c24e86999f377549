//! Properties that relate several operations of the library.
use crate::chart::{blank, centered, resized};
use crate::gui::message::{Message, NewValue, Range, SlideMessage};
use crate::gui::panel::with_bound;
use crate::gui::{property_at, property_index, slider_value, PROPERTY_COUNT};
use crate::property::{CoreRefresh, WorkerProperty, WorkerUpdate};
use crate::session::{session_step, Reaction, Schedule, SessionView};
use vstd::prelude::*;

verus! {

/// Reading a parameter after recording an update of it gives back that update.
pub proof fn law_read_after_write(p: WorkerProperty, update: WorkerUpdate)
    ensures
        property_at(p.updated(update), property_index(update)) == update,
{
}

/// Recording an update leaves every other parameter as it was.
pub proof fn law_write_touches_one(p: WorkerProperty, update: WorkerUpdate, idx: int)
    requires
        0 <= idx < PROPERTY_COUNT,
        idx != property_index(update),
    ensures
        property_at(p.updated(update), idx) == property_at(p, idx),
{
}

/// Recording the value a parameter already has changes nothing.
pub proof fn law_write_back_read(p: WorkerProperty, idx: int)
    requires
        0 <= idx < PROPERTY_COUNT,
    ensures
        p.updated(property_at(p, idx)) == p,
{
}

/// Of two updates of the same parameter, the later one wins.
pub proof fn law_last_write_wins(p: WorkerProperty, first: WorkerUpdate, second: WorkerUpdate)
    requires
        property_index(first) == property_index(second),
    ensures
        p.updated(first).updated(second) == p.updated(second),
{
}

/// Updates of different parameters can be recorded in either order.
pub proof fn law_updates_commute(p: WorkerProperty, a: WorkerUpdate, b: WorkerUpdate)
    requires
        property_index(a) != property_index(b),
    ensures
        p.updated(a).updated(b) == p.updated(b).updated(a),
{
}

/// The parameter read at a panel position belongs to the control at that position.
pub proof fn law_read_position(p: WorkerProperty, idx: int)
    requires
        0 <= idx < PROPERTY_COUNT,
    ensures
        property_index(property_at(p, idx)) == idx,
{
}

/// Moving a slider bound changes only the slider of the control the update belongs to,
/// and there only the chosen bound, which takes the update's value.
pub proof fn law_bound_moves_one(
    ranges: Seq<Option<Range<u64>>>,
    update: WorkerUpdate,
    upper: bool,
    idx: int,
)
    requires
        ranges.len() == PROPERTY_COUNT,
        0 <= idx < PROPERTY_COUNT,
    ensures
        with_bound(ranges, update, upper).len() == ranges.len(),
        idx != property_index(update) ==> with_bound(ranges, update, upper)[idx] == ranges[idx],
        idx == property_index(update) && ranges[idx] is Some ==> {
            let r = ranges[idx]->Some_0;
            let n = with_bound(ranges, update, upper)[idx]->Some_0;
            &&& with_bound(ranges, update, upper)[idx] is Some
            &&& upper ==> n.higher == slider_value(update) && n.lower == r.lower
            &&& !upper ==> n.lower == slider_value(update) && n.higher == r.higher
        },
        ranges[property_index(update)] is None ==> with_bound(ranges, update, upper) == ranges,
{
}

/// Recording a change rebuilds exactly the part of the core that depends on it, from the
/// values the parameters have once the change is recorded: detuning and dispersion both
/// feed the linear operator, the record step feeds nothing.
pub proof fn law_refresh_uses_recorded_values(p: WorkerProperty, v: u64, n: u32)
    ensures
        p.updated(WorkerUpdate::Alpha(v)).refresh_for(WorkerUpdate::Alpha(v))
            == (CoreRefresh::LinearOperator { alpha: v, linear: p.linear }),
        p.updated(WorkerUpdate::Linear(v)).refresh_for(WorkerUpdate::Linear(v))
            == (CoreRefresh::LinearOperator { alpha: p.alpha, linear: v }),
        p.updated(WorkerUpdate::Pump(v)).refresh_for(WorkerUpdate::Pump(v))
            == CoreRefresh::PumpConstant(v),
        p.updated(WorkerUpdate::SimuStep(v)).refresh_for(WorkerUpdate::SimuStep(v))
            == CoreRefresh::StepDistance(v),
        p.updated(WorkerUpdate::Couple(v)).refresh_for(WorkerUpdate::Couple(v))
            == CoreRefresh::CouplingCoefficient(v),
        p.updated(WorkerUpdate::RecordStep(n)).refresh_for(WorkerUpdate::RecordStep(n))
            == CoreRefresh::Unchanged,
        p.updated(WorkerUpdate::Alpha(v)).alpha == v,
        p.updated(WorkerUpdate::Linear(v)).linear == v,
{
}

/// A slider bound moved by an update takes the update's value bit for bit.
pub proof fn law_slider_value_is_carried_value(v: u64)
    ensures
        slider_value(WorkerUpdate::Alpha(v)) == v,
        slider_value(WorkerUpdate::Pump(v)) == v,
        slider_value(WorkerUpdate::Linear(v)) == v,
        slider_value(WorkerUpdate::Couple(v)) == v,
{
}

/// Setting a bound of a slider to a typed value: the lower bound (upper if `upper`) of
/// that control becomes the typed value exactly, the other bound and every other control
/// stay as they were.
pub proof fn law_bound_takes_typed_value(
    ranges: Seq<Option<Range<u64>>>,
    update: WorkerUpdate,
    v: u64,
    upper: bool,
)
    requires
        ranges.len() == PROPERTY_COUNT,
        update == WorkerUpdate::Alpha(v) || update == WorkerUpdate::Pump(v) || update
            == WorkerUpdate::Linear(v) || update == WorkerUpdate::Couple(v),
        ranges[property_index(update)] is Some,
    ensures
        ({
            let i = property_index(update);
            let r = ranges[i]->Some_0;
            with_bound(ranges, update, upper) == ranges.update(
                i,
                Some(
                    if upper {
                        Range { lower: r.lower, higher: v }
                    } else {
                        Range { lower: v, higher: r.higher }
                    },
                ),
            )
        }),
{
}

/// A number sent from a slider's lower-bound field (`SetMin`) moves that control's lower
/// bound onto the number and keeps its upper bound; from the upper-bound field (`SetMax`),
/// the reverse. Nothing else changes, and the reaction names the control.
pub proof fn law_session_moves_named_bound(
    s: SessionView,
    update: WorkerUpdate,
    v: u64,
    which: SlideMessage,
    now: u64,
    frame: u64,
)
    requires
        s.ranges.len() == PROPERTY_COUNT,
        update == WorkerUpdate::Alpha(v) || update == WorkerUpdate::Pump(v) || update
            == WorkerUpdate::Linear(v) || update == WorkerUpdate::Couple(v),
        s.ranges[property_index(update)] is Some,
        which == SlideMessage::SetMin || which == SlideMessage::SetMax,
    ensures
        ({
            let i = property_index(update);
            let r = s.ranges[i]->Some_0;
            let step = session_step(
                s,
                Message::Slide((NewValue::Number(update), which)),
                now,
                frame,
            );
            &&& step.1 == Reaction::RangeChanged(i as usize)
            &&& step.0.paused == s.paused
            &&& step.0.last_update == s.last_update
            &&& step.0.ranges == s.ranges.update(
                i,
                Some(
                    if which == SlideMessage::SetMax {
                        Range { lower: r.lower, higher: v }
                    } else {
                        Range { lower: v, higher: r.higher }
                    },
                ),
            )
        }),
{
    law_bound_takes_typed_value(s.ranges, update, v, which == SlideMessage::SetMax);
}

/// While running, a frame is scheduled one frame period after the previous frame: it
/// waits `last + frame - now` nanoseconds, or not at all if that moment has passed, and
/// at once if no frame was advanced before; the frame time becomes `now`.
pub proof fn law_running_tick_waits_for_period(s: SessionView, now: u64, frame: u64)
    requires
        !s.paused,
    ensures
        session_step(s, Message::Tick, now, frame).0 == (SessionView {
            last_update: Some(now),
            ..s
        }),
        s.last_update is None ==> session_step(s, Message::Tick, now, frame).1
            == Reaction::Step(Schedule::Now),
        s.last_update matches Some(l) ==> session_step(s, Message::Tick, now, frame).1
            == Reaction::Step(
            Schedule::After(
                if l + frame > now {
                    (l + frame - now) as u64
                } else {
                    0
                },
            ),
        ),
{
}

/// Pausing twice gives back the state before.
pub proof fn law_pause_twice(s: SessionView, now1: u64, now2: u64, frame: u64)
    ensures
        session_step(session_step(s, Message::Pause, now1, frame).0, Message::Pause, now2, frame).0
            == s,
{
}

/// Resuming schedules a frame at once; pausing schedules none.
pub proof fn law_pause_schedule(s: SessionView, now: u64, frame: u64)
    ensures
        session_step(s, Message::Pause, now, frame).1 == Reaction::Toggled(
            if s.paused {
                Schedule::Now
            } else {
                Schedule::Idle
            },
        ),
{
}

/// While paused, a frame advances the simulation but changes no state and schedules
/// nothing.
pub proof fn law_paused_tick(s: SessionView, now: u64, frame: u64)
    requires
        s.paused,
    ensures
        session_step(s, Message::Tick, now, frame) == (s, Reaction::Step(Schedule::Idle)),
{
}

/// While running, the next frame is never scheduled more than one frame period away
/// from a clock that has not gone back.
pub proof fn law_running_pace(s: SessionView, now: u64, frame: u64)
    requires
        !s.paused,
        s.last_update matches Some(l) ==> l <= now,
    ensures
        session_step(s, Message::Tick, now, frame).0.last_update == Some(now),
        match session_step(s, Message::Tick, now, frame).1 {
            Reaction::Step(Schedule::After(d)) => d <= frame,
            Reaction::Step(Schedule::Now) => s.last_update is None,
            _ => false,
        },
{
}

/// A parameter value, typed or slid, never changes the window state: it is applied to
/// the simulation, or the unparsed text is reported.
pub proof fn law_values_leave_state(s: SessionView, v: NewValue, now: u64, frame: u64)
    ensures
        session_step(s, Message::Input(v), now, frame) == (s, match v {
            NewValue::Number(u) => Reaction::Apply(u),
            NewValue::Nan(t) => Reaction::Invalid(t),
        }),
        session_step(s, Message::Slide((v, SlideMessage::SetVal)), now, frame) == (s, match v {
            NewValue::Number(u) => Reaction::Apply(u),
            NewValue::Nan(t) => Reaction::Invalid(t),
        }),
{
}

/// In drawing order, position `i` holds the bin `(i + len / 2) % len`.
pub proof fn law_centered_rotates<T>(freq: Seq<T>, i: int)
    requires
        0 <= i < freq.len(),
    ensures
        centered(freq).len() == freq.len(),
        centered(freq)[i] == freq[(i + freq.len() / 2) % (freq.len() as int)],
{
    let n = freq.len() as int;
    let h = n / 2;
    if i < n - h {
        assert((i + h) % n == i + h) by (nonlinear_arith)
            requires
                0 <= i + h < n,
        ;
    } else {
        assert((i + h) % n == i + h - n) by (nonlinear_arith)
            requires
                n <= i + h < 2 * n,
        ;
    }
}

/// For an even number of bins, putting the spectrum in drawing order twice gives back the
/// transform's order.
pub proof fn law_centered_twice<T>(freq: Seq<T>)
    requires
        freq.len() % 2 == 0,
    ensures
        centered(centered(freq)) == freq,
{
    assert(centered(centered(freq)) =~= freq);
}

/// Resizing a bitmap keeps every pixel that still fits and makes every new pixel zero.
pub proof fn law_resize_keeps_pixels(old: Seq<u32>, n: nat, i: int)
    requires
        0 <= i < n,
    ensures
        resized(old, n).len() == n,
        i < old.len() ==> resized(old, n)[i] == old[i],
        i >= old.len() ==> resized(old, n)[i] == 0,
{
    if n > old.len() {
        assert(blank((n - old.len()) as nat).len() == n - old.len());
    }
}

} // verus!
