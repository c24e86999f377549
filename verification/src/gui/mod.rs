//! The control panel: one control per simulation parameter, in a fixed order.
pub mod message;
pub mod panel;

use crate::property::{WorkerProperty, WorkerUpdate};
use vstd::prelude::*;

verus! {

/// Number of parameters, hence of controls on the panel.
pub const PROPERTY_COUNT: usize = 6;

/// Number of parameters that [`from_property`] reads: all but the coupling coefficient,
/// which comes last on the panel.
pub const LISTED_COUNT: usize = 5;

/// Position on the panel of the control for the parameter that `update` changes.
pub open spec fn property_index(update: WorkerUpdate) -> int {
    match update {
        WorkerUpdate::Alpha(_) => 0,
        WorkerUpdate::Pump(_) => 1,
        WorkerUpdate::Linear(_) => 2,
        WorkerUpdate::RecordStep(_) => 3,
        WorkerUpdate::SimuStep(_) => 4,
        WorkerUpdate::Couple(_) => 5,
    }
}

/// The current value of the parameter shown at position `idx`, as an update that would
/// set it.
pub open spec fn property_at(p: WorkerProperty, idx: int) -> WorkerUpdate {
    if idx == 0 {
        WorkerUpdate::Alpha(p.alpha)
    } else if idx == 1 {
        WorkerUpdate::Pump(p.pump)
    } else if idx == 2 {
        WorkerUpdate::Linear(p.linear)
    } else if idx == 3 {
        WorkerUpdate::RecordStep(p.record_step)
    } else if idx == 4 {
        WorkerUpdate::SimuStep(p.simu_step)
    } else {
        WorkerUpdate::Couple(p.couple)
    }
}

/// Whether the control of this parameter has a slider with adjustable bounds (the
/// integer record step and the step length have none).
pub open spec fn has_slider(update: WorkerUpdate) -> bool {
    !(update is RecordStep || update is SimuStep)
}

/// The value carried by an update of a parameter that has a slider.
pub open spec fn slider_value(update: WorkerUpdate) -> u64 {
    match update {
        WorkerUpdate::Alpha(v) => v,
        WorkerUpdate::Pump(v) => v,
        WorkerUpdate::Linear(v) => v,
        WorkerUpdate::Couple(v) => v,
        _ => 0,
    }
}

/// The parameter shown at position `idx` of the panel, read from `p`, for every position
/// but the last (the coupling coefficient).
pub fn from_property(p: &WorkerProperty, idx: usize) -> (update: WorkerUpdate)
    requires
        idx < LISTED_COUNT,
    ensures
        update == property_at(*p, idx as int),
{
    match idx {
        0 => WorkerUpdate::Alpha(p.alpha),
        1 => WorkerUpdate::Pump(p.pump),
        2 => WorkerUpdate::Linear(p.linear),
        3 => WorkerUpdate::RecordStep(p.record_step),
        _ => WorkerUpdate::SimuStep(p.simu_step),
    }
}

/// The parameters of `p` that [`from_property`] reads, in panel order.
pub fn from_property_array(p: WorkerProperty) -> (all: [WorkerUpdate; 5])
    ensures
        forall|i: int| 0 <= i < LISTED_COUNT ==> #[trigger] all[i] == property_at(p, i),
{
    [
        from_property(&p, 0),
        from_property(&p, 1),
        from_property(&p, 2),
        from_property(&p, 3),
        from_property(&p, 4),
    ]
}

/// Position on the panel of the control for the parameter that `p` changes.
pub fn map_property_to_idx(p: WorkerUpdate) -> (idx: usize)
    ensures
        idx == property_index(p),
        idx < PROPERTY_COUNT,
{
    match p {
        WorkerUpdate::Alpha(_) => 0,
        WorkerUpdate::Pump(_) => 1,
        WorkerUpdate::Linear(_) => 2,
        WorkerUpdate::RecordStep(_) => 3,
        WorkerUpdate::SimuStep(_) => 4,
        WorkerUpdate::Couple(_) => 5,
    }
}

/// The value of an update to a parameter that has a slider; used to move a slider bound.
pub fn extract_property_value(p: WorkerUpdate) -> (value: u64)
    requires
        has_slider(p),
    ensures
        value == slider_value(p),
        p matches WorkerUpdate::Alpha(v) ==> value == v,
        p matches WorkerUpdate::Pump(v) ==> value == v,
        p matches WorkerUpdate::Linear(v) ==> value == v,
        p matches WorkerUpdate::Couple(v) ==> value == v,
{
    match p {
        WorkerUpdate::Alpha(v) => v,
        WorkerUpdate::Pump(v) => v,
        WorkerUpdate::Linear(v) => v,
        WorkerUpdate::Couple(v) => v,
        WorkerUpdate::RecordStep(_) => 0,
        WorkerUpdate::SimuStep(_) => 0,
    }
}

} // verus!
