//! The adjustable slider bounds of the control panel.
use crate::gui::message::Range;
use crate::gui::{
    extract_property_value, has_slider, map_property_to_idx, property_index, slider_value,
    PROPERTY_COUNT,
};
use crate::property::WorkerUpdate;
use vstd::prelude::*;

verus! {

/// The slider bounds of every control, in panel order; `None` for a control without a
/// slider. Real values are `f64` bit patterns.
pub struct Panel {
    ranges: Vec<Option<Range<u64>>>,
}

impl View for Panel {
    type V = Seq<Option<Range<u64>>>;

    closed spec fn view(&self) -> Seq<Option<Range<u64>>> {
        self.ranges@
    }
}

/// The slider bounds after a bound of the control that `update` belongs to was set to the
/// value of `update` (the upper one if `upper`); unchanged where that control has no slider.
pub open spec fn with_bound(
    ranges: Seq<Option<Range<u64>>>,
    update: WorkerUpdate,
    upper: bool,
) -> Seq<Option<Range<u64>>> {
    let i = property_index(update);
    match ranges[i] {
        Some(r) => ranges.update(
            i,
            Some(
                if upper {
                    Range { lower: r.lower, higher: slider_value(update) }
                } else {
                    Range { lower: slider_value(update), higher: r.higher }
                },
            ),
        ),
        None => ranges,
    }
}

impl Panel {
    /// One entry per control, and none for the two controls that have no slider.
    pub open spec fn well_formed(&self) -> bool {
        &&& self@.len() == PROPERTY_COUNT
        &&& self@[3] is None
        &&& self@[4] is None
    }

    /// A panel whose sliders have the given bounds: detuning, pump, dispersion and
    /// coupling have sliders; record step and step length have none.
    pub fn new(
        alpha: Range<u64>,
        pump: Range<u64>,
        linear: Range<u64>,
        couple: Range<u64>,
    ) -> (panel: Panel)
        ensures
            panel.well_formed(),
            panel@ == seq![Some(alpha), Some(pump), Some(linear), None, None, Some(couple)],
    {
        let mut ranges: Vec<Option<Range<u64>>> = Vec::new();
        ranges.push(Some(alpha));
        ranges.push(Some(pump));
        ranges.push(Some(linear));
        ranges.push(None);
        ranges.push(None);
        ranges.push(Some(couple));
        let panel = Panel { ranges };
        assert(panel@ =~= seq![Some(alpha), Some(pump), Some(linear), None, None, Some(couple)]);
        panel
    }

    /// The slider bounds of the control at position `idx`.
    pub fn range(&self, idx: usize) -> (r: Option<Range<u64>>)
        requires
            self.well_formed(),
            idx < PROPERTY_COUNT,
        ensures
            r == self@[idx as int],
    {
        match &self.ranges[idx] {
            Some(r) => Some(*r),
            None => None,
        }
    }

    /// Moves a bound of the slider that `update` belongs to onto the value of `update`:
    /// the upper bound if `upper`, else the lower one. Gives `false`, and changes nothing,
    /// when that control has no slider.
    pub fn set_bound(&mut self, update: WorkerUpdate, upper: bool) -> (changed: bool)
        requires
            old(self).well_formed(),
        ensures
            final(self).well_formed(),
            final(self)@ == with_bound(old(self)@, update, upper),
            changed == (old(self)@[property_index(update)] is Some),
    {
        let idx = map_property_to_idx(update);
        match self.ranges[idx] {
            Some(r) => {
                assert(has_slider(update));
                let value = extract_property_value(update);
                let bounds = if upper {
                    Range { lower: r.lower, higher: value }
                } else {
                    Range { lower: value, higher: r.higher }
                };
                self.ranges.set(idx, Some(bounds));
                true
            },
            None => false,
        }
    }
}

} // verus!
