//! The simulation parameters and how a change of one of them is recorded.
//!
//! Real-valued parameters are carried as the IEEE-754 bit pattern of their `f64` value
//! (`f64::to_bits`); the library stores and hands them back without interpreting them.
use vstd::prelude::*;

verus! {

/// A change of one simulation parameter.
#[derive(Debug, Clone, Copy, PartialEq, Eq, Structural)]
pub enum WorkerUpdate {
    /// Detuning, as an `f64` bit pattern.
    Alpha(u64),
    /// Pump amplitude, as an `f64` bit pattern.
    Pump(u64),
    /// Second-order dispersion, as an `f64` bit pattern.
    Linear(u64),
    /// Number of integration steps between two recorded frames.
    RecordStep(u32),
    /// Integration step length, as an `f64` bit pattern.
    SimuStep(u64),
    /// Coupling coefficient between the two resonators, as an `f64` bit pattern.
    Couple(u64),
}

/// The current value of every simulation parameter.
#[derive(Debug, Clone, Copy, PartialEq, Eq, Structural)]
pub struct WorkerProperty {
    pub alpha: u64,
    pub pump: u64,
    pub linear: u64,
    pub record_step: u32,
    pub simu_step: u64,
    pub couple: u64,
}

/// What the numerical core has to rebuild after a parameter changed.
#[derive(Debug, Clone, Copy, PartialEq, Eq, Structural)]
pub enum CoreRefresh {
    /// Rebuild the linear operator of both resonators from detuning and dispersion.
    LinearOperator { alpha: u64, linear: u64 },
    /// Replace the constant (pump) term of both resonators.
    PumpConstant(u64),
    /// Replace the integration step length of both resonators.
    StepDistance(u64),
    /// Replace the coupling coefficient between the resonators.
    CouplingCoefficient(u64),
    /// Nothing in the core depends on the changed parameter.
    Unchanged,
}

impl WorkerProperty {
    /// The parameters after `update` has been recorded: the field that `update` names
    /// takes its value, every other field keeps its own.
    pub open spec fn updated(self, update: WorkerUpdate) -> WorkerProperty {
        match update {
            WorkerUpdate::Alpha(v) => WorkerProperty { alpha: v, ..self },
            WorkerUpdate::Pump(v) => WorkerProperty { pump: v, ..self },
            WorkerUpdate::Linear(v) => WorkerProperty { linear: v, ..self },
            WorkerUpdate::RecordStep(v) => WorkerProperty { record_step: v, ..self },
            WorkerUpdate::SimuStep(v) => WorkerProperty { simu_step: v, ..self },
            WorkerUpdate::Couple(v) => WorkerProperty { couple: v, ..self },
        }
    }

    /// What the core must rebuild once `update` is recorded, `self` being the parameters
    /// after the update.
    pub open spec fn refresh_for(self, update: WorkerUpdate) -> CoreRefresh {
        match update {
            WorkerUpdate::Alpha(_) | WorkerUpdate::Linear(_) => CoreRefresh::LinearOperator {
                alpha: self.alpha,
                linear: self.linear,
            },
            WorkerUpdate::Pump(v) => CoreRefresh::PumpConstant(v),
            WorkerUpdate::RecordStep(_) => CoreRefresh::Unchanged,
            WorkerUpdate::SimuStep(v) => CoreRefresh::StepDistance(v),
            WorkerUpdate::Couple(v) => CoreRefresh::CouplingCoefficient(v),
        }
    }

    /// The parameters a simulation starts with: detuning -5.0, pump 3.94, dispersion
    /// -0.0444, 100 steps per recorded frame, step length 8e-4 and coupling 1.0.
    pub fn initial() -> (p: WorkerProperty)
        ensures
            p.alpha == 0xc014_0000_0000_0000u64,
            p.pump == 0x400f_851e_b851_eb85u64,
            p.linear == 0xbfa6_bb98_c7e2_8241u64,
            p.record_step == 100,
            p.simu_step == 0x3f4a_36e2_eb1c_432du64,
            p.couple == 0x3ff0_0000_0000_0000u64,
    {
        WorkerProperty {
            alpha: 0xc014_0000_0000_0000,
            pump: 0x400f_851e_b851_eb85,
            linear: 0xbfa6_bb98_c7e2_8241,
            record_step: 100,
            simu_step: 0x3f4a_36e2_eb1c_432d,
            couple: 0x3ff0_0000_0000_0000,
        }
    }

    /// Records `update` and says what the numerical core has to rebuild for it.
    pub fn set_property(&mut self, update: WorkerUpdate) -> (refresh: CoreRefresh)
        ensures
            *final(self) == old(self).updated(update),
            refresh == final(self).refresh_for(update),
            update matches WorkerUpdate::Alpha(v) ==> refresh == (CoreRefresh::LinearOperator {
                alpha: v,
                linear: old(self).linear,
            }),
            update matches WorkerUpdate::Linear(v) ==> refresh == (CoreRefresh::LinearOperator {
                alpha: old(self).alpha,
                linear: v,
            }),
    {
        match update {
            WorkerUpdate::Alpha(v) => {
                self.alpha = v;
                CoreRefresh::LinearOperator { alpha: self.alpha, linear: self.linear }
            },
            WorkerUpdate::Pump(v) => {
                self.pump = v;
                CoreRefresh::PumpConstant(v)
            },
            WorkerUpdate::Linear(v) => {
                self.linear = v;
                CoreRefresh::LinearOperator { alpha: self.alpha, linear: self.linear }
            },
            WorkerUpdate::RecordStep(v) => {
                self.record_step = v;
                CoreRefresh::Unchanged
            },
            WorkerUpdate::SimuStep(v) => {
                self.simu_step = v;
                CoreRefresh::StepDistance(v)
            },
            WorkerUpdate::Couple(v) => {
                self.couple = v;
                CoreRefresh::CouplingCoefficient(v)
            },
        }
    }
}

} // verus!
