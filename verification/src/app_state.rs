//! The editing-session state the user interface drives: the parameter
//! list, the command history, and the preview settings.
//!
//! Preview magnitudes are carried in thousandths of a unit, like every
//! fractional value in this crate; the interface converts at the boundary.
use vstd::prelude::*;
use vstd::string::StringExecFns;
use crate::history::HistoryManager;
use crate::parameter::Parameter;
use crate::parameter::ParameterRange;
use crate::parameter::ParameterValue;

verus! {

/// Which editing surface is active.
#[derive(Debug, PartialEq, Eq, Structural)]
pub enum EditMode {
    Simple,
    Advanced,
}

/// Host-side session state; mutated only by the single interface control
/// flow.
pub struct AppState {
    pub parameters: Vec<Parameter>,
    pub history: HistoryManager,
    pub active_mode: EditMode,
    /// Preview grain strength, in thousandths.
    pub grain_amount: i64,
    /// Preview grain size, in thousandths.
    pub grain_size: i64,
    /// Preview noise seed, in thousandths.
    pub preview_seed: i64,
}

impl AppState {
    /// The fresh session state: the two preview parameters, each starting
    /// at its default with its declared range, empty history, simple mode,
    /// and the preview values mirroring the parameter defaults.
    pub open spec fn fresh_session(r: AppState) -> bool {
        &&& r.history.wf()
        &&& r.history.undo_seq().len() == 0
        &&& r.history.redo_seq().len() == 0
        &&& r.active_mode == EditMode::Simple
        &&& r.grain_amount == 500
        &&& r.grain_size == 1000
        &&& r.preview_seed == 0
        &&& r.parameters@.len() == 2
        &&& r.parameters@[0].id@ == "grain_amount"@
        &&& r.parameters@[0].value == ParameterValue::Float(500)
        &&& r.parameters@[0].default_value == ParameterValue::Float(500)
        &&& r.parameters@[0].range == (ParameterRange::Float { min: 0, max: 1000 })
        &&& r.parameters@[1].id@ == "grain_size"@
        &&& r.parameters@[1].value == ParameterValue::Float(1000)
        &&& r.parameters@[1].default_value == ParameterValue::Float(1000)
        &&& r.parameters@[1].range == (ParameterRange::Float { min: 100, max: 5000 })
    }

    /// A fresh session: the two preview parameters registered, empty
    /// history, simple mode, and the preview defaults of half-strength
    /// grain at unit size.
    pub fn new_session() -> (r: Self)
        ensures
            Self::fresh_session(r),
    {
        let mut parameters: Vec<Parameter> = Vec::new();
        parameters.push(
            Parameter::new_float(
                "grain_amount",
                "Grain Amount",
                "Controls the visual intensity of the grain structure (RMS).",
                500,
                0,
                1000,
            ),
        );
        parameters.push(
            Parameter::new_float(
                "grain_size",
                "Grain Size",
                "Average diameter of silver halide crystals.",
                1000,
                100,
                5000,
            ),
        );
        AppState {
            parameters,
            history: HistoryManager::default(),
            active_mode: EditMode::Simple,
            grain_amount: 500,
            grain_size: 1000,
            preview_seed: 0,
        }
    }
}

impl Default for AppState {
    fn default() -> (r: Self)
        ensures
            AppState::fresh_session(r),
    {
        AppState::new_session()
    }
}

} // verus!
