//! Register definitions, grouped by function: identification, system
//! control, ranging, ambient light and results.
mod range;

pub use range::{
    RangeCheckEnables, RangeCrosstalkCompensationRate, RangeCrosstalkValidHeight,
    RangeEarlyConvergenceEstimate, RangeIntermeasurementPeriod, RangeMaxConvergenceTime,
    RangeStart, RangeThresholds, RangeVhvRecalibrate, RangeVhvRepeatRate,
};
mod als;

pub use als::{
    AlsAnalogueGain, AlsIntegrationPeriod, AlsIntermeasurementPeriod, AlsStart, AlsThresholds,
};
mod system;

pub use system::{
    FreshOutOfReset, GroupedParameterHold, HistoryCtrl, InterruptClear, InterruptConfigGpio,
    ModeGpio0, ModeGpio1,
};
mod identification;
mod result;

pub use identification::{ModelId, ModelRevision, ModuleRevision, ModuleTimestamp};
pub use result::{
    AlsResultValue, RangeResultConvergenceTime, RangeResultStatus, RangeResultValue,
    ResultAlsStatus, ResultInterruptStatusGpio,
};
