use vl6180x::registers::{
    AlsAnalogueGain, AlsIntegrationPeriod, AlsIntermeasurementPeriod, AlsResultValue, AlsStart,
    AlsThresholds, FreshOutOfReset, GroupedParameterHold, HistoryCtrl, InterruptClear,
    InterruptConfigGpio, ModeGpio0, ModeGpio1, ModelId, ModelRevision, ModuleRevision,
    ModuleTimestamp, RangeCheckEnables, RangeCrosstalkCompensationRate, RangeCrosstalkValidHeight,
    RangeEarlyConvergenceEstimate, RangeIntermeasurementPeriod, RangeMaxConvergenceTime,
    RangeResultConvergenceTime, RangeResultStatus, RangeResultValue, RangeStart, RangeThresholds,
    RangeVhvRecalibrate, RangeVhvRepeatRate, ResultAlsStatus, ResultInterruptStatusGpio,
};
use vl6180x::{
    AlsErrorCode, AlsGain, DateTime, Duration, FromByteArray, GpioFunction, GpioPolarity,
    InterruptMode, Length, Luminance, RangeErrorCode, Register, RegisterError, Span, ToByteArray,
};

#[test]
fn start_modes_encode_and_decode() {
    assert_eq!(RangeStart::SingleShot.to_bytes(), Ok([0x01]));
    assert_eq!(RangeStart::Continuous.to_bytes(), Ok([0x03]));
    assert_eq!(RangeStart::from_bytes([0x01]), Ok(RangeStart::SingleShot));
    assert_eq!(RangeStart::from_bytes([0x03]), Ok(RangeStart::Continuous));
    assert_eq!(AlsStart::Continuous.to_bytes(), Ok([0x03]));
    assert_eq!(AlsStart::from_bytes([0x03]), Ok(AlsStart::Continuous));
}

#[test]
fn unknown_start_byte_falls_back_to_single_shot() {
    for b in [0x00u8, 0x02, 0x04, 0x7F, 0xFF] {
        assert_eq!(RangeStart::from_bytes([b]), Ok(RangeStart::SingleShot));
        assert_eq!(AlsStart::from_bytes([b]), Ok(AlsStart::SingleShot));
    }
}

#[test]
fn als_period_boundaries() {
    let enc = |ms: u64| {
        AlsIntermeasurementPeriod { period: Duration { milliseconds: ms } }.to_bytes()
    };
    assert_eq!(enc(10), Ok([0x00]));
    assert_eq!(enc(2560), Ok([0xFF]));
    assert_eq!(enc(9), Err(RegisterError::DurationTooShort));
    assert_eq!(enc(0), Err(RegisterError::DurationTooShort));
    assert_eq!(enc(2561), Err(RegisterError::DurationTooLong));
}

#[test]
fn als_period_rounds_half_up() {
    let enc = |ms: u64| {
        AlsIntermeasurementPeriod { period: Duration { milliseconds: ms } }.to_bytes()
    };
    assert_eq!(enc(14), Ok([0x00]));
    assert_eq!(enc(15), Ok([0x01]));
    assert_eq!(enc(100), Ok([9]));
    assert_eq!(enc(2555), Ok([0xFF]));
}

#[test]
fn als_period_decodes_exactly() {
    let p = AlsIntermeasurementPeriod::from_bytes([0x00]).unwrap();
    assert_eq!(p.period, Duration { milliseconds: 10 });
    let p = AlsIntermeasurementPeriod::from_bytes([0xFF]).unwrap();
    assert_eq!(p.period, Duration { milliseconds: 2560 });
}

#[test]
fn range_period_boundaries() {
    let enc = |ms: i64| {
        RangeIntermeasurementPeriod { period: Span { milliseconds: ms } }.to_bytes()
    };
    assert_eq!(enc(10), Ok([0x00]));
    assert_eq!(enc(2560), Ok([0xFF]));
    assert_eq!(enc(9), Err(RegisterError::DurationTooShort));
    assert_eq!(enc(-50), Err(RegisterError::DurationTooShort));
    assert_eq!(enc(2561), Err(RegisterError::DurationTooLong));
    assert_eq!(enc(100_000), Err(RegisterError::DurationTooLong));
}

#[test]
fn range_period_rounds_half_up() {
    let enc = |ms: i64| {
        RangeIntermeasurementPeriod { period: Span { milliseconds: ms } }.to_bytes()
    };
    assert_eq!(enc(14), Ok([0]));
    assert_eq!(enc(15), Ok([1]));
    assert_eq!(enc(29), Ok([2]));
    assert_eq!(enc(2555), Ok([255]));
    let p = RangeIntermeasurementPeriod::from_bytes([4]).unwrap();
    assert_eq!(p.period, Span { milliseconds: 50 });
}

#[test]
fn max_convergence_clamps() {
    let enc = |ms: i64| RangeMaxConvergenceTime { time: Span { milliseconds: ms } }.to_bytes();
    assert_eq!(enc(0), Ok([1]));
    assert_eq!(enc(30), Ok([30]));
    assert_eq!(enc(64), Ok([63]));
    let t = RangeMaxConvergenceTime::from_bytes([50]).unwrap();
    assert_eq!(t.time, Span { milliseconds: 50 });
}

#[test]
fn integration_period_range() {
    let enc = |ms: u64| AlsIntegrationPeriod { period: Duration { milliseconds: ms } }.to_bytes();
    assert_eq!(enc(0), Err(RegisterError::DurationTooShort));
    assert_eq!(enc(1), Ok([1]));
    assert_eq!(enc(100), Ok([100]));
    assert_eq!(enc(255), Ok([255]));
    assert_eq!(enc(256), Err(RegisterError::DurationTooLong));
    let p = AlsIntegrationPeriod::from_bytes([100]).unwrap();
    assert_eq!(p.period, Duration { milliseconds: 100 });
}

#[test]
fn thresholds_are_big_endian() {
    let t = RangeThresholds {
        high: Length { millimeters: 0x1234 },
        low: Length { millimeters: 0x0056 },
    };
    assert_eq!(t.to_bytes(), Ok([0x12, 0x34, 0x00, 0x56]));
    assert_eq!(RangeThresholds::from_bytes([0x12, 0x34, 0x00, 0x56]), Ok(t));
    let a = AlsThresholds { high: Luminance { lux: 1000 }, low: Luminance { lux: 1 } };
    assert_eq!(a.to_bytes(), Ok([0x03, 0xE8, 0x00, 0x01]));
    assert_eq!(AlsThresholds::from_bytes([0x03, 0xE8, 0x00, 0x01]), Ok(a));
}

#[test]
fn magnitudes_saturate() {
    let t = RangeThresholds {
        high: Length { millimeters: 70_000 },
        low: Length { millimeters: 0 },
    };
    assert_eq!(t.to_bytes(), Ok([0xFF, 0xFF, 0x00, 0x00]));
    let a = AlsThresholds { high: Luminance { lux: 65_536 }, low: Luminance { lux: 65_535 } };
    assert_eq!(a.to_bytes(), Ok([0xFF, 0xFF, 0xFF, 0xFF]));
    let h = RangeCrosstalkValidHeight { height: Length { millimeters: 300 } };
    assert_eq!(h.to_bytes(), Ok([0xFF]));
    let h = RangeCrosstalkValidHeight { height: Length { millimeters: 20 } };
    assert_eq!(h.to_bytes(), Ok([20]));
}

#[test]
fn fixed_point_rates_round_trip() {
    let r = RangeCrosstalkCompensationRate { rate: 0x0180 };
    assert_eq!(r.to_bytes(), Ok([0x01, 0x80]));
    assert_eq!(RangeCrosstalkCompensationRate::from_bytes([0x01, 0x80]), Ok(r));
    let e = RangeEarlyConvergenceEstimate { estimate: 0xABCD };
    assert_eq!(e.to_bytes(), Ok([0xAB, 0xCD]));
    assert_eq!(RangeEarlyConvergenceEstimate::from_bytes([0xAB, 0xCD]), Ok(e));
}

#[test]
fn raw_bytes_pass_through() {
    assert_eq!(RangeVhvRecalibrate { recalibrate: 0x5A }.to_bytes(), Ok([0x5A]));
    assert_eq!(RangeVhvRecalibrate::from_bytes([0x5A]), Ok(RangeVhvRecalibrate { recalibrate: 0x5A }));
    assert_eq!(RangeVhvRepeatRate { rate: 0xFF }.to_bytes(), Ok([0xFF]));
    assert_eq!(RangeVhvRepeatRate::from_bytes([0x07]), Ok(RangeVhvRepeatRate { rate: 0x07 }));
}

#[test]
fn flag_registers_use_fixed_bits() {
    let c = RangeCheckEnables {
        enable_snr_check: true,
        enable_range_check: false,
        enable_early_convergence_check: true,
    };
    assert_eq!(c.to_bytes(), Ok([0x05]));
    assert_eq!(RangeCheckEnables::from_bytes([0x05]), Ok(c));
    let h = HistoryCtrl { enable: false, clear: true };
    assert_eq!(h.to_bytes(), Ok([0x02]));
    assert_eq!(HistoryCtrl::from_bytes([0xFE]), Ok(HistoryCtrl { enable: false, clear: true }));
    let i = InterruptClear { clear_range: true, clear_als: true, clear_error: true };
    assert_eq!(i.to_bytes(), Ok([0x07]));
    assert_eq!(InterruptClear::from_bytes([0x02]).unwrap().clear_als, true);
    assert_eq!(FreshOutOfReset { fresh: true }.to_bytes(), Ok([0x01]));
    assert_eq!(FreshOutOfReset::from_bytes([0x00]), Ok(FreshOutOfReset { fresh: false }));
    assert_eq!(GroupedParameterHold { hold: false }.to_bytes(), Ok([0x00]));
    assert_eq!(GroupedParameterHold::from_bytes([0x01]), Ok(GroupedParameterHold { hold: true }));
}

#[test]
fn gpio_modes() {
    let m = ModeGpio0 { function: GpioFunction::InterruptOutput, polarity: GpioPolarity::ActiveHigh };
    assert_eq!(m.to_bytes(), Ok([0x11]));
    assert_eq!(ModeGpio0::from_bytes([0x11]), Ok(m));
    let m = ModeGpio1 { function: GpioFunction::InterruptOutput, polarity: GpioPolarity::ActiveLow };
    assert_eq!(m.to_bytes(), Ok([0x10]));
    assert_eq!(
        ModeGpio1::from_bytes([0x01]),
        Ok(ModeGpio1 { function: GpioFunction::Off, polarity: GpioPolarity::ActiveHigh })
    );
}

#[test]
fn interrupt_config_packs_two_modes() {
    let c = InterruptConfigGpio {
        range_interrupt: InterruptMode::NewSampleReady,
        als_interrupt: InterruptMode::LevelLow,
    };
    assert_eq!(c.to_bytes(), Ok([0x21]));
    assert_eq!(InterruptConfigGpio::from_bytes([0x21]), Ok(c));
    let undefined = InterruptConfigGpio::from_bytes([0x3F]).unwrap();
    assert_eq!(undefined.range_interrupt, InterruptMode::Disabled);
    assert_eq!(undefined.als_interrupt, InterruptMode::Disabled);
}

#[test]
fn analogue_gain_uses_low_bits() {
    assert_eq!(AlsAnalogueGain { gain: AlsGain::Gain40 }.to_bytes(), Ok([7]));
    assert_eq!(AlsAnalogueGain::from_bytes([0x46]), Ok(AlsAnalogueGain { gain: AlsGain::Gain1 }));
}

#[test]
fn round_trip_each_pattern() {
    for b in 0..=255u8 {
        let s = RangeCheckEnables::from_bytes([b]).unwrap();
        assert_eq!(RangeCheckEnables::from_bytes(s.to_bytes().unwrap()), Ok(s));
        let g = AlsAnalogueGain::from_bytes([b]).unwrap();
        assert_eq!(AlsAnalogueGain::from_bytes(g.to_bytes().unwrap()), Ok(g));
        let p = AlsIntermeasurementPeriod::from_bytes([b]).unwrap();
        assert_eq!(AlsIntermeasurementPeriod::from_bytes(p.to_bytes().unwrap()), Ok(p));
        let q = RangeIntermeasurementPeriod::from_bytes([b]).unwrap();
        assert_eq!(RangeIntermeasurementPeriod::from_bytes(q.to_bytes().unwrap()), Ok(q));
        let h = RangeCrosstalkValidHeight::from_bytes([b]).unwrap();
        assert_eq!(RangeCrosstalkValidHeight::from_bytes(h.to_bytes().unwrap()), Ok(h));
    }
    for v in [0u32, 1, 255, 256, 65_535] {
        let t = RangeThresholds { high: Length { millimeters: v }, low: Length { millimeters: 65_535 - v } };
        assert_eq!(RangeThresholds::from_bytes(t.to_bytes().unwrap()), Ok(t));
    }
    let modes = [RangeStart::SingleShot, RangeStart::Continuous];
    for m in modes {
        assert_eq!(RangeStart::from_bytes(m.to_bytes().unwrap()), Ok(m));
    }
}

#[test]
fn status_nibbles_nine_and_ten_are_rejected() {
    assert_eq!(RangeResultStatus::from_bytes([0x90]), Err(RegisterError::InvalidEnumValue(9)));
    assert_eq!(RangeResultStatus::from_bytes([0xA1]), Err(RegisterError::InvalidEnumValue(10)));
    assert_eq!(RangeErrorCode::try_from(9), Err(RegisterError::InvalidEnumValue(9)));
    assert_eq!(RangeErrorCode::try_from(10), Err(RegisterError::InvalidEnumValue(10)));
}

#[test]
fn range_status_decodes() {
    assert_eq!(
        RangeResultStatus::from_bytes([0xB1]),
        Ok(RangeResultStatus { error_code: RangeErrorCode::SignalToNoiseRatio, device_ready: true })
    );
    assert_eq!(
        RangeResultStatus::from_bytes([0x00]),
        Ok(RangeResultStatus { error_code: RangeErrorCode::NoError, device_ready: false })
    );
}

#[test]
fn als_status_decodes() {
    assert_eq!(
        ResultAlsStatus::from_bytes([0x21]),
        Ok(ResultAlsStatus { error_code: AlsErrorCode::Underflow, device_ready: true })
    );
    assert_eq!(ResultAlsStatus::from_bytes([0x30]), Err(RegisterError::InvalidEnumValue(3)));
}

#[test]
fn result_values_decode() {
    assert_eq!(
        RangeResultValue::from_bytes([42]),
        Ok(RangeResultValue { distance: Length { millimeters: 42 } })
    );
    assert_eq!(AlsResultValue::from_bytes([0x01, 0x02]), Ok(AlsResultValue { raw_count: 0x0102 }));
    assert_eq!(
        RangeResultConvergenceTime::from_bytes([0x00, 0x01, 0x00, 0x02]),
        Ok(RangeResultConvergenceTime { time: Span { milliseconds: 65_538 } })
    );
    assert_eq!(
        RangeResultConvergenceTime::from_bytes([0xFF, 0xFF, 0xFF, 0xFF]),
        Ok(RangeResultConvergenceTime { time: Span { milliseconds: 4_294_967_295 } })
    );
    let s = ResultInterruptStatusGpio::from_bytes([0x14]).unwrap();
    assert!(s.range_interrupt && !s.als_interrupt && s.error_interrupt);
}

#[test]
fn identification_decodes() {
    assert_eq!(ModelId::from_bytes([0xB4]), Ok(ModelId::VL6180X));
    assert_eq!(ModelId::from_bytes([0xB3]), Ok(ModelId::Unknown(0xB3)));
    assert_eq!(ModelRevision::from_bytes([1, 3]), Ok(ModelRevision { major: 1, minor: 3 }));
    assert_eq!(ModuleRevision::from_bytes([1, 2]), Ok(ModuleRevision { major: 1, minor: 2 }));
}

#[test]
fn timestamp_with_month_fifteen_is_invalid() {
    assert_eq!(
        ModuleTimestamp::from_bytes([0x0F, 0x08, 0x1B, 0xBC]),
        Err(RegisterError::InvalidTimestamp)
    );
}

#[test]
fn timestamp_decodes_midday() {
    // 2013, June, day 15; 21600 ticks of 2 s = 43200 s = 12:00:00.
    let t = ModuleTimestamp::from_bytes([0x36, 15 << 3, 0x54, 0x60]).unwrap();
    assert_eq!(
        t.timestamp,
        DateTime { year: 2013, month: 6, day: 15, hour: 12, minute: 0, second: 0 }
    );
}

#[test]
fn timestamp_of_a_full_day_of_ticks_is_invalid() {
    // 43200 ticks of 2 s are 86400 s, hour 24.
    assert_eq!(
        ModuleTimestamp::from_bytes([0x36, 15 << 3, 0xA8, 0xC0]),
        Err(RegisterError::InvalidTimestamp)
    );
}

#[test]
fn timestamp_checks_the_calendar() {
    // 2012 is a leap year, 2011 is not.
    let t = ModuleTimestamp::from_bytes([0x22, 29 << 3, 0x00, 0x01]).unwrap();
    assert_eq!(t.timestamp, DateTime { year: 2012, month: 2, day: 29, hour: 0, minute: 0, second: 2 });
    assert_eq!(ModuleTimestamp::from_bytes([0x12, 29 << 3, 0, 0]), Err(RegisterError::InvalidTimestamp));
    assert_eq!(ModuleTimestamp::from_bytes([0x14, 31 << 3, 0, 0]), Err(RegisterError::InvalidTimestamp));
    assert_eq!(ModuleTimestamp::from_bytes([0x10, 1 << 3, 0, 0]), Err(RegisterError::InvalidTimestamp));
    assert_eq!(ModuleTimestamp::from_bytes([0x11, 0, 0, 0]), Err(RegisterError::InvalidTimestamp));
    let t = ModuleTimestamp::from_bytes([0xFC, (31 << 3) | 0x07, 0xA8, 0xBF]).unwrap();
    assert_eq!(t.timestamp, DateTime { year: 2025, month: 12, day: 31, hour: 23, minute: 59, second: 58 });
}

#[test]
fn register_addresses() {
    assert_eq!(ModelId::id(), 0x0000);
    assert_eq!(ModuleTimestamp::id(), 0x0006);
    assert_eq!(ModeGpio0::id(), 0x0010);
    assert_eq!(InterruptConfigGpio::id(), 0x0014);
    assert_eq!(RangeStart::id(), 0x0018);
    assert_eq!(RangeIntermeasurementPeriod::id(), 0x001B);
    assert_eq!(RangeCheckEnables::id(), 0x002D);
    assert_eq!(AlsStart::id(), 0x0038);
    assert_eq!(AlsAnalogueGain::id(), 0x003F);
    assert_eq!(RangeResultStatus::id(), 0x004D);
    assert_eq!(AlsResultValue::id(), 0x0050);
    assert_eq!(RangeResultValue::id(), 0x0062);
    assert_eq!(RangeResultConvergenceTime::id(), 0x0063);
}
