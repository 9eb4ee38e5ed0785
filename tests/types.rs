use vl6180x::{
    AlsErrorCode, AlsGain, GpioFunction, GpioPolarity, InterruptMode, RangeErrorCode,
    RegisterError,
};

#[test]
fn als_error_codes() {
    assert_eq!(AlsErrorCode::try_from(0), Ok(AlsErrorCode::NoError));
    assert_eq!(AlsErrorCode::try_from(1), Ok(AlsErrorCode::Overflow));
    assert_eq!(AlsErrorCode::try_from(2), Ok(AlsErrorCode::Underflow));
    assert_eq!(AlsErrorCode::try_from(3), Err(RegisterError::InvalidEnumValue(3)));
}

#[test]
fn range_error_codes() {
    assert_eq!(RangeErrorCode::try_from(0), Ok(RangeErrorCode::NoError));
    assert_eq!(RangeErrorCode::try_from(8), Ok(RangeErrorCode::NoTargetIgnore));
    assert_eq!(RangeErrorCode::try_from(11), Ok(RangeErrorCode::SignalToNoiseRatio));
    assert_eq!(RangeErrorCode::try_from(15), Ok(RangeErrorCode::RangingOverflow));
    assert_eq!(RangeErrorCode::try_from(16), Err(RegisterError::InvalidEnumValue(16)));
    assert!(RangeErrorCode::NoError.is_valid());
    assert!(!RangeErrorCode::Pll1Lock.is_valid());
}

#[test]
fn gain_and_modes_mask_their_bits() {
    assert_eq!(AlsGain::try_from(0x0E), Ok(AlsGain::Gain1));
    assert_eq!(AlsGain::try_from(7), Ok(AlsGain::Gain40));
    assert_eq!(AlsGain::Gain2_5.bits(), 3);
    assert_eq!(GpioPolarity::try_from(3), Ok(GpioPolarity::ActiveHigh));
    assert_eq!(GpioFunction::try_from(2), Ok(GpioFunction::Off));
    assert_eq!(InterruptMode::try_from(0x0C), Ok(InterruptMode::NewSampleReady));
    assert_eq!(InterruptMode::try_from(5), Err(RegisterError::InvalidEnumValue(5)));
    assert_eq!(InterruptMode::try_from(0x0F), Err(RegisterError::InvalidEnumValue(0x0F)));
    assert_eq!(InterruptMode::OutOfWindow.bits(), 3);
}

#[test]
fn reset_defaults() {
    assert_eq!(AlsGain::default(), AlsGain::Gain1);
    assert_eq!(GpioPolarity::default(), GpioPolarity::ActiveLow);
    assert_eq!(GpioFunction::default(), GpioFunction::Off);
    assert_eq!(InterruptMode::default(), InterruptMode::Disabled);
}

#[test]
fn register_error_messages() {
    assert_eq!(RegisterError::InvalidEnumValue(0x0A).to_string(), "Invalid enum value: 0x0A");
    assert_eq!(RegisterError::InvalidEnumValue(0xF3).to_string(), "Invalid enum value: 0xF3");
    assert_eq!(RegisterError::DurationTooShort.to_string(), "Duration is too short");
    assert_eq!(RegisterError::DurationTooLong.to_string(), "Duration is too long");
    assert_eq!(RegisterError::InvalidTimestamp.to_string(), "Invalid timestamp");
}
