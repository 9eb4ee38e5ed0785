use vl6180x::device::Error;
use vl6180x::registers::{
    AlsIntegrationPeriod, ModelId, RangeIntermeasurementPeriod, RangeResultStatus, RangeStart,
};
use vl6180x::{read_outcome, write_outcome, Device, Duration, Span, DEFAULT_ADDRESS};

/// A transport that records every frame it is handed, and fails when it
/// reaches the frame at `fail_at`, if any.
struct SimulatedBus {
    transactions: Vec<Vec<Vec<u8>>>,
    fail_at: Option<usize>,
}

impl SimulatedBus {
    fn new(fail_at: Option<usize>) -> Self {
        SimulatedBus { transactions: Vec::new(), fail_at }
    }

    fn transaction(&mut self, _address: u8, frames: &[&[u8]]) -> Result<(), ()> {
        let mut seen = Vec::new();
        let mut result = Ok(());
        for (i, f) in frames.iter().enumerate() {
            seen.push(f.to_vec());
            if self.fail_at == Some(i) {
                result = Err(());
                break;
            }
        }
        self.transactions.push(seen);
        result
    }
}

#[test]
fn construction_and_release() {
    let d = Device::new(7u32);
    assert_eq!(d.address(), DEFAULT_ADDRESS);
    assert_eq!(DEFAULT_ADDRESS, 0x29);
    assert_eq!(d.release(), 7u32);
    let d = Device::new_with_address(String::from("bus"), 0x30);
    assert_eq!(d.address(), 0x30);
    assert_eq!(d.release(), "bus");
}

#[test]
fn read_request_frames_the_address() {
    let d = Device::new_with_address((), 0x52);
    let r = d.read_request::<1, RangeResultStatus>();
    assert_eq!(r.address, 0x52);
    assert_eq!(r.frame, [0x00, 0x4D]);
}

#[test]
fn read_outcomes_are_classified() {
    let ok = read_outcome::<1, ModelId, ()>(Ok([0xB4]));
    assert!(matches!(ok, Ok(ModelId::VL6180X)));
    let bus = read_outcome::<1, ModelId, ()>(Err(()));
    assert!(matches!(bus, Err(Error::BusError)));
    let bad = read_outcome::<1, RangeResultStatus, ()>(Ok([0x90]));
    assert!(matches!(bad, Err(Error::DeserializationError)));
    let bus = read_outcome::<1, RangeResultStatus, &str>(Err("nack"));
    assert!(matches!(bus, Err(Error::BusError)));
}

#[test]
fn write_request_holds_both_frames() {
    let d = Device::new(());
    let w = d.write_request(RangeStart::Continuous).unwrap();
    assert_eq!(w.address, 0x29);
    assert_eq!(w.frame, [0x00, 0x18]);
    assert_eq!(w.payload, [0x03]);
}

#[test]
fn failing_second_frame_reports_bus_error() {
    let d = Device::new(());
    let mut bus = SimulatedBus::new(Some(1));
    let w = d.write_request(RangeStart::SingleShot).unwrap();
    let sent = bus.transaction(w.address, &[&w.frame, &w.payload]);
    let r = write_outcome(sent);
    assert!(matches!(r, Err(Error::BusError)));
    assert_eq!(bus.transactions.len(), 1);
    assert_eq!(bus.transactions[0], vec![vec![0x00, 0x18], vec![0x01]]);
}

#[test]
fn encodable_value_always_gives_a_request() {
    let d = Device::new_with_address((), 0x31);
    let w = d.write_request(RangeIntermeasurementPeriod { period: Span { milliseconds: 100 } });
    let w = w.unwrap();
    assert_eq!(w.address, 0x31);
    assert_eq!(w.frame, [0x00, 0x1B]);
    assert_eq!(w.payload, [9]);
    let w = d.write_request(RangeIntermeasurementPeriod { period: Span { milliseconds: 5 } });
    assert!(matches!(w, Err(Error::SerializationError)));
}

#[test]
fn successful_write() {
    let d = Device::new(());
    let mut bus = SimulatedBus::new(None);
    let w = d.write_request(AlsIntegrationPeriod { period: Duration { milliseconds: 100 } }).unwrap();
    let r = write_outcome(bus.transaction(w.address, &[&w.frame, &w.payload]));
    assert!(r.is_ok());
    assert_eq!(bus.transactions, vec![vec![vec![0x00, 0x40], vec![100]]]);
}

#[test]
fn failed_encode_touches_no_bus() {
    let d = Device::new(());
    let bus = SimulatedBus::new(None);
    let w = d.write_request(AlsIntegrationPeriod { period: Duration { milliseconds: 0 } });
    assert!(matches!(w, Err(Error::SerializationError)));
    let w = d.write_request(AlsIntegrationPeriod { period: Duration { milliseconds: 300 } });
    assert!(matches!(w, Err(Error::SerializationError)));
    assert!(bus.transactions.is_empty());
}
