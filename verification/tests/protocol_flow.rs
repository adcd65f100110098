//! Drives the register-transaction state machine against a test double of
//! the bus transport that records every call in order and can inject a
//! failure at the write or the read step.

use soil_sensor::codec::{Reading, TemperatureReading};
use soil_sensor::protocol::Channel;
use soil_sensor::transaction::{Action, Event, SensorError, Transaction};

/// A recording transport double. Every prescribed step is logged in order;
/// the write and the read can each be made to fail.
struct FakeBus {
    write_ok: bool,
    /// `None` injects a transport failure at the read step.
    response: Option<Vec<u8>>,
    ops: Vec<String>,
}

impl FakeBus {
    fn new(write_ok: bool, response: Option<Vec<u8>>) -> Self {
        FakeBus { write_ok, response, ops: Vec::new() }
    }
}

/// Runs one full measurement the way a caller would: perform each prescribed
/// action against the bus double, feed the outcome back, stop at `Finish`.
fn drive(bus: &mut FakeBus, channel: Channel) -> Result<Reading, SensorError> {
    let mut transaction = Transaction::new(channel);
    loop {
        match transaction.next_action() {
            Action::Write(cmd) => {
                bus.ops.push(format!("write [{:#04x}, {:#04x}]", cmd.base, cmd.sub));
                if bus.write_ok {
                    transaction.handle(Event::WriteOk);
                } else {
                    transaction.handle(Event::WriteError);
                }
            }
            Action::Wait(ms) => {
                bus.ops.push(format!("wait {}ms", ms));
                transaction.handle(Event::DelayElapsed);
            }
            Action::Read(len) => {
                bus.ops.push(format!("read {}", len));
                match bus.response.take() {
                    Some(bytes) => {
                        assert_eq!(bytes.len(), len, "response sized to the channel");
                        transaction.handle(Event::ReadOk(bytes));
                    }
                    None => transaction.handle(Event::ReadError),
                }
            }
            Action::Finish(outcome) => return outcome,
        }
    }
}

#[test]
fn write_completes_before_delay_and_delay_before_read() {
    let mut bus = FakeBus::new(true, Some(vec![0x00, 0x00, 0x10, 0x00]));
    let outcome = drive(&mut bus, Channel::Temperature);
    assert_eq!(outcome, Ok(Reading::Temperature(TemperatureReading { raw: 4096 })));
    // The transaction prescribed exactly: command write, full settle delay,
    // response read — in that order, nothing reordered or skipped.
    assert_eq!(bus.ops, vec!["write [0x00, 0x04]", "wait 5ms", "read 4"]);
}

#[test]
fn moisture_transaction_uses_its_own_command_and_length() {
    let mut bus = FakeBus::new(true, Some(vec![0x03, 0xE8]));
    let outcome = drive(&mut bus, Channel::Moisture);
    assert_eq!(outcome, Ok(Reading::Moisture(1000)));
    assert_eq!(bus.ops, vec!["write [0x0f, 0x10]", "wait 5ms", "read 2"]);
}

#[test]
fn write_failure_prevents_any_read() {
    let mut bus = FakeBus::new(false, Some(vec![0x03, 0xE8]));
    let outcome = drive(&mut bus, Channel::Moisture);
    assert_eq!(outcome, Err(SensorError::WriteFailed));
    // The attempt ended at the write: no wait, no read, no value.
    assert_eq!(bus.ops, vec!["write [0x0f, 0x10]"]);
}

#[test]
fn read_failure_surfaces_after_a_successful_write() {
    let mut bus = FakeBus::new(true, None);
    let outcome = drive(&mut bus, Channel::Temperature);
    assert_eq!(outcome, Err(SensorError::ReadFailed));
    // The write and the delay happened; the failure is classified as a
    // read-stage failure, distinct from a write-stage one.
    assert_eq!(bus.ops, vec!["write [0x00, 0x04]", "wait 5ms", "read 4"]);
    assert_ne!(outcome, Err(SensorError::WriteFailed));
}

#[test]
fn consecutive_transactions_decode_independently() {
    // Two successful measurements on the same channel with different
    // injected bytes: each decodes its own response, nothing leaks over.
    let mut first_bus = FakeBus::new(true, Some(vec![0x03, 0xE8]));
    let first = drive(&mut first_bus, Channel::Moisture);
    assert_eq!(first, Ok(Reading::Moisture(1000)));

    let mut second_bus = FakeBus::new(true, Some(vec![0x00, 0xC8]));
    let second = drive(&mut second_bus, Channel::Moisture);
    assert_eq!(second, Ok(Reading::Moisture(200)));

    // A failure in between leaves the next fresh transaction unaffected.
    let mut failing_bus = FakeBus::new(true, None);
    let failed = drive(&mut failing_bus, Channel::Moisture);
    assert_eq!(failed, Err(SensorError::ReadFailed));

    let mut third_bus = FakeBus::new(true, Some(vec![0x07, 0xD0]));
    let third = drive(&mut third_bus, Channel::Moisture);
    assert_eq!(third, Ok(Reading::Moisture(2000)));
}

#[test]
fn each_error_stage_is_reported_distinctly() {
    let mut write_fail = FakeBus::new(false, None);
    assert_eq!(drive(&mut write_fail, Channel::Temperature), Err(SensorError::WriteFailed));
    let mut read_fail = FakeBus::new(true, None);
    assert_eq!(drive(&mut read_fail, Channel::Temperature), Err(SensorError::ReadFailed));
}
