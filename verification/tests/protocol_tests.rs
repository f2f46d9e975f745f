use mag3110::BusFault;
use mag3110::BusRecord;
use mag3110::DataRate;
use mag3110::DriverError;
use mag3110::Mag3110;
use mag3110::Oversampling;
use mag3110::ScriptStep;
use mag3110::ScriptedBus;
use mag3110::POLL_LIMIT;

fn standby_write() -> BusRecord {
    BusRecord::Write { addr: 0x0E, data: vec![0x10, 0x00] }
}

fn sysmod_poll(answer: u8) -> BusRecord {
    BusRecord::WriteRead { addr: 0x0E, command: vec![0x08], response: vec![answer] }
}

fn mode_write(control: u8) -> BusRecord {
    BusRecord::Write { addr: 0x0E, data: vec![0x10, control] }
}

/// Three steps that carry a driver through its initialization: the standby
/// write, one poll answered zero, and the mode write.
fn init_padding() -> Vec<ScriptStep> {
    vec![
        ScriptStep::answer(vec![]),
        ScriptStep::answer(vec![]),
        ScriptStep::answer(vec![]),
    ]
}

#[test]
fn initialize_leaves_the_default_mode() {
    let bus = ScriptedBus::new(Vec::new());
    let driver = Mag3110::new(bus).unwrap();
    // the transaction sequence is exactly set_sampling_mode(HZ80, OV16)'s:
    // quiesce, confirm standby, write the default control byte 0x01
    let expected = vec![standby_write(), sysmod_poll(0x00), mode_write(0x01)];
    assert_eq!(driver.release().records(), &expected);
}

#[test]
fn set_sampling_mode_writes_the_control_byte_last() {
    let bus = ScriptedBus::new(Vec::new());
    let mut driver = Mag3110::new(bus).unwrap();
    driver.set_sampling_mode(DataRate::HZ20, Oversampling::OV64).unwrap();
    let bus = driver.release();
    let records = bus.records();
    assert_eq!(records.len(), 6);
    // the stop completed first: standby write, then the confirming poll
    assert_eq!(records[3], standby_write());
    assert_eq!(records[4], sysmod_poll(0x00));
    // the mode write is the final transaction
    assert_eq!(records[5], mode_write(0x40 | 0x10 | 1));
}

#[test]
fn stop_sampling_polls_once_when_already_standby() {
    let bus = ScriptedBus::new(init_padding());
    let mut driver = Mag3110::new(bus).unwrap();
    driver.stop_sampling().unwrap();
    let bus = driver.release();
    let records = bus.records();
    // the standby write precedes the poll, and a first poll answered zero
    // means exactly one read transaction
    assert_eq!(records.len(), 5);
    assert_eq!(records[3], standby_write());
    assert_eq!(records[4], sysmod_poll(0x00));
}

#[test]
fn stop_sampling_polls_until_the_device_reports_standby() {
    let mut steps = init_padding();
    steps.push(ScriptStep::answer(vec![])); // the standby write
    steps.push(ScriptStep::answer(vec![0x02]));
    steps.push(ScriptStep::answer(vec![0x01]));
    steps.push(ScriptStep::answer(vec![0x00]));
    let bus = ScriptedBus::new(steps);
    let mut driver = Mag3110::new(bus).unwrap();
    driver.stop_sampling().unwrap();
    let bus = driver.release();
    let records = bus.records();
    assert_eq!(records.len(), 7);
    assert_eq!(records[3], standby_write());
    assert_eq!(records[4], sysmod_poll(0x02));
    assert_eq!(records[5], sysmod_poll(0x01));
    assert_eq!(records[6], sysmod_poll(0x00));
}

#[test]
fn mag_decodes_the_six_response_bytes() {
    let mut steps = init_padding();
    steps.push(ScriptStep::answer(vec![0x12, 0x34, 0x56, 0x78, 0x9A, 0xBC]));
    let bus = ScriptedBus::new(steps);
    let mut driver = Mag3110::new(bus).unwrap();
    let sample = driver.mag().unwrap();
    assert_eq!(sample, (0x1234, 0x5678, -25924));
    assert_eq!(sample, (4660, 22136, -25924));
    let bus = driver.release();
    let records = bus.records();
    assert_eq!(records.len(), 4);
    assert_eq!(
        records[3],
        BusRecord::WriteRead {
            addr: 0x0E,
            command: vec![0x01],
            response: vec![0x12, 0x34, 0x56, 0x78, 0x9A, 0xBC],
        }
    );
}

#[test]
fn temp_reinterprets_the_byte_as_signed() {
    let mut steps = init_padding();
    steps.push(ScriptStep::answer(vec![0xFF]));
    let bus = ScriptedBus::new(steps);
    let mut driver = Mag3110::new(bus).unwrap();
    assert_eq!(driver.temp().unwrap(), -1);
    let bus = driver.release();
    let records = bus.records();
    assert_eq!(records.len(), 4);
    assert_eq!(
        records[3],
        BusRecord::WriteRead { addr: 0x0E, command: vec![0x0F], response: vec![0xFF] }
    );
}

#[test]
fn poll_failure_aborts_the_mode_change_without_a_mode_write() {
    let mut steps = init_padding();
    steps.push(ScriptStep::answer(vec![])); // the standby write
    steps.push(ScriptStep::failure()); // the poll read fails
    let bus = ScriptedBus::new(steps);
    let mut driver = Mag3110::new(bus).unwrap();
    let result = driver.set_sampling_mode(DataRate::HZ40, Oversampling::OV32);
    assert_eq!(result, Err(DriverError::Bus(BusFault)));
    let bus = driver.release();
    let records = bus.records();
    // the failed poll is not recorded, and the mode write was never issued
    assert_eq!(records.len(), 4);
    assert_eq!(records[3], standby_write());
    let restart = mode_write(0x20 | 0x08 | 1);
    assert!(records.iter().all(|record| record != &restart));
}

#[test]
fn standby_write_failure_aborts_initialization() {
    let bus = ScriptedBus::new(vec![ScriptStep::failure()]);
    let result = Mag3110::new(bus);
    assert!(matches!(result, Err(DriverError::Bus(BusFault))));
}

#[test]
fn a_device_that_never_settles_times_out() {
    let mut steps = vec![ScriptStep::answer(vec![])]; // the standby write
    for _ in 0..POLL_LIMIT {
        steps.push(ScriptStep::answer(vec![0x01])); // still sampling
    }
    let bus = ScriptedBus::new(steps);
    let result = Mag3110::new(bus);
    assert!(matches!(result, Err(DriverError::Timeout)));
}
