use kitbit_host::session::{average_interval, lists_service, reading_of};
use kitbit_host::{
    parse_header_for_uuids, Action, BleIdentifiers, Channel, DecodeError, Event, Mode,
    Operation, Phase, Readings, Report, Session, SessionError, Step, Vec3,
};

const SERVICE: u128 = 0xAAAAAAAA_0000_0000_0000_000000000001;
const ACCEL: u128 = 0xAAAAAAAA_0000_0000_0000_000000000002;
const GYRO: u128 = 0xAAAAAAAA_0000_0000_0000_000000000003;
const TEMP: u128 = 0xAAAAAAAA_0000_0000_0000_000000000004;

const NONE: Readings = Readings { accel: None, gyro: None, temp: None };

fn ids() -> BleIdentifiers {
    BleIdentifiers {
        service_uuid: SERVICE,
        char_accel_uuid: ACCEL,
        char_gyro_uuid: GYRO,
        char_temp_uuid: TEMP,
    }
}

fn le3(x: f32, y: f32, z: f32) -> Vec<u8> {
    let mut b = Vec::new();
    b.extend_from_slice(&x.to_le_bytes());
    b.extend_from_slice(&y.to_le_bytes());
    b.extend_from_slice(&z.to_le_bytes());
    b
}

fn vec3_text(v: Vec3) -> String {
    format!(
        "({:.2}, {:.2}, {:.2})",
        f32::from_bits(v.x),
        f32::from_bits(v.y),
        f32::from_bits(v.z)
    )
}

fn quiet<Id>(action: Action<Id>) -> Step<Id> {
    Step { action, report: Report::Nothing }
}

/// Drives a session up to the point where it is connected.
fn connect(s: &mut Session) {
    assert_eq!(s.step::<u32>(Event::ScanStarted), quiet(Action::AwaitAdvertisement));
    assert_eq!(
        s.step(Event::Advertisement { id: 3u32, services: vec![SERVICE] }),
        quiet(Action::Resolve(3))
    );
    assert_eq!(s.step::<u32>(Event::Resolved), quiet(Action::Connect));
}

#[test]
fn discovery_skips_advertisements_without_service() {
    let mut s = Session::new(ids(), Mode::Notify, None);
    assert_eq!(s.first_action::<u32>(), Action::StartScan);
    assert_eq!(s.step::<u32>(Event::ScanStarted), quiet(Action::AwaitAdvertisement));
    for id in 0..5u32 {
        let step = s.step(Event::Advertisement { id, services: vec![ACCEL, SERVICE + 100] });
        assert_eq!(step, quiet(Action::AwaitAdvertisement));
        assert_eq!(s.step::<u32>(Event::OtherScanEvent), quiet(Action::AwaitAdvertisement));
    }
    assert_eq!(s.phase, Phase::AwaitingAdvertisement);
    let step = s.step(Event::Advertisement { id: 42u32, services: vec![GYRO, SERVICE] });
    assert_eq!(step, quiet(Action::Resolve(42)));
    assert_eq!(s.phase, Phase::Resolving);
}

#[test]
fn advertisement_stream_end_retries() {
    let mut s = Session::new(ids(), Mode::Notify, None);
    s.step::<u32>(Event::ScanStarted);
    let step = s.step::<u32>(Event::StreamEnded);
    assert_eq!(step.action, Action::StartScan);
    assert_eq!(step.report, Report::Retrying(SessionError::Failed(Operation::AwaitAdvertisement)));
    assert_eq!(s.retries, 1);
}

#[test]
fn read_timeout_restarts_discovery() {
    let mut s = Session::new(ids(), Mode::Poll, None);
    connect(&mut s);
    assert_eq!(s.step::<u32>(Event::Connected), quiet(Action::ReadAll));
    let step = s.step::<u32>(Event::TimedOut);
    assert_eq!(step.action, Action::StartScan);
    assert_eq!(step.report, Report::Retrying(SessionError::TimedOut(Operation::ReadAll)));
    assert_eq!(s.phase, Phase::Scanning);
    assert_eq!(s.retries, 1);
    connect(&mut s);
    assert_eq!(s.step::<u32>(Event::Connected), quiet(Action::ReadAll));
}

#[test]
fn notification_timeout_restarts_discovery() {
    let mut s = Session::new(ids(), Mode::Notify, None);
    connect(&mut s);
    s.step::<u32>(Event::Connected);
    s.step::<u32>(Event::Subscribed);
    s.step::<u32>(Event::Subscribed);
    s.step::<u32>(Event::Subscribed);
    s.step::<u32>(Event::NotificationsOpened { now_micros: 0 });
    let step = s.step::<u32>(Event::TimedOut);
    assert_eq!(step.action, Action::StartScan);
    assert_eq!(
        step.report,
        Report::Retrying(SessionError::TimedOut(Operation::AwaitNotification))
    );
}

#[test]
fn retry_limit_gives_up() {
    let mut s = Session::new(ids(), Mode::Poll, Some(1));
    s.step::<u32>(Event::Failed);
    assert_eq!(s.retries, 1);
    let step = s.step::<u32>(Event::Failed);
    assert_eq!(step.action, Action::GiveUp);
    assert_eq!(step.report, Report::GaveUp(SessionError::Failed(Operation::StartScan)));
    assert_eq!(s.phase, Phase::Stopped);
    assert_eq!(s.step::<u32>(Event::ScanStarted), quiet(Action::GiveUp));
}

#[test]
fn end_to_end_poll_reports_line() {
    let header = "#define BLE_SERVICE_UUID \"AAAAAAAA-0000-0000-0000-000000000001\"\n\
#define BLE_CHAR_ACCEL_UUID \"AAAAAAAA-0000-0000-0000-000000000002\"\n\
#define BLE_CHAR_GYRO_UUID \"AAAAAAAA-0000-0000-0000-000000000003\"\n\
#define BLE_CHAR_TEMP_UUID \"AAAAAAAA-0000-0000-0000-000000000004\"\n";
    let table = parse_header_for_uuids(header.as_bytes()).unwrap();
    assert_eq!(table, ids());
    let mut s = Session::new(table, Mode::Poll, None);
    connect(&mut s);
    assert_eq!(s.step::<u32>(Event::Connected), quiet(Action::ReadAll));
    let step = s.step::<u32>(Event::ReadDone {
        accel: le3(1.0, 2.0, 3.0),
        gyro: le3(0.0, 0.0, 0.0),
        temp: 21.5f32.to_le_bytes().to_vec(),
        elapsed_micros: 1500,
    });
    assert_eq!(step.action, Action::ReadAll);
    let line = match step.report {
        Report::Polled { accel, gyro, temp, read_micros } => format!(
            "accel={}  gyro={} temp={:.2} in {:.2}ms",
            vec3_text(accel),
            vec3_text(gyro),
            f32::from_bits(temp),
            read_micros as f64 / 1000.0
        ),
        other => panic!("unexpected report {other:?}"),
    };
    assert!(line.contains("accel=(1.00, 2.00, 3.00)"));
    assert!(line.contains("gyro=(0.00, 0.00, 0.00)"));
    assert!(line.contains("temp=21.50"));
}

#[test]
fn malformed_poll_payload_retries() {
    let mut s = Session::new(ids(), Mode::Poll, None);
    connect(&mut s);
    s.step::<u32>(Event::Connected);
    let step = s.step::<u32>(Event::ReadDone {
        accel: le3(1.0, 2.0, 3.0),
        gyro: vec![0u8; 11],
        temp: vec![0u8; 4],
        elapsed_micros: 0,
    });
    assert_eq!(step.action, Action::StartScan);
    assert_eq!(
        step.report,
        Report::Retrying(SessionError::Malformed(
            Channel::Gyro,
            DecodeError::WrongLength { expected: 12, actual: 11 }
        ))
    );
}

#[test]
fn notify_mode_subscribes_dispatches_and_reports_throughput() {
    let mut s = Session::new(ids(), Mode::Notify, None);
    connect(&mut s);
    assert_eq!(s.step::<u32>(Event::Connected), quiet(Action::Subscribe(Channel::Accel)));
    assert_eq!(s.step::<u32>(Event::Subscribed), quiet(Action::Subscribe(Channel::Gyro)));
    assert_eq!(s.step::<u32>(Event::Subscribed), quiet(Action::Subscribe(Channel::Temp)));
    assert_eq!(s.step::<u32>(Event::Subscribed), quiet(Action::OpenNotifications));
    assert_eq!(
        s.step::<u32>(Event::NotificationsOpened { now_micros: 1000 }),
        quiet(Action::AwaitNotification)
    );
    let step = s.step::<u32>(Event::Notification {
        uuid: TEMP,
        value: 21.5f32.to_le_bytes().to_vec(),
        now_micros: 2000,
    });
    assert_eq!(
        step.report,
        Report::Notified {
            readings: Readings { accel: None, gyro: None, temp: Some(21.5f32.to_bits()) },
            avg_interval_micros: None
        }
    );
    for i in 2..32u64 {
        let step = s.step::<u32>(Event::Notification { uuid: 99, value: vec![], now_micros: 1000 * i });
        assert_eq!(step.report, Report::Notified { readings: NONE, avg_interval_micros: None });
    }
    let step = s.step::<u32>(Event::Notification {
        uuid: GYRO,
        value: le3(0.5, 0.0, -0.5),
        now_micros: 1000 + 32 * 2000,
    });
    assert_eq!(step.action, Action::AwaitNotification);
    match step.report {
        Report::Notified {
            readings: Readings { accel: None, gyro: Some(v), temp: None },
            avg_interval_micros: Some(avg),
        } => {
            assert_eq!(vec3_text(v), "(0.50, 0.00, -0.50)");
            assert_eq!(avg, 2000);
        }
        other => panic!("unexpected report {other:?}"),
    }
    assert_eq!(s.phase, Phase::Collecting { count: 0, window_start: 65000 });
    assert_eq!(s.step::<u32>(Event::StreamEnded), quiet(Action::ReadAll));
    assert_eq!(s.phase, Phase::Polling);
}

#[test]
fn malformed_notification_retries() {
    let mut s = Session::new(ids(), Mode::Notify, None);
    s.phase = Phase::Collecting { count: 3, window_start: 0 };
    let step = s.step::<u32>(Event::Notification { uuid: ACCEL, value: vec![1, 2, 3], now_micros: 5 });
    assert_eq!(
        step.report,
        Report::Retrying(SessionError::Malformed(
            Channel::Accel,
            DecodeError::WrongLength { expected: 12, actual: 3 }
        ))
    );
    assert_eq!(s.phase, Phase::Scanning);
}

#[test]
fn unexpected_event_counts_as_failure() {
    let mut s = Session::new(ids(), Mode::Notify, None);
    let step = s.step::<u32>(Event::Connected);
    assert_eq!(step.report, Report::Retrying(SessionError::Failed(Operation::StartScan)));
}

#[test]
fn helpers() {
    assert!(lists_service(&vec![1, 2, SERVICE], SERVICE));
    assert!(!lists_service(&vec![], SERVICE));
    assert_eq!(average_interval(100, 6500), 200);
    assert_eq!(average_interval(6500, 100), 0);
    assert_eq!(reading_of(&ids(), 5, &[1, 2]), Ok(NONE));
}

#[test]
fn shared_uuid_decodes_for_each_channel() {
    let shared = BleIdentifiers { char_gyro_uuid: ACCEL, ..ids() };
    let v = Vec3 { x: 1, y: 2, z: 3 };
    let bytes = kitbit_host::encode_vec3(v);
    assert_eq!(
        reading_of(&shared, ACCEL, &bytes),
        Ok(Readings { accel: Some(v), gyro: Some(v), temp: None })
    );
    let mut s = Session::new(shared, Mode::Notify, None);
    s.phase = Phase::Collecting { count: 0, window_start: 0 };
    let step = s.step::<u32>(Event::Notification { uuid: ACCEL, value: bytes, now_micros: 1 });
    assert_eq!(
        step.report,
        Report::Notified {
            readings: Readings { accel: Some(v), gyro: Some(v), temp: None },
            avg_interval_micros: None
        }
    );
}

#[test]
fn shared_uuid_with_temperature_refuses_vector_payload() {
    let shared = BleIdentifiers { char_temp_uuid: ACCEL, ..ids() };
    let bytes = le3(1.0, 2.0, 3.0);
    assert_eq!(
        reading_of(&shared, ACCEL, &bytes),
        Err(SessionError::Malformed(
            Channel::Temp,
            DecodeError::WrongLength { expected: 4, actual: 12 }
        ))
    );
    assert_eq!(
        reading_of(&shared, ACCEL, &21.5f32.to_le_bytes()),
        Err(SessionError::Malformed(
            Channel::Accel,
            DecodeError::WrongLength { expected: 12, actual: 4 }
        ))
    );
    let mut s = Session::new(shared, Mode::Notify, None);
    s.phase = Phase::Collecting { count: 0, window_start: 0 };
    let step = s.step::<u32>(Event::Notification { uuid: ACCEL, value: bytes, now_micros: 1 });
    assert_eq!(step.action, Action::StartScan);
    assert_eq!(s.phase, Phase::Scanning);
}
