//! The collector session as a state machine: each outcome of an operation on
//! the BLE transport (an event) moves the session on and names the next
//! operation to perform (an action) and what to tell the operator (a report).
//!
//! Any failure, timeout or malformed payload ends the current connection
//! attempt and starts a fresh scan, until the optional retry limit is reached.
use vstd::prelude::*;
use crate::decode::{decode_scalar, decode_vec3, scalar_of, vec3_of, DecodeError, Vec3};
use crate::identifiers::BleIdentifiers;

verus! {

/// Notifications between two throughput reports.
pub const REPORT_EVERY: u32 = 32;

/// One sensor channel of the device.
#[derive(Debug, Clone, Copy, PartialEq, Eq, Structural)]
pub enum Channel {
    Accel,
    Gyro,
    Temp,
}

/// How readings are acquired once connected.
#[derive(Debug, Clone, Copy, PartialEq, Eq, Structural)]
pub enum Mode {
    /// Subscribe to the three characteristics and wait for notifications.
    Notify,
    /// Read the three characteristics in turn, again and again.
    Poll,
}

/// An operation on the transport.
#[derive(Debug, Clone, Copy, PartialEq, Eq, Structural)]
pub enum Operation {
    StartScan,
    AwaitAdvertisement,
    Resolve,
    Connect,
    Subscribe(Channel),
    OpenNotifications,
    AwaitNotification,
    ReadAll,
}

/// Why a connection attempt ended.
#[derive(Debug, Clone, Copy, PartialEq, Eq, Structural)]
pub enum SessionError {
    Failed(Operation),
    TimedOut(Operation),
    Malformed(Channel, DecodeError),
}

/// The readings that one notification gives, one for each channel whose
/// characteristic UUID it carries.
#[derive(Debug, Clone, Copy, PartialEq, Eq, Structural)]
pub struct Readings {
    pub accel: Option<Vec3>,
    pub gyro: Option<Vec3>,
    pub temp: Option<u32>,
}

/// Where the session stands.
#[derive(Debug, Clone, Copy, PartialEq, Eq, Structural)]
pub enum Phase {
    /// Waiting for the scan to start.
    Scanning,
    /// Waiting for an advertisement of the service.
    AwaitingAdvertisement,
    /// Waiting for the scan to stop and the peripheral to be resolved.
    Resolving,
    Connecting,
    /// Waiting for the subscription to a channel.
    Subscribing(Channel),
    /// Waiting for the notification stream.
    Opening,
    /// Receiving notifications: `count` since the report window opened at
    /// `window_start` (microseconds).
    Collecting { count: u32, window_start: u64 },
    Polling,
    /// The retry limit was reached.
    Stopped,
}

/// The outcome of the operation that the session asked for last.
pub enum Event<Id> {
    ScanStarted,
    /// An advertisement from device `id` listing `services`.
    Advertisement { id: Id, services: Vec<u128> },
    /// Any other scan event.
    OtherScanEvent,
    Resolved,
    Connected,
    Subscribed,
    NotificationsOpened { now_micros: u64 },
    Notification { uuid: u128, value: Vec<u8>, now_micros: u64 },
    ReadDone { accel: Vec<u8>, gyro: Vec<u8>, temp: Vec<u8>, elapsed_micros: u64 },
    /// The event or notification stream ended.
    StreamEnded,
    TimedOut,
    Failed,
}

/// The next operation to perform.
#[derive(Debug, PartialEq, Eq)]
pub enum Action<Id> {
    StartScan,
    AwaitAdvertisement,
    /// Stop the scan and resolve the peripheral of device `id`.
    Resolve(Id),
    Connect,
    Subscribe(Channel),
    OpenNotifications,
    AwaitNotification,
    ReadAll,
    GiveUp,
}

/// What to tell the operator.
#[derive(Debug, Clone, Copy, PartialEq, Eq, Structural)]
pub enum Report {
    Nothing,
    /// A notification arrived; at the end of each report window, the average
    /// interval between notifications in it.
    Notified { readings: Readings, avg_interval_micros: Option<u64> },
    Polled { accel: Vec3, gyro: Vec3, temp: u32, read_micros: u64 },
    Retrying(SessionError),
    GaveUp(SessionError),
}

/// An action and a report.
#[derive(Debug, PartialEq, Eq)]
pub struct Step<Id> {
    pub action: Action<Id>,
    pub report: Report,
}

/// A collector session: the identifier table, the acquisition mode, the
/// number of retries allowed (`None`: no limit) and made, and the phase.
#[derive(Debug, Clone, Copy, PartialEq, Eq, Structural)]
pub struct Session {
    pub ids: BleIdentifiers,
    pub mode: Mode,
    pub retry_limit: Option<u64>,
    pub retries: u64,
    pub phase: Phase,
}

/// The operation that the session waits on in `p`.
pub open spec fn operation_of(p: Phase) -> Operation {
    match p {
        Phase::Scanning => Operation::StartScan,
        Phase::AwaitingAdvertisement => Operation::AwaitAdvertisement,
        Phase::Resolving => Operation::Resolve,
        Phase::Connecting => Operation::Connect,
        Phase::Subscribing(c) => Operation::Subscribe(c),
        Phase::Opening => Operation::OpenNotifications,
        Phase::Collecting { .. } => Operation::AwaitNotification,
        Phase::Polling | Phase::Stopped => Operation::ReadAll,
    }
}

/// Whether one more retry is allowed.
pub open spec fn may_retry(s: Session) -> bool {
    match s.retry_limit {
        Some(l) => s.retries < l,
        None => true,
    }
}

/// The session in phase `p`, asking for `a` and reporting `r`.
pub open spec fn moved<Id>(s: Session, p: Phase, a: Action<Id>, r: Report) -> (Session, Step<Id>) {
    (Session { phase: p, ..s }, Step { action: a, report: r })
}

/// After `e`, a fresh scan while retries are left, else the end.
pub open spec fn failure<Id>(s: Session, e: SessionError) -> (Session, Step<Id>) {
    if may_retry(s) {
        (
            Session {
                phase: Phase::Scanning,
                retries: if s.retries < u64::MAX {
                    (s.retries + 1) as u64
                } else {
                    s.retries
                },
                ..s
            },
            Step { action: Action::StartScan, report: Report::Retrying(e) },
        )
    } else {
        moved(s, Phase::Stopped, Action::GiveUp, Report::GaveUp(e))
    }
}

/// What a notification of characteristic `uuid` carries. The UUID is
/// compared with each channel's on its own, so a notification whose UUID
/// several channels share is decoded for each of them: as a three-axis
/// reading for the accelerometer and the gyroscope, as a scalar for the
/// temperature. The first channel, in that order, whose decoding fails gives
/// the error; a UUID of no channel carries nothing.
pub open spec fn notified_reading(ids: BleIdentifiers, uuid: u128, value: Seq<u8>) -> Result<
    Readings,
    SessionError,
> {
    let is_accel = uuid == ids.char_accel_uuid;
    let is_gyro = uuid == ids.char_gyro_uuid;
    let is_temp = uuid == ids.char_temp_uuid;
    if is_accel && vec3_of(value) is Err {
        Err(SessionError::Malformed(Channel::Accel, vec3_of(value)->Err_0))
    } else if is_gyro && vec3_of(value) is Err {
        Err(SessionError::Malformed(Channel::Gyro, vec3_of(value)->Err_0))
    } else if is_temp && scalar_of(value) is Err {
        Err(SessionError::Malformed(Channel::Temp, scalar_of(value)->Err_0))
    } else {
        Ok(
            Readings {
                accel: if is_accel {
                    Some(vec3_of(value)->Ok_0)
                } else {
                    None
                },
                gyro: if is_gyro {
                    Some(vec3_of(value)->Ok_0)
                } else {
                    None
                },
                temp: if is_temp {
                    Some(scalar_of(value)->Ok_0)
                } else {
                    None
                },
            },
        )
    }
}

/// Microseconds from `start` to `now`; none when the clock went back.
pub open spec fn elapsed(start: u64, now: u64) -> u64 {
    if now >= start {
        (now - start) as u64
    } else {
        0
    }
}

/// How a collecting session moves on a notification of characteristic
/// `uuid` at time `now`.
pub open spec fn on_notification<Id>(
    s: Session,
    count: u32,
    window_start: u64,
    uuid: u128,
    value: Seq<u8>,
    now: u64,
) -> (Session, Step<Id>) {
    match notified_reading(s.ids, uuid, value) {
        Err(e) => failure(s, e),
        Ok(readings) => if count + 1 >= REPORT_EVERY {
            moved(
                s,
                Phase::Collecting { count: 0, window_start: now },
                Action::AwaitNotification,
                Report::Notified {
                    readings,
                    avg_interval_micros: Some((elapsed(window_start, now) / (REPORT_EVERY as u64)) as u64),
                },
            )
        } else {
            moved(
                s,
                Phase::Collecting { count: (count + 1) as u32, window_start },
                Action::AwaitNotification,
                Report::Notified { readings, avg_interval_micros: None },
            )
        },
    }
}

/// How a polling session moves on the three buffers that it read.
pub open spec fn on_read<Id>(
    s: Session,
    accel: Seq<u8>,
    gyro: Seq<u8>,
    temp: Seq<u8>,
    read_micros: u64,
) -> (Session, Step<Id>) {
    match (vec3_of(accel), vec3_of(gyro), scalar_of(temp)) {
        (Err(e), _, _) => failure(s, SessionError::Malformed(Channel::Accel, e)),
        (Ok(_), Err(e), _) => failure(s, SessionError::Malformed(Channel::Gyro, e)),
        (Ok(_), Ok(_), Err(e)) => failure(s, SessionError::Malformed(Channel::Temp, e)),
        (Ok(a), Ok(g), Ok(t)) => moved(
            s,
            Phase::Polling,
            Action::ReadAll,
            Report::Polled { accel: a, gyro: g, temp: t, read_micros },
        ),
    }
}

/// The channel subscribed to after `c`, if any.
pub open spec fn channel_after(c: Channel) -> Option<Channel> {
    match c {
        Channel::Accel => Some(Channel::Gyro),
        Channel::Gyro => Some(Channel::Temp),
        Channel::Temp => None,
    }
}

/// How the session moves on event `e`.
pub open spec fn next<Id>(s: Session, e: Event<Id>) -> (Session, Step<Id>) {
    let op = operation_of(s.phase);
    if s.phase is Stopped {
        (s, Step { action: Action::GiveUp, report: Report::Nothing })
    } else {
        match e {
            Event::ScanStarted => if s.phase is Scanning {
                moved(s, Phase::AwaitingAdvertisement, Action::AwaitAdvertisement, Report::Nothing)
            } else {
                failure(s, SessionError::Failed(op))
            },
            Event::Advertisement { id, services } => if s.phase is AwaitingAdvertisement {
                if services@.contains(s.ids.service_uuid) {
                    moved(s, Phase::Resolving, Action::Resolve(id), Report::Nothing)
                } else {
                    moved(s, s.phase, Action::AwaitAdvertisement, Report::Nothing)
                }
            } else {
                failure(s, SessionError::Failed(op))
            },
            Event::OtherScanEvent => if s.phase is AwaitingAdvertisement {
                moved(s, s.phase, Action::AwaitAdvertisement, Report::Nothing)
            } else {
                failure(s, SessionError::Failed(op))
            },
            Event::Resolved => if s.phase is Resolving {
                moved(s, Phase::Connecting, Action::Connect, Report::Nothing)
            } else {
                failure(s, SessionError::Failed(op))
            },
            Event::Connected => if s.phase is Connecting {
                match s.mode {
                    Mode::Notify => moved(
                        s,
                        Phase::Subscribing(Channel::Accel),
                        Action::Subscribe(Channel::Accel),
                        Report::Nothing,
                    ),
                    Mode::Poll => moved(s, Phase::Polling, Action::ReadAll, Report::Nothing),
                }
            } else {
                failure(s, SessionError::Failed(op))
            },
            Event::Subscribed => match s.phase {
                Phase::Subscribing(c) => match channel_after(c) {
                    Some(d) => moved(s, Phase::Subscribing(d), Action::Subscribe(d), Report::Nothing),
                    None => moved(s, Phase::Opening, Action::OpenNotifications, Report::Nothing),
                },
                _ => failure(s, SessionError::Failed(op)),
            },
            Event::NotificationsOpened { now_micros } => if s.phase is Opening {
                moved(
                    s,
                    Phase::Collecting { count: 0, window_start: now_micros },
                    Action::AwaitNotification,
                    Report::Nothing,
                )
            } else {
                failure(s, SessionError::Failed(op))
            },
            Event::Notification { uuid, value, now_micros } => match s.phase {
                Phase::Collecting { count, window_start } => on_notification(
                    s,
                    count,
                    window_start,
                    uuid,
                    value@,
                    now_micros,
                ),
                _ => failure(s, SessionError::Failed(op)),
            },
            Event::ReadDone { accel, gyro, temp, elapsed_micros } => if s.phase is Polling {
                on_read(s, accel@, gyro@, temp@, elapsed_micros)
            } else {
                failure(s, SessionError::Failed(op))
            },
            Event::StreamEnded => if s.phase is Collecting {
                moved(s, Phase::Polling, Action::ReadAll, Report::Nothing)
            } else {
                failure(s, SessionError::Failed(op))
            },
            Event::TimedOut => failure(s, SessionError::TimedOut(op)),
            Event::Failed => failure(s, SessionError::Failed(op)),
        }
    }
}

/// Decodes a notification of characteristic `uuid` for every channel whose
/// UUID it is.
pub fn reading_of(ids: &BleIdentifiers, uuid: u128, value: &[u8]) -> (r: Result<
    Readings,
    SessionError,
>)
    ensures
        r == notified_reading(*ids, uuid, value@),
{
    let mut readings = Readings { accel: None, gyro: None, temp: None };
    if uuid == ids.char_accel_uuid {
        match decode_vec3(value) {
            Ok(v) => readings.accel = Some(v),
            Err(e) => return Err(SessionError::Malformed(Channel::Accel, e)),
        }
    }
    if uuid == ids.char_gyro_uuid {
        match decode_vec3(value) {
            Ok(v) => readings.gyro = Some(v),
            Err(e) => return Err(SessionError::Malformed(Channel::Gyro, e)),
        }
    }
    if uuid == ids.char_temp_uuid {
        match decode_scalar(value) {
            Ok(t) => readings.temp = Some(t),
            Err(e) => return Err(SessionError::Malformed(Channel::Temp, e)),
        }
    }
    Ok(readings)
}

/// The average interval between the notifications of a report window that
/// opened at `window_start` and closes at `now`.
pub fn average_interval(window_start: u64, now: u64) -> (r: u64)
    ensures
        r == elapsed(window_start, now) / (REPORT_EVERY as u64),
{
    let span: u64 = if now >= window_start {
        now - window_start
    } else {
        0
    };
    span / (REPORT_EVERY as u64)
}

impl Channel {
    /// The channel subscribed to after this one, if any.
    pub fn after(self) -> (r: Option<Channel>)
        ensures
            r == channel_after(self),
    {
        match self {
            Channel::Accel => Some(Channel::Gyro),
            Channel::Gyro => Some(Channel::Temp),
            Channel::Temp => None,
        }
    }
}

impl Phase {
    /// The operation that the session waits on in this phase.
    pub fn operation(self) -> (r: Operation)
        ensures
            r == operation_of(self),
    {
        match self {
            Phase::Scanning => Operation::StartScan,
            Phase::AwaitingAdvertisement => Operation::AwaitAdvertisement,
            Phase::Resolving => Operation::Resolve,
            Phase::Connecting => Operation::Connect,
            Phase::Subscribing(c) => Operation::Subscribe(c),
            Phase::Opening => Operation::OpenNotifications,
            Phase::Collecting { .. } => Operation::AwaitNotification,
            Phase::Polling | Phase::Stopped => Operation::ReadAll,
        }
    }
}

impl Session {
    /// A session about to start its first scan, with no retry made.
    pub fn new(ids: BleIdentifiers, mode: Mode, retry_limit: Option<u64>) -> (r: Session)
        ensures
            r == (Session { ids, mode, retry_limit, retries: 0, phase: Phase::Scanning }),
    {
        Session { ids, mode, retry_limit, retries: 0, phase: Phase::Scanning }
    }

    /// The action that starts the session.
    pub fn first_action<Id>(&self) -> (r: Action<Id>)
        ensures
            r == Action::<Id>::StartScan,
    {
        Action::StartScan
    }

    fn go<Id>(&mut self, p: Phase, action: Action<Id>, report: Report) -> (r: Step<Id>)
        ensures
            (*final(self), r) == moved(*old(self), p, action, report),
    {
        self.phase = p;
        Step { action, report }
    }

    fn fail<Id>(&mut self, e: SessionError) -> (r: Step<Id>)
        ensures
            (*final(self), r) == failure::<Id>(*old(self), e),
    {
        let retry = match self.retry_limit {
            Some(l) => self.retries < l,
            None => true,
        };
        if retry {
            if self.retries < u64::MAX {
                self.retries = self.retries + 1;
            }
            self.phase = Phase::Scanning;
            Step { action: Action::StartScan, report: Report::Retrying(e) }
        } else {
            self.go(Phase::Stopped, Action::GiveUp, Report::GaveUp(e))
        }
    }

    fn notified<Id>(&mut self, count: u32, window_start: u64, uuid: u128, value: &[u8], now: u64) -> (r: Step<Id>)
        ensures
            (*final(self), r) == on_notification::<Id>(*old(self), count, window_start, uuid, value@, now),
    {
        match reading_of(&self.ids, uuid, value) {
            Err(e) => self.fail(e),
            Ok(readings) => if count >= REPORT_EVERY - 1 {
                let avg = average_interval(window_start, now);
                self.go(
                    Phase::Collecting { count: 0, window_start: now },
                    Action::AwaitNotification,
                    Report::Notified { readings, avg_interval_micros: Some(avg) },
                )
            } else {
                self.go(
                    Phase::Collecting { count: count + 1, window_start },
                    Action::AwaitNotification,
                    Report::Notified { readings, avg_interval_micros: None },
                )
            },
        }
    }

    fn polled<Id>(&mut self, accel: &[u8], gyro: &[u8], temp: &[u8], read_micros: u64) -> (r: Step<Id>)
        ensures
            (*final(self), r) == on_read::<Id>(*old(self), accel@, gyro@, temp@, read_micros),
    {
        let a = match decode_vec3(accel) {
            Ok(a) => a,
            Err(e) => return self.fail(SessionError::Malformed(Channel::Accel, e)),
        };
        let g = match decode_vec3(gyro) {
            Ok(g) => g,
            Err(e) => return self.fail(SessionError::Malformed(Channel::Gyro, e)),
        };
        let t = match decode_scalar(temp) {
            Ok(t) => t,
            Err(e) => return self.fail(SessionError::Malformed(Channel::Temp, e)),
        };
        self.go(
            Phase::Polling,
            Action::ReadAll,
            Report::Polled { accel: a, gyro: g, temp: t, read_micros },
        )
    }

    /// Moves the session on the outcome `e` of the last action, and gives the
    /// next action and what to report.
    pub fn step<Id>(&mut self, e: Event<Id>) -> (r: Step<Id>)
        ensures
            (*final(self), r) == next(*old(self), e),
    {
        let phase = self.phase;
        let op = phase.operation();
        if let Phase::Stopped = phase {
            return Step { action: Action::GiveUp, report: Report::Nothing };
        }
        match e {
            Event::ScanStarted => match phase {
                Phase::Scanning => self.go(
                    Phase::AwaitingAdvertisement,
                    Action::AwaitAdvertisement,
                    Report::Nothing,
                ),
                _ => self.fail(SessionError::Failed(op)),
            },
            Event::Advertisement { id, services } => match phase {
                Phase::AwaitingAdvertisement => {
                    if lists_service(&services, self.ids.service_uuid) {
                        self.go(Phase::Resolving, Action::Resolve(id), Report::Nothing)
                    } else {
                        self.go(phase, Action::AwaitAdvertisement, Report::Nothing)
                    }
                },
                _ => self.fail(SessionError::Failed(op)),
            },
            Event::OtherScanEvent => match phase {
                Phase::AwaitingAdvertisement => self.go(
                    phase,
                    Action::AwaitAdvertisement,
                    Report::Nothing,
                ),
                _ => self.fail(SessionError::Failed(op)),
            },
            Event::Resolved => match phase {
                Phase::Resolving => self.go(Phase::Connecting, Action::Connect, Report::Nothing),
                _ => self.fail(SessionError::Failed(op)),
            },
            Event::Connected => match phase {
                Phase::Connecting => match self.mode {
                    Mode::Notify => self.go(
                        Phase::Subscribing(Channel::Accel),
                        Action::Subscribe(Channel::Accel),
                        Report::Nothing,
                    ),
                    Mode::Poll => self.go(Phase::Polling, Action::ReadAll, Report::Nothing),
                },
                _ => self.fail(SessionError::Failed(op)),
            },
            Event::Subscribed => match phase {
                Phase::Subscribing(c) => match c.after() {
                    Some(d) => self.go(Phase::Subscribing(d), Action::Subscribe(d), Report::Nothing),
                    None => self.go(Phase::Opening, Action::OpenNotifications, Report::Nothing),
                },
                _ => self.fail(SessionError::Failed(op)),
            },
            Event::NotificationsOpened { now_micros } => match phase {
                Phase::Opening => self.go(
                    Phase::Collecting { count: 0, window_start: now_micros },
                    Action::AwaitNotification,
                    Report::Nothing,
                ),
                _ => self.fail(SessionError::Failed(op)),
            },
            Event::Notification { uuid, value, now_micros } => match phase {
                Phase::Collecting { count, window_start } => self.notified(
                    count,
                    window_start,
                    uuid,
                    value.as_slice(),
                    now_micros,
                ),
                _ => self.fail(SessionError::Failed(op)),
            },
            Event::ReadDone { accel, gyro, temp, elapsed_micros } => match phase {
                Phase::Polling => self.polled(
                    accel.as_slice(),
                    gyro.as_slice(),
                    temp.as_slice(),
                    elapsed_micros,
                ),
                _ => self.fail(SessionError::Failed(op)),
            },
            Event::StreamEnded => match phase {
                Phase::Collecting { .. } => self.go(Phase::Polling, Action::ReadAll, Report::Nothing),
                _ => self.fail(SessionError::Failed(op)),
            },
            Event::TimedOut => self.fail(SessionError::TimedOut(op)),
            Event::Failed => self.fail(SessionError::Failed(op)),
        }
    }
}

/// Whether an advertised service list names `service`.
pub fn lists_service(services: &Vec<u128>, service: u128) -> (r: bool)
    ensures
        r == services@.contains(service),
{
    let mut i: usize = 0;
    while i < services.len()
        invariant
            i <= services@.len(),
            forall|j: int| 0 <= j < i ==> services@[j] != service,
        decreases services@.len() - i,
    {
        if services[i] == service {
            return true;
        }
        i = i + 1;
    }
    false
}

/// Whether `e` is an advertisement that lists `service`.
pub open spec fn advertises<Id>(e: Event<Id>, service: u128) -> bool {
    match e {
        Event::Advertisement { services, .. } => services@.contains(service),
        _ => false,
    }
}

/// Whether `e` is a scan event that does not point at `service`.
pub open spec fn passes_over<Id>(e: Event<Id>, service: u128) -> bool {
    match e {
        Event::Advertisement { services, .. } => !services@.contains(service),
        Event::OtherScanEvent => true,
        _ => false,
    }
}

/// The session and the steps after the events `events`, one after another.
pub open spec fn run<Id>(s: Session, events: Seq<Event<Id>>) -> (Session, Seq<Step<Id>>)
    decreases events.len(),
{
    if events.len() == 0 {
        (s, Seq::empty())
    } else {
        let first = next(s, events[0]);
        let rest = run(first.0, events.drop_first());
        (rest.0, seq![first.1] + rest.1)
    }
}

/// Discovery settles on the device of the first advertisement that lists the
/// service: a session that awaits advertisements and is given scan events that
/// do not list the service, then one advertisement that does, keeps waiting
/// through the former and then asks to resolve the device of the latter.
pub proof fn lemma_discovery_picks_first_match<Id>(s: Session, events: Seq<Event<Id>>)
    requires
        s.phase == Phase::AwaitingAdvertisement,
        events.len() > 0,
        forall|i: int| 0 <= i < events.len() - 1 ==> passes_over(events[i], s.ids.service_uuid),
        advertises(events.last(), s.ids.service_uuid),
    ensures
        run(s, events).0 == (Session { phase: Phase::Resolving, ..s }),
        run(s, events).1.len() == events.len(),
        forall|i: int|
            0 <= i < events.len() - 1 ==> run(s, events).1[i] == (Step::<Id> {
                action: Action::AwaitAdvertisement,
                report: Report::Nothing,
            }),
        run(s, events).1.last() == (Step::<Id> {
            action: Action::Resolve(events.last()->Advertisement_id),
            report: Report::Nothing,
        }),
    decreases events.len(),
{
    let rest = events.drop_first();
    if events.len() == 1 {
        assert(run(next(s, events[0]).0, rest).1 =~= Seq::<Step<Id>>::empty());
    } else {
        assert(passes_over(events[0], s.ids.service_uuid));
        assert(next(s, events[0]).0 == s);
        assert forall|i: int| 0 <= i < rest.len() - 1 implies passes_over(
            rest[i],
            s.ids.service_uuid,
        ) by {
            assert(rest[i] == events[i + 1]);
        }
        assert(rest.last() == events.last());
        lemma_discovery_picks_first_match(s, rest);
        let steps = run(s, events).1;
        assert forall|i: int| 0 <= i < events.len() - 1 implies steps[i] == (Step::<Id> {
            action: Action::AwaitAdvertisement,
            report: Report::Nothing,
        }) by {
            if i > 0 {
                assert(steps[i] == run(s, rest).1[i - 1]);
            }
        }
    }
}

/// A timeout while acquiring, waiting for a notification or reading the
/// characteristics, ends the connection attempt and starts a fresh scan
/// whenever a retry is left: the session reports the timeout and does not stop.
pub proof fn lemma_timeout_restarts_discovery<Id>(s: Session)
    requires
        s.phase is Polling || s.phase is Collecting,
        may_retry(s),
    ensures
        next(s, Event::<Id>::TimedOut).0.phase == Phase::Scanning,
        next(s, Event::<Id>::TimedOut).0.ids == s.ids,
        next(s, Event::<Id>::TimedOut).0.mode == s.mode,
        next(s, Event::<Id>::TimedOut).1 == (Step::<Id> {
            action: Action::StartScan,
            report: Report::Retrying(SessionError::TimedOut(operation_of(s.phase))),
        }),
{
}

} // verus!
