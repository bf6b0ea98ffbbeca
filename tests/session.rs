use gridlogger::fritz::{probe_confirms, FritzSensor};
use gridlogger::rows::{complete_or_sentinel, settle, SourceError};
use gridlogger::session::{AuthStep, Session};

/// A backend double that counts logins and probes.
struct Backend {
    acquires: u32,
    validations: u32,
    valid: bool,
    login_ok: bool,
}

impl Backend {
    fn new() -> Backend {
        Backend { acquires: 0, validations: 0, valid: true, login_ok: true }
    }
}

/// Runs one tick of authentication against the double.
fn authorize(session: &mut Session, backend: &mut Backend) -> Option<String> {
    let mut step = session.begin();
    loop {
        step = match step {
            AuthStep::Acquire => {
                backend.acquires += 1;
                let outcome = if backend.login_ok {
                    Ok(format!("sid{}", backend.acquires))
                } else {
                    Err(SourceError::Auth)
                };
                session.acquired(outcome)
            }
            AuthStep::Validate { token } => {
                backend.validations += 1;
                assert!(token.starts_with("sid"));
                session.validated(backend.valid)
            }
            AuthStep::Proceed { token } => return Some(token),
            AuthStep::GiveUp => return None,
        };
    }
}

#[test]
fn first_tick_logs_in() {
    let mut session = Session::new();
    let mut b = Backend::new();
    assert_eq!(authorize(&mut session, &mut b), Some("sid1".to_string()));
    assert_eq!((b.acquires, b.validations), (1, 0));
    assert!(session.is_authenticated());
}

#[test]
fn valid_session_is_reused_without_login() {
    let mut session = Session::new();
    let mut b = Backend::new();
    authorize(&mut session, &mut b);
    for _ in 0..4 {
        assert_eq!(authorize(&mut session, &mut b), Some("sid1".to_string()));
    }
    assert_eq!(b.acquires, 1);
    assert_eq!(b.validations, 4);
}

#[test]
fn invalid_session_is_reacquired_once() {
    let mut session = Session::new();
    let mut b = Backend::new();
    authorize(&mut session, &mut b);
    b.valid = false;
    assert_eq!(authorize(&mut session, &mut b), Some("sid2".to_string()));
    assert_eq!((b.acquires, b.validations), (2, 1));
}

#[test]
fn failed_reacquire_gives_up_and_resets() {
    let mut session = Session::new();
    let mut b = Backend::new();
    authorize(&mut session, &mut b);
    b.valid = false;
    b.login_ok = false;
    assert_eq!(authorize(&mut session, &mut b), None);
    assert_eq!((b.acquires, b.validations), (2, 1));
    assert!(!session.is_authenticated());
    // The next tick retries from scratch: a login, no probe.
    b.login_ok = true;
    assert_eq!(authorize(&mut session, &mut b), Some("sid3".to_string()));
    assert_eq!((b.acquires, b.validations), (3, 1));
}

#[test]
fn rejected_reading_drops_the_token() {
    let mut session = Session::new();
    let mut b = Backend::new();
    authorize(&mut session, &mut b);
    session.reading_failed(SourceError::Transport);
    assert!(session.is_authenticated());
    session.reading_failed(SourceError::Auth);
    assert!(!session.is_authenticated());
}

#[test]
fn invalidate_drops_the_token() {
    let mut session = Session::new();
    let mut b = Backend::new();
    authorize(&mut session, &mut b);
    session.invalidate();
    assert!(!session.is_authenticated());
    assert!(matches!(session.begin(), AuthStep::Acquire));
}

/// An authenticated gateway source sampled for six ticks; its probe rejects
/// the session on the sixth.
fn six_ticks(login_ok_on_tick_five: bool) -> (Vec<Vec<f64>>, Vec<u32>) {
    let mut sensor = FritzSensor::new(
        "plug".to_string(),
        "http://gw".to_string(),
        "u".to_string(),
        "p".to_string(),
        "1".to_string(),
    );
    let mut b = Backend::new();
    let mut rows = Vec::new();
    let mut acquires = Vec::new();
    for tick in 0..6u32 {
        if tick == 5 {
            b.valid = false;
            b.login_ok = login_ok_on_tick_five;
        }
        let outcome = match authorize(&mut sensor.session, &mut b) {
            Some(_) => Ok(vec![tick as f64, 1.0, 2.0]),
            None => Err(SourceError::Auth),
        };
        rows.push(settle(&outcome, 3, -1.0));
        acquires.push(b.acquires);
    }
    (rows, acquires)
}

#[test]
fn rejected_session_on_tick_five_is_renewed() {
    let (rows, acquires) = six_ticks(true);
    assert_eq!(acquires, vec![1, 1, 1, 1, 1, 2]);
    assert_eq!(rows[5], vec![5.0, 1.0, 2.0]);
}

#[test]
fn rejected_session_on_tick_five_with_failed_login_is_sentinel() {
    let (rows, acquires) = six_ticks(false);
    assert_eq!(acquires, vec![1, 1, 1, 1, 1, 2]);
    assert_eq!(rows[4], vec![4.0, 1.0, 2.0]);
    assert_eq!(rows[5], vec![-1.0, -1.0, -1.0]);
}

/// What the gateway double answers during one tick.
struct Gateway {
    challenge_status: u16,
    login_status: u16,
    values: Vec<(u16, &'static str)>,
}

/// One sampling attempt of a gateway source against the double: log in (or
/// validate), then fetch each metric; a failed fetch reads as the sentinel.
fn measure(sensor: &mut FritzSensor, gw: &Gateway) -> Vec<f64> {
    let mut step = sensor.session.begin();
    let sid = loop {
        step = match step {
            AuthStep::Acquire => {
                let outcome = if gw.challenge_status != 200 || gw.login_status != 200 {
                    Err(SourceError::Transport)
                } else {
                    Ok("000000000000".to_string())
                };
                sensor.session.acquired(outcome)
            }
            AuthStep::Validate { token } => sensor.session.validated(probe_confirms(&token, "0000000000000000")),
            AuthStep::Proceed { token } => break Some(token),
            AuthStep::GiveUp => break None,
        };
    };
    let outcome = match sid {
        None => Err(SourceError::Auth),
        Some(_) => {
            let values: Vec<Option<f64>> = FritzSensor::commands()
                .iter()
                .enumerate()
                .map(|(i, _)| match gw.values.get(i) {
                    Some((200, body)) => body.trim().parse().ok(),
                    _ => None,
                })
                .collect();
            Ok(complete_or_sentinel(&values, -1.0))
        }
    };
    settle(&outcome, sensor.get_names().len(), -1.0)
}

fn gateway_sensor() -> FritzSensor {
    FritzSensor::new("test".to_string(), "http://gw".to_string(), "foo".to_string(), "bar".to_string(), "abc".to_string())
}

#[test]
fn fritz_test_measure_for_failure() {
    let mut sensor = gateway_sensor();
    let refused = Gateway { challenge_status: 406, login_status: 200, values: vec![] };
    assert_eq!(measure(&mut sensor, &refused), vec![-1.0, -1.0, -1.0]);
    let login_refused = Gateway { challenge_status: 200, login_status: 406, values: vec![] };
    assert_eq!(measure(&mut sensor, &login_refused), vec![-1.0, -1.0, -1.0]);
    let no_values = Gateway { challenge_status: 200, login_status: 200, values: vec![(406, "goo")] };
    assert_eq!(measure(&mut sensor, &no_values), vec![-1.0, -1.0, -1.0]);
    let one_failed = Gateway {
        challenge_status: 200,
        login_status: 200,
        values: vec![(200, "10000"), (500, ""), (200, "100")],
    };
    assert_eq!(measure(&mut sensor, &one_failed), vec![-1.0, -1.0, -1.0]);
}

#[test]
fn fritz_test_measure_for_sanity() {
    let mut sensor = gateway_sensor();
    let gw = Gateway {
        challenge_status: 200,
        login_status: 200,
        values: vec![(200, "10000"), (200, "1200"), (200, "100")],
    };
    assert_eq!(measure(&mut sensor, &gw), vec![10000.0, 1200.0, 100.0]);
}
