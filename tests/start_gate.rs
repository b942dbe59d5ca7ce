use runt::start_gate::{StartGate, StartStep, START_ATTEMPTS};

fn drive(max_attempts: u32, outcomes: &[bool]) -> (StartStep, usize) {
    let mut gate = StartGate::new(max_attempts);
    let mut made = 0;
    for &opened in outcomes {
        made += 1;
        let step = gate.record(opened);
        if step != StartStep::Retry {
            return (step, made);
        }
    }
    (StartStep::Retry, made)
}

#[test]
fn gate_opened_at_first_attempt_starts() {
    assert_eq!(drive(START_ATTEMPTS, &[true, true]), (StartStep::Started, 1));
}

#[test]
fn gate_opened_after_failures_within_bound_starts() {
    assert_eq!(drive(4, &[false, false, true, false]), (StartStep::Started, 3));
    assert_eq!(drive(4, &[false, false, false, true]), (StartStep::Started, 4));
}

#[test]
fn gate_never_opened_gives_up_after_bound() {
    assert_eq!(
        drive(START_ATTEMPTS, &[false; 10]),
        (StartStep::GiveUp, START_ATTEMPTS as usize)
    );
}

#[test]
fn success_after_bound_is_not_seen() {
    assert_eq!(drive(2, &[false, false, true]), (StartStep::GiveUp, 2));
}

#[test]
fn zero_bound_still_makes_one_attempt() {
    assert_eq!(drive(0, &[true]), (StartStep::Started, 1));
    assert_eq!(drive(0, &[false, true]), (StartStep::GiveUp, 1));
}

#[test]
fn exhausted_gate_keeps_giving_up() {
    let mut gate = StartGate::new(1);
    assert_eq!(gate.record(false), StartStep::GiveUp);
    assert_eq!(gate.record(true), StartStep::GiveUp);
    assert_eq!(gate.failures, 1);
}
