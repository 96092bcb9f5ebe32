use mtp_filler::error::FillError;
use mtp_filler::filler::FillerPlan;
use mtp_filler::quantity::read_quantity;
use mtp_filler::workflow::{accepts, start, step, Action, Event, RunState};

/// A device stand-in: one pool, a free-space reading before the push, and a
/// different one after the refresh.
struct MockDevice {
    devices: usize,
    free_before: u64,
    free_after: u64,
    answer: &'static str,
    push_fails: bool,
    delete_confirmed: bool,
}

struct Trace {
    actions: Vec<Action>,
    generated: Option<u64>,
    pushed: bool,
}

fn run(mock: &MockDevice) -> Trace {
    let (mut state, mut action) = start();
    let mut trace = Trace { actions: vec![action], generated: None, pushed: false };
    loop {
        let event = match action {
            Action::EnumerateDevices => Event::DevicesFound { count: mock.devices },
            Action::ChooseDevice { .. } => Event::DeviceChosen { index: 0 },
            Action::OpenDevice { .. } => Event::Opened,
            Action::ChoosePool => Event::PoolChosen { pool: 65537 },
            Action::ReadFreeSpace { .. } => Event::FreeSpace { bytes: mock.free_before },
            Action::AskDesired { refused: None, .. } => Event::Desired {
                parsed: read_quantity(mock.answer),
            },
            Action::AskDesired { refused: Some(_), .. } => Event::Failed { error: FillError::UserInput },
            Action::GenerateFiller { size } => {
                let mut plan = FillerPlan::new(size).unwrap();
                let mut total = 0u64;
                while let Some(c) = plan.next_chunk() {
                    total += c.len() as u64;
                }
                trace.generated = Some(total);
                Event::Generated
            }
            Action::PushFile { .. } => {
                if mock.push_fails {
                    Event::Failed { error: FillError::Transfer }
                } else {
                    trace.pushed = true;
                    Event::Pushed
                }
            }
            Action::ConfirmDelete => Event::DeleteAnswered { confirmed: mock.delete_confirmed },
            Action::DeleteFile => Event::Deleted,
            Action::RefreshAndReadFreeSpace { .. } => Event::FreeSpace { bytes: mock.free_after },
            Action::ReportSuccess { .. } | Action::Fail { .. } => break,
        };
        assert!(accepts(state, event));
        let (s, a) = step(state, event);
        state = s;
        action = a;
        trace.actions.push(action);
    }
    trace
}

#[test]
fn end_to_end_fill_reports_the_device_reading() {
    let mock = MockDevice {
        devices: 1,
        free_before: 1_000_000_000,
        free_after: 899_998_000,
        answer: "900000000",
        push_fails: false,
        delete_confirmed: true,
    };
    let trace = run(&mock);
    assert!(trace.actions.contains(&Action::GenerateFiller { size: 100_000_000 }));
    assert_eq!(trace.generated, Some(100_000_000));
    assert!(trace.pushed);
    assert!(trace.actions.contains(&Action::DeleteFile));
    assert_eq!(*trace.actions.last().unwrap(), Action::ReportSuccess { free: 899_998_000 });
}

#[test]
fn failed_transfer_still_offers_cleanup() {
    let mock = MockDevice {
        devices: 1,
        free_before: 1_000_000_000,
        free_after: 0,
        answer: "999000000",
        push_fails: true,
        delete_confirmed: false,
    };
    let trace = run(&mock);
    let n = trace.actions.len();
    assert_eq!(trace.actions[n - 2], Action::ConfirmDelete);
    assert_eq!(trace.actions[n - 1], Action::Fail { error: FillError::Transfer });
    assert!(!trace.pushed);
}

#[test]
fn failed_transfer_with_deletion_still_fails() {
    let s = RunState::Pushing { pool: 3 };
    let (s, a) = step(s, Event::Failed { error: FillError::Transfer });
    assert_eq!(a, Action::ConfirmDelete);
    let (s, a) = step(s, Event::DeleteAnswered { confirmed: true });
    assert_eq!(a, Action::DeleteFile);
    let (s, a) = step(s, Event::Deleted);
    assert_eq!(a, Action::Fail { error: FillError::Transfer });
    assert_eq!(s, RunState::Finished { result: Err(FillError::Transfer) });
}

#[test]
fn failed_generation_offers_cleanup() {
    let s = RunState::Generating { pool: 3, size: 4096 };
    let (_, a) = step(s, Event::Failed { error: FillError::FillerWrite });
    assert_eq!(a, Action::ConfirmDelete);
}

#[test]
fn empty_device_list_fails_without_prompting() {
    let mock = MockDevice {
        devices: 0,
        free_before: 0,
        free_after: 0,
        answer: "0",
        push_fails: false,
        delete_confirmed: true,
    };
    let trace = run(&mock);
    assert_eq!(
        trace.actions,
        vec![Action::EnumerateDevices, Action::Fail { error: FillError::NoDeviceFound }]
    );
}

#[test]
fn out_of_bounds_answer_is_asked_again() {
    let s = RunState::AskingDesired { pool: 1, free: 5000 };
    let (s2, a) = step(s, Event::Desired { parsed: Some(5000) });
    assert_eq!(s2, s);
    assert_eq!(a, Action::AskDesired { free: 5000, refused: Some(FillError::InvalidSize) });
    let (_, a) = step(s, Event::Desired { parsed: None });
    assert_eq!(a, Action::AskDesired { free: 5000, refused: Some(FillError::UserInput) });
    let (_, a) = step(s, Event::Desired { parsed: Some(4999) });
    assert_eq!(a, Action::Fail { error: FillError::InvalidSize });
    let (_, a) = step(s, Event::Desired { parsed: Some(2000) });
    assert_eq!(a, Action::GenerateFiller { size: 3000 });
}

#[test]
fn early_failure_ends_the_run() {
    let (_, a) = step(RunState::ChoosingPool, Event::Failed { error: FillError::StorageEnumeration });
    assert_eq!(a, Action::Fail { error: FillError::StorageEnumeration });
    let (_, a) = step(RunState::ChoosingDevice { count: 2 }, Event::DeviceChosen { index: 2 });
    assert_eq!(a, Action::Fail { error: FillError::UserInput });
}

#[test]
fn finished_run_accepts_nothing() {
    let s = RunState::Finished { result: Ok(5) };
    assert!(!accepts(s, Event::Opened));
    assert!(!accepts(RunState::Opening, Event::Pushed));
    assert!(accepts(RunState::Opening, Event::Failed { error: FillError::DeviceOpen }));
}
