use vstd::prelude::*;

use crate::error::FillError;
use crate::quantity::{filler_size_from_parsed, parsed_filler_outcome};
use crate::sizing::{desired_accepted, BUFFER_SIZE};

verus! {

/// Where a fill run stands. Storage pools are named by an opaque numeric token
/// that the caller maps to its backend's own identifier.
#[derive(Debug, Clone, Copy, PartialEq, Eq)]
pub enum RunState {
    /// Waiting for the list of attached devices.
    SelectDevice,
    /// Waiting for the user to pick one of `count` devices.
    ChoosingDevice { count: usize },
    /// Waiting for the chosen device to open.
    Opening,
    /// Waiting for the user to pick a storage pool.
    ChoosingPool,
    /// Waiting for the pool's current free space.
    ReadingFree { pool: u32 },
    /// Waiting for the free space the user wants left on the pool.
    AskingDesired { pool: u32, free: u64 },
    /// Waiting for the filler file of `size` bytes to be written.
    Generating { pool: u32, size: u64 },
    /// Waiting for the filler file to reach the device.
    Pushing { pool: u32 },
    /// Waiting for the user to confirm deletion of the local filler file;
    /// `failure` is the error that the run ends with, if any.
    Confirming { pool: u32, failure: Option<FillError> },
    /// Waiting for the local filler file to be deleted.
    Deleting { pool: u32, failure: Option<FillError> },
    /// Waiting for the free space read back after the storage view was refreshed.
    Reporting { pool: u32 },
    /// The run is over: the final free space, or the error it ended with.
    Finished { result: Result<u64, FillError> },
}

/// What the caller reports back after performing an action.
#[derive(Debug, Clone, Copy, PartialEq, Eq)]
pub enum Event {
    /// The device list holds `count` devices.
    DevicesFound { count: usize },
    /// The user picked the device at `index`.
    DeviceChosen { index: usize },
    /// The device is open.
    Opened,
    /// The user picked the pool `pool`.
    PoolChosen { pool: u32 },
    /// A fresh read of the pool's free space.
    FreeSpace { bytes: u64 },
    /// The user's answer, as read by the quantity parser (`None`: unreadable).
    Desired { parsed: Option<u64> },
    /// The filler file has been written in full.
    Generated,
    /// The filler file has been pushed to the device.
    Pushed,
    /// The user's answer to the deletion prompt.
    DeleteAnswered { confirmed: bool },
    /// The local filler file has been removed.
    Deleted,
    /// The last action failed.
    Failed { error: FillError },
}

/// What the caller must do next.
#[derive(Debug, Clone, Copy, PartialEq, Eq)]
pub enum Action {
    /// List the attached devices.
    EnumerateDevices,
    /// Ask the user to pick one of `count` devices.
    ChooseDevice { count: usize },
    /// Open the device at `index`.
    OpenDevice { index: usize },
    /// List the device's storage pools and ask the user to pick one.
    ChoosePool,
    /// Read the pool's free space.
    ReadFreeSpace { pool: u32 },
    /// Ask how much free space should remain; `refused` says why the previous
    /// answer was not taken.
    AskDesired { free: u64, refused: Option<FillError> },
    /// Write a filler file of exactly `size` bytes.
    GenerateFiller { size: u64 },
    /// Push the filler file to the pool.
    PushFile { pool: u32 },
    /// Ask whether the local filler file should be deleted.
    ConfirmDelete,
    /// Delete the local filler file.
    DeleteFile,
    /// Refresh the device's storage view, then read the pool's free space.
    RefreshAndReadFreeSpace { pool: u32 },
    /// Tell the user the run succeeded with `free` bytes left on the pool.
    ReportSuccess { free: u64 },
    /// Tell the user the run failed with `error`.
    Fail { error: FillError },
}

/// Whether a filler file may exist locally in this state.
pub open spec fn filler_may_exist(s: RunState) -> bool {
    match s {
        RunState::Generating { .. } | RunState::Pushing { .. } | RunState::Confirming { .. }
        | RunState::Deleting { .. } => true,
        _ => false,
    }
}

/// The events that a state waits for. A failure is accepted in every state
/// but the last.
pub open spec fn expects(s: RunState, e: Event) -> bool {
    match (s, e) {
        (RunState::Finished { .. }, _) => false,
        (_, Event::Failed { .. }) => true,
        (RunState::SelectDevice, Event::DevicesFound { .. }) => true,
        (RunState::ChoosingDevice { .. }, Event::DeviceChosen { .. }) => true,
        (RunState::Opening, Event::Opened) => true,
        (RunState::ChoosingPool, Event::PoolChosen { .. }) => true,
        (RunState::ReadingFree { .. }, Event::FreeSpace { .. }) => true,
        (RunState::AskingDesired { .. }, Event::Desired { .. }) => true,
        (RunState::Generating { .. }, Event::Generated) => true,
        (RunState::Pushing { .. }, Event::Pushed) => true,
        (RunState::Confirming { .. }, Event::DeleteAnswered { .. }) => true,
        (RunState::Deleting { .. }, Event::Deleted) => true,
        (RunState::Reporting { .. }, Event::FreeSpace { .. }) => true,
        _ => false,
    }
}

/// Ends the run with `error`.
pub open spec fn fail_with(error: FillError) -> (RunState, Action) {
    (RunState::Finished { result: Err(error) }, Action::Fail { error })
}

/// Where cleanup leads once the filler file is dealt with: the failure that
/// was carried, or on to the final report.
pub open spec fn after_cleanup(pool: u32, failure: Option<FillError>) -> (RunState, Action) {
    match failure {
        Some(error) => fail_with(error),
        None => (RunState::Reporting { pool }, Action::RefreshAndReadFreeSpace { pool }),
    }
}

/// The transition table of a fill run.
pub open spec fn next(s: RunState, e: Event) -> (RunState, Action) {
    match (s, e) {
        (RunState::Generating { pool, .. }, Event::Failed { error })
        | (RunState::Pushing { pool }, Event::Failed { error }) => (
            RunState::Confirming { pool, failure: Some(error) },
            Action::ConfirmDelete,
        ),
        (RunState::Confirming { pool, failure }, Event::Failed { error })
        | (RunState::Deleting { pool, failure }, Event::Failed { error }) => match failure {
            Some(first) => fail_with(first),
            None => fail_with(error),
        },
        (_, Event::Failed { error }) => fail_with(error),
        (RunState::SelectDevice, Event::DevicesFound { count }) => if count == 0 {
            fail_with(FillError::NoDeviceFound)
        } else {
            (RunState::ChoosingDevice { count }, Action::ChooseDevice { count })
        },
        (RunState::ChoosingDevice { count }, Event::DeviceChosen { index }) => if index < count {
            (RunState::Opening, Action::OpenDevice { index })
        } else {
            fail_with(FillError::UserInput)
        },
        (RunState::Opening, Event::Opened) => (RunState::ChoosingPool, Action::ChoosePool),
        (RunState::ChoosingPool, Event::PoolChosen { pool }) => (
            RunState::ReadingFree { pool },
            Action::ReadFreeSpace { pool },
        ),
        (RunState::ReadingFree { pool }, Event::FreeSpace { bytes }) => (
            RunState::AskingDesired { pool, free: bytes },
            Action::AskDesired { free: bytes, refused: None },
        ),
        (RunState::AskingDesired { pool, free }, Event::Desired { parsed }) => match parsed_filler_outcome(
            parsed,
            free,
        ) {
            Ok(size) => if size < BUFFER_SIZE {
                fail_with(FillError::InvalidSize)
            } else {
                (RunState::Generating { pool, size }, Action::GenerateFiller { size })
            },
            Err(error) => (
                RunState::AskingDesired { pool, free },
                Action::AskDesired { free, refused: Some(error) },
            ),
        },
        (RunState::Generating { pool, .. }, Event::Generated) => (
            RunState::Pushing { pool },
            Action::PushFile { pool },
        ),
        (RunState::Pushing { pool }, Event::Pushed) => (
            RunState::Confirming { pool, failure: None },
            Action::ConfirmDelete,
        ),
        (RunState::Confirming { pool, failure }, Event::DeleteAnswered { confirmed }) => if confirmed {
            (RunState::Deleting { pool, failure }, Action::DeleteFile)
        } else {
            after_cleanup(pool, failure)
        },
        (RunState::Deleting { pool, failure }, Event::Deleted) => after_cleanup(pool, failure),
        (RunState::Reporting { .. }, Event::FreeSpace { bytes }) => (
            RunState::Finished { result: Ok(bytes) },
            Action::ReportSuccess { free: bytes },
        ),
        _ => (s, Action::Fail { error: FillError::UserInput }),
    }
}

/// The state a run starts in, and its first action.
pub fn start() -> (r: (RunState, Action))
    ensures
        r == (RunState::SelectDevice, Action::EnumerateDevices),
{
    (RunState::SelectDevice, Action::EnumerateDevices)
}

/// Whether `s` waits for `e`; `step` takes only such events.
pub fn accepts(s: RunState, e: Event) -> (r: bool)
    ensures
        r == expects(s, e),
{
    match (s, e) {
        (RunState::Finished { .. }, _) => false,
        (_, Event::Failed { .. }) => true,
        (RunState::SelectDevice, Event::DevicesFound { .. }) => true,
        (RunState::ChoosingDevice { .. }, Event::DeviceChosen { .. }) => true,
        (RunState::Opening, Event::Opened) => true,
        (RunState::ChoosingPool, Event::PoolChosen { .. }) => true,
        (RunState::ReadingFree { .. }, Event::FreeSpace { .. }) => true,
        (RunState::AskingDesired { .. }, Event::Desired { .. }) => true,
        (RunState::Generating { .. }, Event::Generated) => true,
        (RunState::Pushing { .. }, Event::Pushed) => true,
        (RunState::Confirming { .. }, Event::DeleteAnswered { .. }) => true,
        (RunState::Deleting { .. }, Event::Deleted) => true,
        (RunState::Reporting { .. }, Event::FreeSpace { .. }) => true,
        _ => false,
    }
}

fn finish(error: FillError) -> (r: (RunState, Action))
    ensures
        r == fail_with(error),
{
    (RunState::Finished { result: Err(error) }, Action::Fail { error })
}

fn leave_cleanup(pool: u32, failure: Option<FillError>) -> (r: (RunState, Action))
    ensures
        r == after_cleanup(pool, failure),
{
    match failure {
        Some(error) => finish(error),
        None => (RunState::Reporting { pool }, Action::RefreshAndReadFreeSpace { pool }),
    }
}

/// Advances a run by one event and says what the caller must do next.
pub fn step(s: RunState, e: Event) -> (r: (RunState, Action))
    requires
        expects(s, e),
    ensures
        r == next(s, e),
{
    match (s, e) {
        (RunState::Generating { pool, .. }, Event::Failed { error })
        | (RunState::Pushing { pool }, Event::Failed { error }) => (
            RunState::Confirming { pool, failure: Some(error) },
            Action::ConfirmDelete,
        ),
        (RunState::Confirming { failure, .. }, Event::Failed { error })
        | (RunState::Deleting { failure, .. }, Event::Failed { error }) => match failure {
            Some(first) => finish(first),
            None => finish(error),
        },
        (_, Event::Failed { error }) => finish(error),
        (RunState::SelectDevice, Event::DevicesFound { count }) => if count == 0 {
            finish(FillError::NoDeviceFound)
        } else {
            (RunState::ChoosingDevice { count }, Action::ChooseDevice { count })
        },
        (RunState::ChoosingDevice { count }, Event::DeviceChosen { index }) => if index < count {
            (RunState::Opening, Action::OpenDevice { index })
        } else {
            finish(FillError::UserInput)
        },
        (RunState::Opening, Event::Opened) => (RunState::ChoosingPool, Action::ChoosePool),
        (RunState::ChoosingPool, Event::PoolChosen { pool }) => (
            RunState::ReadingFree { pool },
            Action::ReadFreeSpace { pool },
        ),
        (RunState::ReadingFree { pool }, Event::FreeSpace { bytes }) => (
            RunState::AskingDesired { pool, free: bytes },
            Action::AskDesired { free: bytes, refused: None },
        ),
        (RunState::AskingDesired { pool, free }, Event::Desired { parsed }) => match filler_size_from_parsed(
            parsed,
            free,
        ) {
            Ok(size) => if size < BUFFER_SIZE {
                finish(FillError::InvalidSize)
            } else {
                (RunState::Generating { pool, size }, Action::GenerateFiller { size })
            },
            Err(error) => (
                RunState::AskingDesired { pool, free },
                Action::AskDesired { free, refused: Some(error) },
            ),
        },
        (RunState::Generating { pool, .. }, Event::Generated) => (
            RunState::Pushing { pool },
            Action::PushFile { pool },
        ),
        (RunState::Pushing { pool }, Event::Pushed) => (
            RunState::Confirming { pool, failure: None },
            Action::ConfirmDelete,
        ),
        (RunState::Confirming { pool, failure }, Event::DeleteAnswered { confirmed }) => if confirmed {
            (RunState::Deleting { pool, failure }, Action::DeleteFile)
        } else {
            leave_cleanup(pool, failure)
        },
        (RunState::Deleting { pool, failure }, Event::Deleted) => leave_cleanup(pool, failure),
        (RunState::Reporting { .. }, Event::FreeSpace { bytes }) => (
            RunState::Finished { result: Ok(bytes) },
            Action::ReportSuccess { free: bytes },
        ),
        _ => (s, Action::Fail { error: FillError::UserInput }),
    }
}

/// An empty device list ends the run with `NoDeviceFound`, and no selection
/// prompt is asked for.
pub proof fn lemma_no_device_found()
    ensures
        next(RunState::SelectDevice, Event::DevicesFound { count: 0 }) == fail_with(
            FillError::NoDeviceFound,
        ),
{
}

/// Once a filler file may exist, a failure while writing or pushing it still
/// leads to the deletion prompt; whatever the user answers afterwards, and
/// whether or not deletion then succeeds, the run ends with that failure.
pub proof fn lemma_cleanup_after_failure(pool: u32, size: u64, error: FillError, confirmed: bool, later: FillError)
    ensures
        next(RunState::Generating { pool, size }, Event::Failed { error }) == (
            RunState::Confirming { pool, failure: Some(error) },
            Action::ConfirmDelete,
        ),
        next(RunState::Pushing { pool }, Event::Failed { error }) == (
            RunState::Confirming { pool, failure: Some(error) },
            Action::ConfirmDelete,
        ),
        next(
            RunState::Confirming { pool, failure: Some(error) },
            Event::DeleteAnswered { confirmed },
        ) == if confirmed {
            (RunState::Deleting { pool, failure: Some(error) }, Action::DeleteFile)
        } else {
            fail_with(error)
        },
        next(RunState::Deleting { pool, failure: Some(error) }, Event::Deleted) == fail_with(error),
        next(RunState::Deleting { pool, failure: Some(error) }, Event::Failed { error: later })
            == fail_with(error),
        next(RunState::Confirming { pool, failure: Some(error) }, Event::Failed { error: later })
            == fail_with(error),
{
}

/// A failure before any filler file exists ends the run at once with that
/// failure.
pub proof fn lemma_early_failure_ends_run(s: RunState, error: FillError)
    requires
        !filler_may_exist(s),
        !(s is Finished),
    ensures
        next(s, Event::Failed { error }) == fail_with(error),
{
}

/// The final report carries the free space read back from the device, not a
/// figure computed locally.
pub proof fn lemma_report_uses_device_reading(pool: u32, bytes: u64)
    ensures
        next(RunState::Reporting { pool }, Event::FreeSpace { bytes }) == (
            RunState::Finished { result: Ok::<u64, FillError>(bytes) },
            Action::ReportSuccess { free: bytes },
        ),
{
}

/// Success is only ever reported from the reporting state, right after the
/// free space was read again.
pub proof fn lemma_success_only_after_reading(s: RunState, e: Event)
    requires
        expects(s, e),
        next(s, e).1 is ReportSuccess,
    ensures
        s is Reporting,
        e is FreeSpace,
{
}

/// An accepted answer leads to a filler of exactly the difference between the
/// free space and the answer, which is positive; an answer asking for all the
/// free space or more is refused and asked again.
pub proof fn lemma_filler_from_answer(pool: u32, free: u64, desired: u64)
    ensures
        desired_accepted(free, desired) && free - desired >= BUFFER_SIZE ==> next(
            RunState::AskingDesired { pool, free },
            Event::Desired { parsed: Some(desired) },
        ) == (
            RunState::Generating { pool, size: (free - desired) as u64 },
            Action::GenerateFiller { size: (free - desired) as u64 },
        ),
        desired_accepted(free, desired) ==> free - desired > 0,
        desired >= free ==> next(
            RunState::AskingDesired { pool, free },
            Event::Desired { parsed: Some(desired) },
        ) == (
            RunState::AskingDesired { pool, free },
            Action::AskDesired { free, refused: Some(FillError::InvalidSize) },
        ),
{
}

} // verus!
