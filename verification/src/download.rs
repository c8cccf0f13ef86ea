//! The download of a recording, as a state machine.
//!
//! A download is created around a transfer handle that the device has
//! already granted.  It is started, asked for its progress while it runs,
//! and stopped, which releases the handle.  Each step names the native call
//! to make; the matching `*_reply` takes what the call returned.

use vstd::prelude::*;
use crate::error::{answered, Failure, HikError, Operation, Reply};
use crate::native::{call_or_error, optional_call, NativeCall, NativeCallView, PlaybackCommand};

verus! {

/// Where a download stands.
#[derive(Clone, Copy, Debug, PartialEq, Eq)]
pub enum DownloadState {
    /// The handle is held; the transfer has not been started.
    Created,
    /// The transfer runs and can be asked for its progress.
    Started,
    /// The transfer was stopped and its handle given back.
    Stopped,
}

/// One transfer of a recording.
#[derive(Debug, PartialEq, Eq)]
pub struct HikDownload {
    handle: i32,
    state: DownloadState,
}

/// The mathematical reading of a [`HikDownload`].
pub ghost struct DownloadView {
    pub handle: i32,
    pub state: DownloadState,
}

impl DownloadView {
    /// The call that starts this download: none where it already runs.
    pub open spec fn start_call(self) -> Option<NativeCallView> {
        if self.state == DownloadState::Started {
            None
        } else {
            Some(
                NativeCallView::PlaybackControl {
                    transfer: self.handle,
                    command: PlaybackCommand::Start,
                },
            )
        }
    }

    /// The call that reads the progress of this download, which only a
    /// running download has.
    pub open spec fn progress_call(self) -> Result<NativeCallView, HikError> {
        if self.state == DownloadState::Started {
            Ok(NativeCallView::GetTransferPosition { transfer: self.handle })
        } else {
            Err(HikError::NotStarted)
        }
    }

    /// This download after a stop.
    pub open spec fn stopped(self) -> DownloadView {
        DownloadView { handle: self.handle, state: DownloadState::Stopped }
    }

    /// This download after the device has answered a start with `result`.
    pub open spec fn start_answered(self, result: i32) -> DownloadView {
        if result == 1 {
            DownloadView { handle: self.handle, state: DownloadState::Started }
        } else {
            self
        }
    }
}

impl View for HikDownload {
    type V = DownloadView;

    closed spec fn view(&self) -> DownloadView {
        DownloadView { handle: self.handle, state: self.state }
    }
}

/// What a reported transfer position means.  Positions from 0 to 100 are
/// percentages; -1 is a failure that the last-error code explains; 200 is a
/// loss of connection; anything else is a failure without a code.
pub open spec fn progress_of(position: i32) -> Reply<i32> {
    if 0 <= position <= 100 {
        Reply::Done(Ok(position))
    } else if position == -1 {
        Reply::NeedErrorCode(Failure { operation: Operation::ProgressQuery, bytes_returned: 0 })
    } else if position == 200 {
        Reply::Done(Err(HikError::NetworkError))
    } else {
        Reply::Done(Err(HikError::ProgressQueryFailed { code: None }))
    }
}

/// Whether a monitor that has seen `outcome` polls again: it does while the
/// transfer reports progress short of 100.
pub open spec fn polls_again(outcome: Result<i32, HikError>) -> bool {
    outcome matches Ok(progress) && progress < 100
}

impl HikDownload {
    /// Milliseconds that a monitor waits between two polls.
    pub const POLL_INTERVAL_MS: u64 = 500;

    /// A download around a transfer handle that the device has granted.
    pub fn new(handle: i32) -> (download: Self)
        ensures
            download@ == (DownloadView { handle, state: DownloadState::Created }),
    {
        HikDownload { handle, state: DownloadState::Created }
    }

    /// Starts the transfer.  Nothing is to be done where it already runs;
    /// else the device is to be told to start it, and the answer handed to
    /// [`HikDownload::start_reply`].
    pub fn start(&self) -> (call: Option<NativeCall>)
        ensures
            optional_call(call) == self@.start_call(),
    {
        match self.state {
            DownloadState::Started => None,
            _ => Some(
                NativeCall::PlaybackControl {
                    transfer: self.handle,
                    command: PlaybackCommand::Start,
                },
            ),
        }
    }

    /// Takes the device's answer to a start.  The transfer runs from now on
    /// where the device agreed; a refusal leaves the download as it was.
    pub fn start_reply(&mut self, result: i32) -> (reply: Reply<()>)
        ensures
            final(self)@ == old(self)@.start_answered(result),
            reply == answered(Operation::PlaybackControl, result),
    {
        if result != 1 {
            return Reply::NeedErrorCode(Failure::of(Operation::PlaybackControl));
        }
        self.state = DownloadState::Started;
        Reply::Done(Ok(()))
    }

    /// Asks for the progress of the transfer.  Only a running transfer has
    /// one: of any other, no call is made.
    pub fn get_progress(&self) -> (call: Result<NativeCall, HikError>)
        ensures
            call_or_error(call) == self@.progress_call(),
    {
        match self.state {
            DownloadState::Started => Ok(NativeCall::GetTransferPosition { transfer: self.handle }),
            _ => Err(HikError::NotStarted),
        }
    }

    /// Takes the position that the device reported.
    pub fn progress_reply(&self, position: i32) -> (reply: Reply<i32>)
        ensures
            reply == progress_of(position),
    {
        if position < 0 || position > 100 {
            if position == -1 {
                return Reply::NeedErrorCode(Failure::of(Operation::ProgressQuery));
            } else if position == 200 {
                return Reply::Done(Err(HikError::NetworkError));
            }
            return Reply::Done(Err(HikError::ProgressQueryFailed { code: None }));
        }
        Reply::Done(Ok(position))
    }

    /// Stops the transfer, whatever state it is in: the download counts as
    /// stopped at once, and the device is to be told to end the transfer
    /// and release the handle.
    pub fn stop(&mut self) -> (call: NativeCall)
        ensures
            final(self)@ == old(self)@.stopped(),
            call@ == (NativeCallView::StopTransfer { transfer: old(self)@.handle }),
    {
        self.state = DownloadState::Stopped;
        NativeCall::StopTransfer { transfer: self.handle }
    }

    /// Takes the device's answer to a stop.  The download stays stopped
    /// whatever the answer.
    pub fn stop_reply(&self, result: i32) -> (reply: Reply<()>)
        ensures
            reply == answered(Operation::StopTransfer, result),
    {
        if result != 1 {
            return Reply::NeedErrorCode(Failure::of(Operation::StopTransfer));
        }
        Reply::Done(Ok(()))
    }

    /// Decides [`polls_again`].
    pub fn keep_polling(outcome: &Result<i32, HikError>) -> (again: bool)
        ensures
            again == polls_again(*outcome),
    {
        match outcome {
            Ok(progress) => *progress < 100,
            Err(_) => false,
        }
    }

    /// The transfer handle.
    pub fn handle(&self) -> (handle: i32)
        ensures
            handle == self@.handle,
    {
        self.handle
    }

    /// Where the download stands.
    pub fn state(&self) -> (state: DownloadState)
        ensures
            state == self@.state,
    {
        self.state
    }
}

/// Stopping leaves a download stopped whatever state it was in, and a
/// second stop changes nothing more.
pub proof fn lemma_stop_is_idempotent(download: DownloadView)
    ensures
        download.stopped().state == DownloadState::Stopped,
        download.stopped().handle == download.handle,
        download.stopped().stopped() == download.stopped(),
{
}

/// A stopped download stays stopped however a later start is refused.
pub proof fn lemma_refused_start_changes_nothing(download: DownloadView, result: i32)
    requires
        result != 1,
    ensures
        download.start_answered(result) == download,
{
}

/// Of a download that does not run no progress is asked: the step fails,
/// and names no call.
pub proof fn lemma_no_progress_unless_started(download: DownloadView)
    ensures
        download.state != DownloadState::Started <==> download.progress_call() == Err::<
            NativeCallView,
            HikError,
        >(HikError::NotStarted),
{
}

/// A monitor polls again exactly while the device reports a position from
/// 0 to 99: it ends at 100 and at every failure, whatever the code.
pub proof fn lemma_monitor_ends_at_100_or_failure(position: i32, code: i32)
    ensures
        polls_again(progress_of(position).settled(code)) <==> 0 <= position < 100,
{
}

/// A position is taken as progress exactly when it lies between 0 and 100,
/// and is then handed on unchanged; of the others, -1 alone asks for the
/// last-error code and 200 alone is a loss of connection.
pub proof fn lemma_progress_classes(position: i32)
    ensures
        0 <= position <= 100 <==> progress_of(position) == Reply::Done(
            Ok::<i32, HikError>(position),
        ),
        position == -1 <==> progress_of(position) is NeedErrorCode,
        position == 200 <==> progress_of(position) == Reply::Done(
            Err::<i32, HikError>(HikError::NetworkError),
        ),
        progress_of(position) matches Reply::Done(Ok(progress)) ==> 0 <= progress <= 100,
{
}

} // verus!
