//! The session with one device.
//!
//! A session is opened by a login and closed by a logout.  While it is open
//! the device can be asked for its channels, for a picture of a channel and
//! for the recording of a channel between two points in time.  Each
//! operation names the native call to make; the matching `*_reply` takes
//! what the call returned.

use vstd::prelude::*;
use crate::channel::{
    channel_views,
    config_covers,
    resolve_channels,
    resolved_channels,
    ChannelView,
};
pub use crate::channel::{Channel, ChannelInfo, HikDeviceInfo};
use crate::download::{DownloadState, DownloadView};
pub use crate::download::HikDownload;
use crate::error::{answered, Failure, HikError, Operation, Reply};
use crate::native::{
    call_or_error,
    optional_call,
    ConfigKind,
    DeviceDescriptor,
    IpChannelConfig,
    NativeCall,
    NativeCallView,
};
use crate::text::{is_c_string, is_c_text};
use crate::time::{calendar_of, DeviceTime};

verus! {

/// An open session: the handle that the device granted, and what the
/// device said of itself when it granted it.
pub ghost struct Session {
    pub handle: i32,
    pub descriptor: DeviceDescriptor,
}

#[derive(Debug)]
struct OpenSession {
    handle: i32,
    info: HikDeviceInfo,
}

/// The session layer's end of the connection to one device.  It holds a
/// session from a successful login until the next logout.
#[derive(Debug)]
pub struct HikDevice {
    session: Option<OpenSession>,
}

impl View for HikDevice {
    type V = Option<Session>;

    closed spec fn view(&self) -> Option<Session> {
        match self.session {
            Some(open) => Some(Session { handle: open.handle, descriptor: open.info@ }),
            None => None,
        }
    }
}

/// The call that opens a session.  Text that holds a NUL character cannot
/// be sent and is refused.
pub open spec fn login_call(host: Seq<char>, username: Seq<char>, password: Seq<char>, port: u16)
    -> Result<NativeCallView, HikError> {
    if is_c_text(host) && is_c_text(username) && is_c_text(password) {
        Ok(NativeCallView::Login { host, port, username, password })
    } else {
        Err(HikError::InvalidString)
    }
}

/// The session after the device has answered a login with `result` and
/// `descriptor`: a result that is not negative is the handle of a new
/// session, which takes the place of any earlier one.
pub open spec fn login_answered(session: Option<Session>, result: i32, descriptor: DeviceDescriptor)
    -> Option<Session> {
    if result >= 0 {
        Some(Session { handle: result, descriptor })
    } else {
        session
    }
}

/// The call that closes a session, where one is open.
pub open spec fn logout_call(session: Option<Session>) -> Option<NativeCallView> {
    match session {
        Some(s) => Some(NativeCallView::Logout { session: s.handle }),
        None => None,
    }
}

/// The call that reads the per-channel configuration: group 0 of the IP
/// channel category.
pub open spec fn config_call(session: Option<Session>) -> Result<NativeCallView, HikError> {
    match session {
        Some(s) => Ok(
            NativeCallView::QueryConfig { session: s.handle, kind: ConfigKind::IpChannels, group: 0 },
        ),
        None => Err(HikError::NoSession),
    }
}

/// The call that captures a picture of `channel` into the file at `path`.
pub open spec fn capture_call(session: Option<Session>, channel: u16, path: Seq<char>) -> Result<
    NativeCallView,
    HikError,
> {
    match session {
        Some(s) => if is_c_text(path) {
            Ok(NativeCallView::CaptureJpeg { session: s.handle, channel: channel as i32, path })
        } else {
            Err(HikError::InvalidString)
        },
        None => Err(HikError::NoSession),
    }
}

/// The call that opens the transfer of what `channel` recorded from `start`
/// to `stop` into the file at `path`.
pub open spec fn transfer_call(
    session: Option<Session>,
    path: Seq<char>,
    channel: u16,
    start: DeviceTime,
    stop: DeviceTime,
) -> Result<NativeCallView, HikError> {
    match session {
        Some(s) => if is_c_text(path) {
            Ok(
                NativeCallView::OpenFileByTime {
                    session: s.handle,
                    path,
                    channel: channel as u32,
                    start,
                    stop,
                },
            )
        } else {
            Err(HikError::InvalidString)
        },
        None => Err(HikError::NoSession),
    }
}

/// Where a login stands after the device has answered it with `result`.
pub open spec fn login_replied(result: i32) -> Reply<()> {
    if result >= 0 {
        Reply::Done(Ok(()))
    } else {
        Reply::NeedErrorCode(Failure { operation: Operation::Login, bytes_returned: 0 })
    }
}

/// Where a configuration query stands after the device has answered it.
pub open spec fn config_answered(result: i32, bytes_returned: u32, config: IpChannelConfig)
    -> Reply<IpChannelConfig> {
    if result == 1 {
        Reply::Done(Ok(config))
    } else {
        Reply::NeedErrorCode(Failure { operation: Operation::ConfigQuery, bytes_returned })
    }
}

/// Where the listing of channels stands after the device has answered the
/// configuration query.
pub open spec fn channels_answered(
    session: Option<Session>,
    result: i32,
    bytes_returned: u32,
    config: IpChannelConfig,
) -> Reply<Seq<ChannelView>> {
    if result != 1 {
        Reply::NeedErrorCode(Failure { operation: Operation::ConfigQuery, bytes_returned })
    } else {
        match session {
            Some(s) => if config_covers(s.descriptor, config) {
                Reply::Done(Ok(resolved_channels(s.descriptor, config)))
            } else {
                Reply::Done(Err(HikError::MalformedResponse))
            },
            None => Reply::Done(Err(HikError::NoSession)),
        }
    }
}

/// Where the opening of a transfer stands after the device has answered
/// with `handle`: a handle that is not negative is that of a new download.
pub open spec fn transfer_answered(handle: i32) -> Reply<DownloadView> {
    if handle >= 0 {
        Reply::Done(Ok(DownloadView { handle, state: DownloadState::Created }))
    } else {
        Reply::NeedErrorCode(Failure { operation: Operation::FileQuery, bytes_returned: 0 })
    }
}

/// The reading of a reply that may hold channels.
pub open spec fn channels_reply_view(reply: Reply<Vec<Channel>>) -> Reply<Seq<ChannelView>> {
    match reply {
        Reply::Done(Ok(channels)) => Reply::Done(Ok(channel_views(channels@))),
        Reply::Done(Err(e)) => Reply::Done(Err(e)),
        Reply::NeedErrorCode(failure) => Reply::NeedErrorCode(failure),
    }
}

/// The reading of a reply that may hold a download.
pub open spec fn download_reply_view(reply: Reply<HikDownload>) -> Reply<DownloadView> {
    match reply {
        Reply::Done(Ok(download)) => Reply::Done(Ok(download@)),
        Reply::Done(Err(e)) => Reply::Done(Err(e)),
        Reply::NeedErrorCode(failure) => Reply::NeedErrorCode(failure),
    }
}

impl HikDevice {
    /// A device end without a session.
    pub fn new() -> (device: Self)
        ensures
            device@ is None,
    {
        HikDevice { session: None }
    }

    /// Whether a session is open.
    pub fn is_logged_in(&self) -> (open: bool)
        ensures
            open == self@.is_some(),
    {
        self.session.is_some()
    }

    /// Opens a session with the device at `ip`.  Names the call to make;
    /// the answer goes to [`HikDevice::login_reply`].
    pub fn login(&self, ip: &str, username: &str, password: &str, port: u16) -> (call: Result<
        NativeCall,
        HikError,
    >)
        ensures
            call_or_error(call) == login_call(ip@, username@, password@, port),
    {
        if !is_c_string(ip) || !is_c_string(username) || !is_c_string(password) {
            return Err(HikError::InvalidString);
        }
        Ok(
            NativeCall::Login {
                host: ip.to_owned(),
                port,
                username: username.to_owned(),
                password: password.to_owned(),
            },
        )
    }

    /// Takes the device's answer to a login.  A negative result is a
    /// failure and leaves the session layer as it was.
    pub fn login_reply(&mut self, result: i32, descriptor: DeviceDescriptor) -> (reply: Reply<()>)
        ensures
            final(self)@ == login_answered(old(self)@, result, descriptor),
            reply == login_replied(result),
    {
        if result < 0 {
            return Reply::NeedErrorCode(Failure::of(Operation::Login));
        }
        self.session = Some(OpenSession { handle: result, info: HikDeviceInfo::new(descriptor) });
        Reply::Done(Ok(()))
    }

    /// Closes the session.  The session is forgotten at once; where one was
    /// open, the device is to be told, and what it answers changes nothing.
    pub fn logout(&mut self) -> (call: Option<NativeCall>)
        ensures
            final(self)@ is None,
            optional_call(call) == logout_call(old(self)@),
    {
        let call = match &self.session {
            Some(open) => Some(NativeCall::Logout { session: open.handle }),
            None => None,
        };
        self.session = None;
        call
    }

    /// Takes the device's answer to a logout, for those who want to know
    /// whether the device released the session.
    pub fn logout_reply(&self, result: i32) -> (reply: Reply<()>)
        ensures
            reply == answered(Operation::Logout, result),
    {
        if result != 1 {
            return Reply::NeedErrorCode(Failure::of(Operation::Logout));
        }
        Reply::Done(Ok(()))
    }

    /// Lists the channels of the device.  Names the configuration query to
    /// make; the answer goes to [`HikDevice::channels_reply`].
    pub fn get_channels(&self) -> (call: Result<NativeCall, HikError>)
        ensures
            call_or_error(call) == config_call(self@),
    {
        self.get_ip_channel_config()
    }

    /// Takes the device's answer to the configuration query of a channel
    /// listing, and joins the channels that the device announced at login
    /// with the configuration.
    pub fn channels_reply(&self, result: i32, bytes_returned: u32, config: &IpChannelConfig) -> (reply:
        Reply<Vec<Channel>>)
        ensures
            channels_reply_view(reply) == channels_answered(self@, result, bytes_returned, *config),
    {
        if result != 1 {
            return Reply::NeedErrorCode(
                Failure { operation: Operation::ConfigQuery, bytes_returned },
            );
        }
        match &self.session {
            Some(open) => Reply::Done(resolve_channels(&open.info, config)),
            None => Reply::Done(Err(HikError::NoSession)),
        }
    }

    /// Reads the per-channel configuration of the device.  Names the query
    /// to make; the answer goes to [`HikDevice::ip_channel_config_reply`].
    pub fn get_ip_channel_config(&self) -> (call: Result<NativeCall, HikError>)
        ensures
            call_or_error(call) == config_call(self@),
    {
        match &self.session {
            Some(open) => Ok(
                NativeCall::QueryConfig {
                    session: open.handle,
                    kind: ConfigKind::IpChannels,
                    group: 0,
                },
            ),
            None => Err(HikError::NoSession),
        }
    }

    /// Takes the device's answer to a configuration query.  A failed query
    /// keeps the number of bytes that it wrote.
    pub fn ip_channel_config_reply(&self, result: i32, bytes_returned: u32, config: IpChannelConfig)
        -> (reply: Reply<IpChannelConfig>)
        ensures
            reply == config_answered(result, bytes_returned, config),
    {
        if result != 1 {
            return Reply::NeedErrorCode(
                Failure { operation: Operation::ConfigQuery, bytes_returned },
            );
        }
        Reply::Done(Ok(config))
    }

    /// Captures a picture of `channel` into `file`.  Names the call to
    /// make; the answer goes to [`HikDevice::capture_reply`].
    pub fn capture_jpeg_picture(&self, channel: u16, file: &str) -> (call: Result<
        NativeCall,
        HikError,
    >)
        ensures
            call_or_error(call) == capture_call(self@, channel, file@),
    {
        let session: i32 = match &self.session {
            Some(open) => open.handle,
            None => {
                return Err(HikError::NoSession);
            },
        };
        if !is_c_string(file) {
            return Err(HikError::InvalidString);
        }
        Ok(NativeCall::CaptureJpeg { session, channel: channel as i32, path: file.to_owned() })
    }

    /// Takes the device's answer to a capture.
    pub fn capture_reply(&self, result: i32) -> (reply: Reply<()>)
        ensures
            reply == answered(Operation::Capture, result),
    {
        if result != 1 {
            return Reply::NeedErrorCode(Failure::of(Operation::Capture));
        }
        Reply::Done(Ok(()))
    }

    /// Downloads into `file` what `channel` recorded from `start_time` to
    /// `end_time`, both read in the device's own calendar.  Names the call
    /// to make; the answer goes to [`HikDevice::file_by_time_reply`].
    pub fn get_file_by_time(
        &self,
        file: &str,
        channel: u16,
        start_time: &chrono::NaiveDateTime,
        end_time: &chrono::NaiveDateTime,
    ) -> (call: Result<NativeCall, HikError>)
        ensures
            call_or_error(call) == transfer_call(
                self@,
                file@,
                channel,
                calendar_of(*start_time),
                calendar_of(*end_time),
            ),
            call is Ok ==> calendar_of(*start_time).is_calendar() && calendar_of(
                *end_time,
            ).is_calendar(),
    {
        if self.session.is_none() {
            return Err(HikError::NoSession);
        }
        let start = DeviceTime::from_naive(start_time);
        let stop = DeviceTime::from_naive(end_time);
        self.get_file_between(file, channel, start, stop)
    }

    /// Downloads into `file` what `channel` recorded from `start` to
    /// `stop`, the two given by their calendar fields.
    pub fn get_file_between(&self, file: &str, channel: u16, start: DeviceTime, stop: DeviceTime)
        -> (call: Result<NativeCall, HikError>)
        ensures
            call_or_error(call) == transfer_call(self@, file@, channel, start, stop),
    {
        let session: i32 = match &self.session {
            Some(open) => open.handle,
            None => {
                return Err(HikError::NoSession);
            },
        };
        if !is_c_string(file) {
            return Err(HikError::InvalidString);
        }
        Ok(
            NativeCall::OpenFileByTime {
                session,
                path: file.to_owned(),
                channel: channel as u32,
                start,
                stop,
            },
        )
    }

    /// Takes the device's answer to the opening of a transfer: a handle
    /// that is not negative becomes a download, not yet started.
    pub fn file_by_time_reply(&self, handle: i32) -> (reply: Reply<HikDownload>)
        ensures
            download_reply_view(reply) == transfer_answered(handle),
    {
        if handle < 0 {
            return Reply::NeedErrorCode(Failure::of(Operation::FileQuery));
        }
        Reply::Done(Ok(HikDownload::new(handle)))
    }
}

/// A login that the device refuses ends in the login error, with the code
/// fetched for it as the code of that error, and opens no session; any
/// other login succeeds and opens one.
pub proof fn lemma_login_outcome(
    session: Option<Session>,
    result: i32,
    descriptor: DeviceDescriptor,
    code: i32,
)
    ensures
        result < 0 ==> login_replied(result).settled(code) == Err::<(), HikError>(
            HikError::LoginFailed { code },
        ) && login_answered(session, result, descriptor) == session,
        result >= 0 ==> login_replied(result).settled(code) == Ok::<(), HikError>(())
            && login_answered(session, result, descriptor) is Some,
{
}

/// Without a session every operation but login and logout fails for want
/// of one, and names no call.
pub proof fn lemma_no_session_no_call(
    channel: u16,
    path: Seq<char>,
    start: DeviceTime,
    stop: DeviceTime,
    result: i32,
    bytes_returned: u32,
    config: IpChannelConfig,
)
    ensures
        config_call(None) == Err::<NativeCallView, HikError>(HikError::NoSession),
        capture_call(None, channel, path) == Err::<NativeCallView, HikError>(HikError::NoSession),
        transfer_call(None, path, channel, start, stop) == Err::<NativeCallView, HikError>(
            HikError::NoSession,
        ),
        result == 1 ==> channels_answered(None, result, bytes_returned, config) == Reply::Done(
            Err::<Seq<ChannelView>, HikError>(HikError::NoSession),
        ),
{
}

} // verus!
