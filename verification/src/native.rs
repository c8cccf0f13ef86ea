//! The native device layer, seen from the session layer: the calls that can
//! be asked of it and the data that it hands back, as plain values.

use vstd::prelude::*;
use crate::error::HikError;
use crate::time::DeviceTime;

verus! {

/// The configuration categories that the session layer queries.
#[derive(Clone, Copy, Debug, PartialEq, Eq)]
pub enum ConfigKind {
    /// The per-channel IP configuration, in its fourth revision.
    IpChannels,
}

/// The commands that steer a running transfer.
#[derive(Clone, Copy, Debug, PartialEq, Eq)]
pub enum PlaybackCommand {
    /// Start the transfer; the command takes no argument.
    Start,
}

/// One call into the native layer, with everything it is to be made with.
#[allow(inconsistent_fields)]
#[derive(Clone, Debug, PartialEq, Eq)]
pub enum NativeCall {
    /// Initialise the layer, once for the process.
    Init,
    /// Open a session.  Answered by a handle, negative on failure, and a
    /// device descriptor.
    Login { host: String, port: u16, username: String, password: String },
    /// Close a session.
    Logout { session: i32 },
    /// Read one group of a configuration category.  Answered by a result,
    /// the number of bytes written and the configuration.
    QueryConfig { session: i32, kind: ConfigKind, group: i32 },
    /// Capture one picture of a channel into a file, with the layer's
    /// default picture parameters.
    CaptureJpeg { session: i32, channel: i32, path: String },
    /// Open a transfer of what a channel recorded between two points in
    /// time.  Answered by a transfer handle, negative on failure.
    OpenFileByTime { session: i32, path: String, channel: u32, start: DeviceTime, stop: DeviceTime },
    /// Steer a transfer.
    PlaybackControl { transfer: i32, command: PlaybackCommand },
    /// Ask how far a transfer has come.
    GetTransferPosition { transfer: i32 },
    /// End a transfer and release its handle.
    StopTransfer { transfer: i32 },
}

/// The mathematical reading of a [`NativeCall`]: text as sequences of
/// characters.
#[allow(inconsistent_fields)]
pub ghost enum NativeCallView {
    Init,
    Login { host: Seq<char>, port: u16, username: Seq<char>, password: Seq<char> },
    Logout { session: i32 },
    QueryConfig { session: i32, kind: ConfigKind, group: i32 },
    CaptureJpeg { session: i32, channel: i32, path: Seq<char> },
    OpenFileByTime { session: i32, path: Seq<char>, channel: u32, start: DeviceTime, stop: DeviceTime },
    PlaybackControl { transfer: i32, command: PlaybackCommand },
    GetTransferPosition { transfer: i32 },
    StopTransfer { transfer: i32 },
}

impl View for NativeCall {
    type V = NativeCallView;

    open spec fn view(&self) -> NativeCallView {
        match *self {
            NativeCall::Init => NativeCallView::Init,
            NativeCall::Login { host, port, username, password } => NativeCallView::Login {
                host: host@,
                port,
                username: username@,
                password: password@,
            },
            NativeCall::Logout { session } => NativeCallView::Logout { session },
            NativeCall::QueryConfig { session, kind, group } => NativeCallView::QueryConfig {
                session,
                kind,
                group,
            },
            NativeCall::CaptureJpeg { session, channel, path } => NativeCallView::CaptureJpeg {
                session,
                channel,
                path: path@,
            },
            NativeCall::OpenFileByTime {
                session,
                path,
                channel,
                start,
                stop,
            } => NativeCallView::OpenFileByTime { session, path: path@, channel, start, stop },
            NativeCall::PlaybackControl { transfer, command } => NativeCallView::PlaybackControl {
                transfer,
                command,
            },
            NativeCall::GetTransferPosition { transfer } => NativeCallView::GetTransferPosition {
                transfer,
            },
            NativeCall::StopTransfer { transfer } => NativeCallView::StopTransfer { transfer },
        }
    }
}

/// The reading of a step that may need no call.
pub open spec fn optional_call(call: Option<NativeCall>) -> Option<NativeCallView> {
    match call {
        Some(call) => Some(call@),
        None => None,
    }
}

/// The reading of a step that names a call or fails without one.
pub open spec fn call_or_error(step: Result<NativeCall, HikError>) -> Result<
    NativeCallView,
    HikError,
> {
    match step {
        Ok(call) => Ok(call@),
        Err(e) => Err(e),
    }
}

/// What a device says of itself when a session is opened.
#[derive(Clone, Copy, Debug, PartialEq, Eq)]
pub struct DeviceDescriptor {
    /// Number of analog channels.
    pub analog_channel_count: u8,
    /// Device number of the first analog channel.
    pub start_analog_channel: u8,
    /// Low byte of the number of IP channels.
    pub ip_channel_count_low: u8,
    /// High byte of the number of IP channels.
    pub digital_channel_count_high: u8,
    /// Device number of the first IP channel.
    pub start_digital_channel: u8,
}

impl DeviceDescriptor {
    /// The number of IP channels, put together from its two bytes.
    pub open spec fn ip_channel_count(self) -> int {
        self.ip_channel_count_low + self.digital_channel_count_high * 256
    }

    /// The number of IP channels, put together from its two bytes.
    pub fn ip_channels(&self) -> (count: u16)
        ensures
            count == self.ip_channel_count(),
    {
        self.ip_channel_count_low as u16 + self.digital_channel_count_high as u16 * 256
    }
}

/// The configured source of one IP channel: its state and its addresses as
/// the device stores them, in zero-padded byte fields.
#[derive(Clone, Debug, PartialEq, Eq)]
pub struct IpDeviceInfo {
    /// 1 where the source is enabled.
    pub enable: u8,
    pub ipv4: Vec<u8>,
    pub ipv6: Vec<u8>,
}

/// How the stream of one IP channel is obtained.  The device stores a type
/// code and, beside it, data whose meaning depends on the code; only the
/// data of the code in force is held here.
#[derive(Clone, Copy, Debug, PartialEq, Eq)]
pub enum StreamMode {
    /// Type code 0: the stream comes straight from channel `channel` of the
    /// source device.
    Direct { channel: u8 },
    /// Any other way of obtaining the stream, known by its type code alone.
    Other { stream_type: u8 },
}

impl StreamMode {
    /// The type code of stream modes that address a channel directly.
    pub const DIRECT: u8 = 0;

    /// Whether data stored under type code `stream_type` is that of a
    /// directly addressed channel.
    pub fn is_direct(stream_type: u8) -> (direct: bool)
        ensures
            direct == (stream_type == StreamMode::DIRECT),
    {
        stream_type == StreamMode::DIRECT
    }

    /// The type code of this mode.
    pub open spec fn spec_type_code(self) -> u8 {
        match self {
            StreamMode::Direct { .. } => StreamMode::DIRECT,
            StreamMode::Other { stream_type } => stream_type,
        }
    }

    /// The channel of the source device, where the mode addresses one.
    pub open spec fn spec_channel(self) -> Option<u8> {
        match self {
            StreamMode::Direct { channel } => Some(channel),
            StreamMode::Other { .. } => None,
        }
    }

    /// The type code of this mode.
    pub fn type_code(&self) -> (code: u8)
        ensures
            code == self.spec_type_code(),
    {
        match self {
            StreamMode::Direct { .. } => StreamMode::DIRECT,
            StreamMode::Other { stream_type } => *stream_type,
        }
    }

    /// The channel of the source device, where the mode addresses one.
    pub fn channel(&self) -> (channel: Option<u8>)
        ensures
            channel == self.spec_channel(),
    {
        match self {
            StreamMode::Direct { channel } => Some(*channel),
            StreamMode::Other { .. } => None,
        }
    }
}

/// The per-channel configuration of a device.  Position in each list is the
/// channel's index.
#[derive(Clone, Debug, PartialEq, Eq)]
pub struct IpChannelConfig {
    /// For each analog channel, 1 where it is enabled.
    pub analog_enable: Vec<u8>,
    /// For each IP channel, its configured source.
    pub ip_devices: Vec<IpDeviceInfo>,
    /// For each IP channel, how its stream is obtained.
    pub stream_modes: Vec<StreamMode>,
}

} // verus!
