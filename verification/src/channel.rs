//! Channels of a device and how they are resolved.
//!
//! A device announces its channels in its descriptor: so many analog
//! channels from one device number on, so many IP channels from another.
//! What it knows of each channel stands in its configuration, by the
//! channel's index.  Resolving joins the two.

use vstd::prelude::*;
use crate::error::HikError;
use crate::native::{DeviceDescriptor, IpChannelConfig, IpDeviceInfo, StreamMode};
use crate::text::{address_text, decode_address};

verus! {

/// What is known of one channel.
#[derive(Clone, Debug, PartialEq, Eq)]
pub struct ChannelInfo {
    index: u16,
    chan_num: u32,
    enable: bool,
    get_stream_type: Option<u8>,
    stream_channel: Option<u8>,
    ipv4_address: Option<String>,
    ipv6_address: Option<String>,
}

/// The mathematical reading of a [`ChannelInfo`].
pub ghost struct ChannelInfoView {
    /// Position of the channel among those of its kind, from zero.
    pub index: int,
    /// The number by which the device knows the channel.
    pub chan_num: int,
    pub enable: bool,
    /// Type code of the way the stream is obtained; IP channels only.
    pub get_stream_type: Option<u8>,
    /// Channel of the source device, where the stream comes straight from
    /// one; IP channels only.
    pub stream_channel: Option<u8>,
    pub ipv4_address: Option<Seq<char>>,
    pub ipv6_address: Option<Seq<char>>,
}

/// A channel of a device: an analog input of its own, or a source on the
/// network.
#[derive(Clone, Debug, PartialEq, Eq)]
pub enum Channel {
    Logic(ChannelInfo),
    IP(ChannelInfo),
}

/// The mathematical reading of a [`Channel`].
pub ghost enum ChannelView {
    Logic(ChannelInfoView),
    IP(ChannelInfoView),
}

/// The text of an optional string.
pub open spec fn text_of(s: Option<String>) -> Option<Seq<char>> {
    match s {
        Some(s) => Some(s@),
        None => None,
    }
}

impl View for ChannelInfo {
    type V = ChannelInfoView;

    closed spec fn view(&self) -> ChannelInfoView {
        ChannelInfoView {
            index: self.index as int,
            chan_num: self.chan_num as int,
            enable: self.enable,
            get_stream_type: self.get_stream_type,
            stream_channel: self.stream_channel,
            ipv4_address: text_of(self.ipv4_address),
            ipv6_address: text_of(self.ipv6_address),
        }
    }
}

impl View for Channel {
    type V = ChannelView;

    open spec fn view(&self) -> ChannelView {
        match *self {
            Channel::Logic(info) => ChannelView::Logic(info@),
            Channel::IP(info) => ChannelView::IP(info@),
        }
    }
}

impl ChannelView {
    /// What is known of the channel, whatever its kind.
    pub open spec fn info(self) -> ChannelInfoView {
        match self {
            ChannelView::Logic(info) => info,
            ChannelView::IP(info) => info,
        }
    }
}

/// The readings of a list of channels, in order.
pub open spec fn channel_views(channels: Seq<Channel>) -> Seq<ChannelView> {
    Seq::new(channels.len(), |k: int| channels[k]@)
}

/// A channel of which only index and number are known: disabled, and
/// nothing said of stream or addresses.
pub open spec fn bare_info(index: int, chan_num: int) -> ChannelInfoView {
    ChannelInfoView {
        index,
        chan_num,
        enable: false,
        get_stream_type: None,
        stream_channel: None,
        ipv4_address: None,
        ipv6_address: None,
    }
}

/// The channels that a descriptor announces: the analog channels, then the
/// IP channels, each numbered from its own start.
pub open spec fn announced_channels(d: DeviceDescriptor) -> Seq<ChannelView> {
    Seq::new(
        (d.analog_channel_count + d.ip_channel_count()) as nat,
        |k: int|
            if k < d.analog_channel_count {
                ChannelView::Logic(bare_info(k, d.start_analog_channel + k))
            } else {
                ChannelView::IP(
                    bare_info(
                        k - d.analog_channel_count,
                        d.start_digital_channel + (k - d.analog_channel_count),
                    ),
                )
            },
    )
}

/// Whether a configuration has an entry for every channel that the
/// descriptor announces.
pub open spec fn config_covers(d: DeviceDescriptor, c: IpChannelConfig) -> bool {
    &&& d.analog_channel_count <= c.analog_enable@.len()
    &&& d.ip_channel_count() <= c.ip_devices@.len()
    &&& d.ip_channel_count() <= c.stream_modes@.len()
}

/// Analog channel `i` of a device, joined with its configuration: only
/// whether it is enabled is known of it.
pub open spec fn logic_channel(d: DeviceDescriptor, c: IpChannelConfig, i: int) -> ChannelInfoView {
    ChannelInfoView {
        index: i,
        chan_num: d.start_analog_channel + i,
        enable: c.analog_enable@[i] == 1,
        get_stream_type: None,
        stream_channel: None,
        ipv4_address: None,
        ipv6_address: None,
    }
}

/// IP channel `i` of a device, joined with its configuration.  The channel
/// of the source device is known only where the stream mode addresses one.
pub open spec fn ip_channel(d: DeviceDescriptor, c: IpChannelConfig, i: int) -> ChannelInfoView {
    ChannelInfoView {
        index: i,
        chan_num: d.start_digital_channel + i,
        enable: c.ip_devices@[i].enable == 1,
        get_stream_type: Some(c.stream_modes@[i].spec_type_code()),
        stream_channel: c.stream_modes@[i].spec_channel(),
        ipv4_address: Some(address_text(c.ip_devices@[i].ipv4@)),
        ipv6_address: Some(address_text(c.ip_devices@[i].ipv6@)),
    }
}

/// The channels of a device, each joined with its configuration.
pub open spec fn resolved_channels(d: DeviceDescriptor, c: IpChannelConfig) -> Seq<ChannelView> {
    Seq::new(
        (d.analog_channel_count + d.ip_channel_count()) as nat,
        |k: int|
            if k < d.analog_channel_count {
                ChannelView::Logic(logic_channel(d, c, k))
            } else {
                ChannelView::IP(ip_channel(d, c, k - d.analog_channel_count))
            },
    )
}

impl ChannelInfo {
    /// A channel of which only index and number are known.
    pub fn new(index: u16, chan_num: u32) -> (info: Self)
        ensures
            info@ == bare_info(index as int, chan_num as int),
    {
        ChannelInfo {
            index,
            chan_num,
            enable: false,
            get_stream_type: None,
            stream_channel: None,
            ipv4_address: None,
            ipv6_address: None,
        }
    }

    /// Position of the channel among those of its kind, from zero.
    pub fn get_index(&self) -> (index: u16)
        ensures
            index == self@.index,
    {
        self.index
    }

    /// The number by which the device knows the channel.
    pub fn get_chan_num(&self) -> (chan_num: u32)
        ensures
            chan_num == self@.chan_num,
    {
        self.chan_num
    }

    pub fn is_enabled(&self) -> (enable: bool)
        ensures
            enable == self@.enable,
    {
        self.enable
    }

    /// Type code of the way the stream is obtained, where it is known.
    pub fn get_stream_type(&self) -> (stream_type: Option<u8>)
        ensures
            stream_type == self@.get_stream_type,
    {
        self.get_stream_type
    }

    /// Channel of the source device, where the stream comes straight from
    /// one.
    pub fn get_stream_channel(&self) -> (stream_channel: Option<u8>)
        ensures
            stream_channel == self@.stream_channel,
    {
        self.stream_channel
    }

    pub fn get_ipv4_address(&self) -> (address: Option<&String>)
        ensures
            match address {
                Some(text) => self@.ipv4_address == Some(text@),
                None => self@.ipv4_address is None,
            },
    {
        self.ipv4_address.as_ref()
    }

    pub fn get_ipv6_address(&self) -> (address: Option<&String>)
        ensures
            match address {
                Some(text) => self@.ipv6_address == Some(text@),
                None => self@.ipv6_address is None,
            },
    {
        self.ipv6_address.as_ref()
    }
}

impl Default for ChannelInfo {
    /// Channel 0 at index 0, with nothing more known of it.
    fn default() -> (info: Self)
        ensures
            info@ == bare_info(0, 0),
    {
        ChannelInfo::new(0, 0)
    }
}

impl Channel {
    /// What is known of the channel, whatever its kind.
    pub fn info(&self) -> (info: &ChannelInfo)
        ensures
            info@ == self@.info(),
    {
        match self {
            Channel::Logic(info) => info,
            Channel::IP(info) => info,
        }
    }
}

/// The descriptor of a device, kept for the length of a session.
#[derive(Clone, Copy, Debug, PartialEq, Eq)]
pub struct HikDeviceInfo(DeviceDescriptor);

impl View for HikDeviceInfo {
    type V = DeviceDescriptor;

    closed spec fn view(&self) -> DeviceDescriptor {
        self.0
    }
}

impl HikDeviceInfo {
    pub fn new(device_info: DeviceDescriptor) -> (info: Self)
        ensures
            info@ == device_info,
    {
        HikDeviceInfo(device_info)
    }

    /// The channels that the device announces, none of them yet joined with
    /// the device's configuration.
    pub fn get_channels(&self) -> (channels: Vec<Channel>)
        ensures
            channel_views(channels@) == announced_channels(self@),
            channels@.len() == self@.analog_channel_count + self@.ip_channel_count(),
            forall|k: int|
                0 <= k < channels@.len() ==> (#[trigger] channels@[k])@ == announced_channels(
                    self@,
                )[k],
    {
        let analog: u16 = self.0.analog_channel_count as u16;
        let start_analog: u32 = self.0.start_analog_channel as u32;
        let ip: u16 = self.0.ip_channels();
        let start_digital: u32 = self.0.start_digital_channel as u32;
        let mut channels: Vec<Channel> = Vec::new();

        let mut index: u16 = 0;
        while index < analog
            invariant
                index <= analog,
                analog == self@.analog_channel_count,
                start_analog == self@.start_analog_channel,
                channels@.len() == index,
                forall|k: int|
                    0 <= k < index ==> (#[trigger] channels@[k])@ == announced_channels(self@)[k],
            decreases analog - index,
        {
            channels.push(Channel::Logic(ChannelInfo::new(index, start_analog + index as u32)));
            index += 1;
        }

        index = 0;
        while index < ip
            invariant
                index <= ip,
                analog == self@.analog_channel_count,
                ip == self@.ip_channel_count(),
                start_digital == self@.start_digital_channel,
                channels@.len() == analog + index,
                forall|k: int|
                    0 <= k < analog + index ==> (#[trigger] channels@[k])@ == announced_channels(
                        self@,
                    )[k],
            decreases ip - index,
        {
            channels.push(Channel::IP(ChannelInfo::new(index, start_digital + index as u32)));
            index += 1;
        }
        assert(channel_views(channels@) =~= announced_channels(self@));
        channels
    }
}

/// The layout of every resolved list: as many analog channels as the
/// descriptor counts, then as many IP channels as its two count bytes make,
/// and within each kind the indices run up from zero and each channel's
/// number is the kind's start number plus its index.
pub proof fn lemma_channel_layout(d: DeviceDescriptor, c: IpChannelConfig)
    ensures
        resolved_channels(d, c).len() == d.analog_channel_count + d.ip_channel_count_low
            + d.digital_channel_count_high * 256,
        forall|i: int|
            0 <= i < d.analog_channel_count ==> {
                let channel = #[trigger] resolved_channels(d, c)[i];
                &&& channel is Logic
                &&& channel.info().index == i
                &&& channel.info().chan_num == d.start_analog_channel + i
            },
        forall|i: int|
            0 <= i < d.ip_channel_count() ==> {
                let channel = #[trigger] resolved_channels(d, c)[d.analog_channel_count + i];
                &&& channel is IP
                &&& channel.info().index == i
                &&& channel.info().chan_num == d.start_digital_channel + i
            },
{
}

/// The channels that a descriptor announces are laid out as the resolved
/// ones are; resolving changes neither kind, index nor number.
pub proof fn lemma_resolving_keeps_layout(d: DeviceDescriptor, c: IpChannelConfig, k: int)
    requires
        0 <= k < announced_channels(d).len(),
    ensures
        announced_channels(d).len() == resolved_channels(d, c).len(),
        announced_channels(d)[k] is Logic <==> resolved_channels(d, c)[k] is Logic,
        announced_channels(d)[k].info().index == resolved_channels(d, c)[k].info().index,
        announced_channels(d)[k].info().chan_num == resolved_channels(d, c)[k].info().chan_num,
{
}

/// Joins the channels that a device announces with the device's
/// configuration.  A configuration that lacks an entry for one of the
/// channels is refused; nothing else is.
pub fn resolve_channels(info: &HikDeviceInfo, config: &IpChannelConfig) -> (r: Result<
    Vec<Channel>,
    HikError,
>)
    ensures
        match r {
            Ok(channels) => {
                &&& config_covers(info@, *config)
                &&& channel_views(channels@) == resolved_channels(info@, *config)
                &&& channels@.len() == info@.analog_channel_count + info@.ip_channel_count()
                &&& forall|k: int|
                    0 <= k < channels@.len() ==> (#[trigger] channels@[k])@ == resolved_channels(
                        info@,
                        *config,
                    )[k]
            },
            Err(e) => e == HikError::MalformedResponse && !config_covers(info@, *config),
        },
{
    let analog: usize = info.0.analog_channel_count as usize;
    let ip: usize = info.0.ip_channels() as usize;
    if config.analog_enable.len() < analog || config.ip_devices.len() < ip
        || config.stream_modes.len() < ip {
        return Err(HikError::MalformedResponse);
    }
    let mut channels = info.get_channels();
    let ghost announced = announced_channels(info@);
    let ghost resolved = resolved_channels(info@, *config);
    assert(channels@.len() == announced.len()) by {
        assert(channel_views(channels@).len() == channels@.len());
    }
    let count: usize = channels.len();
    let mut k: usize = 0;
    while k < count
        invariant
            k <= count,
            count == channels@.len(),
            count == analog + ip,
            analog == info@.analog_channel_count,
            ip == info@.ip_channel_count(),
            config_covers(info@, *config),
            announced == announced_channels(info@),
            resolved == resolved_channels(info@, *config),
            forall|j: int| 0 <= j < k ==> (#[trigger] channels@[j])@ == resolved[j],
            forall|j: int| k <= j < count ==> (#[trigger] channels@[j])@ == announced[j],
        decreases count - k,
    {
        assert(channels@[k as int]@ == announced[k as int]);
        let joined = match &channels[k] {
            Channel::Logic(channel) => {
                let enable = config.analog_enable[channel.index as usize] == 1;
                Channel::Logic(
                    ChannelInfo {
                        index: channel.index,
                        chan_num: channel.chan_num,
                        enable,
                        get_stream_type: None,
                        stream_channel: None,
                        ipv4_address: None,
                        ipv6_address: None,
                    },
                )
            },
            Channel::IP(channel) => {
                let ip_dev_info: &IpDeviceInfo = &config.ip_devices[channel.index as usize];
                let stream_mode: &StreamMode = &config.stream_modes[channel.index as usize];
                let ipv4_address = decode_address(ip_dev_info.ipv4.as_slice());
                let ipv6_address = decode_address(ip_dev_info.ipv6.as_slice());
                Channel::IP(
                    ChannelInfo {
                        index: channel.index,
                        chan_num: channel.chan_num,
                        enable: ip_dev_info.enable == 1,
                        get_stream_type: Some(stream_mode.type_code()),
                        stream_channel: stream_mode.channel(),
                        ipv4_address: Some(ipv4_address),
                        ipv6_address: Some(ipv6_address),
                    },
                )
            },
        };
        assert(joined@ == resolved[k as int]);
        channels.set(k, joined);
        k += 1;
    }
    assert(channel_views(channels@) =~= resolved);
    Ok(channels)
}

} // verus!
