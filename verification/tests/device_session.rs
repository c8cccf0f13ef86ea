use chrono::{NaiveDate, NaiveDateTime};
use hik_net_sdk::channel::Channel;
use hik_net_sdk::device::HikDevice;
use hik_net_sdk::download::{DownloadState, HikDownload};
use hik_net_sdk::error::{Failure, HikError, Operation, Reply};
use hik_net_sdk::native::{
    ConfigKind, DeviceDescriptor, IpChannelConfig, IpDeviceInfo, NativeCall, StreamMode,
};
use hik_net_sdk::time::DeviceTime;

fn descriptor() -> DeviceDescriptor {
    DeviceDescriptor {
        analog_channel_count: 4,
        start_analog_channel: 1,
        ip_channel_count_low: 8,
        digital_channel_count_high: 0,
        start_digital_channel: 33,
    }
}

fn config(entries: usize) -> IpChannelConfig {
    IpChannelConfig {
        analog_enable: vec![1; entries],
        ip_devices: vec![IpDeviceInfo { enable: 1, ipv4: vec![0; 16], ipv6: vec![0; 128] }; entries],
        stream_modes: vec![StreamMode::Direct { channel: 1 }; entries],
    }
}

fn logged_in(handle: i32) -> HikDevice {
    let mut device = HikDevice::new();
    assert_eq!(device.login_reply(handle, descriptor()), Reply::Done(Ok(())));
    device
}

fn at(year: i32, month: u32, day: u32, hour: u32, minute: u32, second: u32) -> NaiveDateTime {
    NaiveDate::from_ymd_opt(year, month, day).unwrap().and_hms_opt(hour, minute, second).unwrap()
}

fn resolve<T>(reply: Reply<T>, code: i32) -> Result<T, HikError> {
    match reply {
        Reply::Done(outcome) => outcome,
        Reply::NeedErrorCode(failure) => Err(failure.resolve(code)),
    }
}

#[test]
fn new_device_has_no_session() {
    assert!(!HikDevice::new().is_logged_in());
}

#[test]
fn operations_before_login_fail_with_no_session() {
    let device = HikDevice::new();
    let start = at(2024, 1, 1, 0, 0, 0);
    let end = at(2024, 1, 1, 1, 0, 0);
    assert_eq!(device.get_channels(), Err(HikError::NoSession));
    assert_eq!(device.get_ip_channel_config(), Err(HikError::NoSession));
    assert_eq!(device.capture_jpeg_picture(1, "a.jpg"), Err(HikError::NoSession));
    assert_eq!(device.get_file_by_time("a.mp4", 1, &start, &end), Err(HikError::NoSession));
    assert_eq!(
        device.get_file_between(
            "a.mp4",
            1,
            DeviceTime::new(2024, 1, 1, 0, 0, 0),
            DeviceTime::new(2024, 1, 1, 1, 0, 0)
        ),
        Err(HikError::NoSession)
    );
    assert_eq!(device.channels_reply(1, 0, &config(64)), Reply::Done(Err(HikError::NoSession)));
}

#[test]
fn no_session_comes_before_the_check_of_the_path() {
    let device = HikDevice::new();
    let t = at(2024, 1, 1, 0, 0, 0);
    assert_eq!(device.capture_jpeg_picture(1, "a\0.jpg"), Err(HikError::NoSession));
    assert_eq!(device.get_file_by_time("a\0.mp4", 1, &t, &t), Err(HikError::NoSession));
}

#[test]
fn operations_after_logout_fail_with_no_session() {
    let mut device = logged_in(3);
    device.logout();
    assert_eq!(device.get_channels(), Err(HikError::NoSession));
    assert_eq!(device.capture_jpeg_picture(1, "a.jpg"), Err(HikError::NoSession));
}

#[test]
fn login_names_the_login_call() {
    let device = HikDevice::new();
    assert_eq!(
        device.login("192.168.1.64", "admin", "secret", 8000),
        Ok(NativeCall::Login {
            host: String::from("192.168.1.64"),
            port: 8000,
            username: String::from("admin"),
            password: String::from("secret"),
        })
    );
    assert!(!device.is_logged_in());
}

#[test]
fn login_refuses_text_with_a_zero_byte() {
    let device = HikDevice::new();
    assert_eq!(device.login("192.168\0.1.64", "admin", "secret", 8000), Err(HikError::InvalidString));
    assert_eq!(device.login("192.168.1.64", "ad\0min", "secret", 8000), Err(HikError::InvalidString));
    assert_eq!(device.login("192.168.1.64", "admin", "secret\0", 8000), Err(HikError::InvalidString));
    assert_eq!(device.login("\0", "\0", "\0", 0), Err(HikError::InvalidString));
}

#[test]
fn login_takes_empty_text_and_any_port() {
    let device = HikDevice::new();
    assert_eq!(
        device.login("", "", "", 65535),
        Ok(NativeCall::Login {
            host: String::new(),
            port: 65535,
            username: String::new(),
            password: String::new(),
        })
    );
}

#[test]
fn login_reply_success_opens_the_session() {
    let mut device = HikDevice::new();
    assert_eq!(device.login_reply(0, descriptor()), Reply::Done(Ok(())));
    assert!(device.is_logged_in());
    assert_eq!(
        device.get_channels(),
        Ok(NativeCall::QueryConfig { session: 0, kind: ConfigKind::IpChannels, group: 0 })
    );
}

#[test]
fn failed_login_carries_the_last_error_code_verbatim() {
    let mut device = HikDevice::new();
    let reply = device.login_reply(-1, descriptor());
    assert_eq!(
        reply,
        Reply::NeedErrorCode(Failure { operation: Operation::Login, bytes_returned: 0 })
    );
    assert!(!device.is_logged_in());
    let mut fetched = 0;
    let outcome = match reply {
        Reply::Done(outcome) => outcome,
        Reply::NeedErrorCode(failure) => {
            fetched += 1;
            Err(failure.resolve(153))
        }
    };
    assert_eq!(fetched, 1);
    assert_eq!(outcome, Err(HikError::LoginFailed { code: 153 }));
}

#[test]
fn successful_login_asks_for_no_error_code() {
    let mut device = HikDevice::new();
    assert!(matches!(device.login_reply(5, descriptor()), Reply::Done(Ok(()))));
    assert!(matches!(device.login_reply(i32::MAX, descriptor()), Reply::Done(Ok(()))));
}

#[test]
fn failed_login_keeps_an_earlier_session() {
    let mut device = logged_in(3);
    assert!(matches!(device.login_reply(i32::MIN, descriptor()), Reply::NeedErrorCode(_)));
    assert!(device.is_logged_in());
    assert_eq!(device.logout(), Some(NativeCall::Logout { session: 3 }));
}

#[test]
fn a_second_login_takes_the_place_of_the_first() {
    let mut device = logged_in(3);
    let mut other = descriptor();
    other.analog_channel_count = 1;
    other.ip_channel_count_low = 0;
    assert_eq!(device.login_reply(9, other), Reply::Done(Ok(())));
    assert_eq!(
        device.get_ip_channel_config(),
        Ok(NativeCall::QueryConfig { session: 9, kind: ConfigKind::IpChannels, group: 0 })
    );
    let channels = resolve(device.channels_reply(1, 0, &config(1)), 0).unwrap();
    assert_eq!(channels.len(), 1);
}

#[test]
fn logout_names_the_logout_call_and_forgets_the_session() {
    let mut device = logged_in(12);
    assert_eq!(device.logout(), Some(NativeCall::Logout { session: 12 }));
    assert!(!device.is_logged_in());
}

#[test]
fn logout_without_a_session_names_no_call() {
    let mut device = HikDevice::new();
    assert_eq!(device.logout(), None);
    assert!(!device.is_logged_in());
    let mut device = logged_in(12);
    device.logout();
    assert_eq!(device.logout(), None);
    assert_eq!(device.logout(), None);
}

#[test]
fn logout_reply_tells_whether_the_device_agreed() {
    let device = HikDevice::new();
    assert_eq!(device.logout_reply(1), Reply::Done(Ok(())));
    assert_eq!(
        resolve(device.logout_reply(0), 47),
        Err(HikError::LogoutFailed { code: 47 })
    );
}

#[test]
fn get_channels_of_the_scenario_device() {
    let device = logged_in(1);
    let channels = resolve(device.channels_reply(1, 4096, &config(64)), 0).unwrap();
    assert_eq!(channels.len(), 12);
    for (i, channel) in channels[..4].iter().enumerate() {
        match channel {
            Channel::Logic(info) => {
                assert_eq!(info.get_index(), i as u16);
                assert_eq!(info.get_chan_num(), 1 + i as u32);
                assert!(info.is_enabled());
            }
            Channel::IP(_) => panic!("channel {} is analog", i),
        }
    }
    for (i, channel) in channels[4..].iter().enumerate() {
        match channel {
            Channel::IP(info) => {
                assert_eq!(info.get_index(), i as u16);
                assert_eq!(info.get_chan_num(), 33 + i as u32);
                assert_eq!(info.get_ipv4_address(), Some(&String::new()));
                assert_eq!(info.get_stream_channel(), Some(1));
            }
            Channel::Logic(_) => panic!("channel {} is an IP channel", i),
        }
    }
}

#[test]
fn failed_config_query_carries_code_and_bytes_returned() {
    let device = logged_in(1);
    let reply = device.channels_reply(0, 77, &config(64));
    assert_eq!(
        reply,
        Reply::NeedErrorCode(Failure { operation: Operation::ConfigQuery, bytes_returned: 77 })
    );
    assert_eq!(
        resolve(reply, 9),
        Err(HikError::ConfigQueryFailed { code: 9, bytes_returned: 77 })
    );
    assert_eq!(
        resolve(device.ip_channel_config_reply(2, 5, config(1)), 10),
        Err(HikError::ConfigQueryFailed { code: 10, bytes_returned: 5 })
    );
}

#[test]
fn failed_config_query_comes_before_the_missing_session() {
    let device = HikDevice::new();
    assert!(matches!(device.channels_reply(0, 0, &config(64)), Reply::NeedErrorCode(_)));
}

#[test]
fn config_reply_success_hands_the_configuration_on() {
    let device = logged_in(1);
    assert_eq!(device.ip_channel_config_reply(1, 3, config(2)), Reply::Done(Ok(config(2))));
}

#[test]
fn channels_of_a_short_configuration_are_malformed() {
    let device = logged_in(1);
    assert_eq!(
        device.channels_reply(1, 0, &config(7)),
        Reply::Done(Err(HikError::MalformedResponse))
    );
    assert!(matches!(device.channels_reply(1, 0, &config(8)), Reply::Done(Ok(_))));
}

#[test]
fn capture_names_the_capture_call() {
    let device = logged_in(6);
    assert_eq!(
        device.capture_jpeg_picture(33, "images/channel_33.jpg"),
        Ok(NativeCall::CaptureJpeg {
            session: 6,
            channel: 33,
            path: String::from("images/channel_33.jpg"),
        })
    );
    assert_eq!(
        device.capture_jpeg_picture(u16::MAX, ""),
        Ok(NativeCall::CaptureJpeg { session: 6, channel: 65535, path: String::new() })
    );
}

#[test]
fn capture_refuses_a_path_with_a_zero_byte() {
    let device = logged_in(6);
    assert_eq!(device.capture_jpeg_picture(33, "images\0.jpg"), Err(HikError::InvalidString));
}

#[test]
fn capture_reply_is_classified() {
    let device = logged_in(6);
    assert_eq!(device.capture_reply(1), Reply::Done(Ok(())));
    for result in [0, -1, 2] {
        assert_eq!(
            resolve(device.capture_reply(result), 29),
            Err(HikError::CaptureFailed { code: 29 })
        );
    }
}

#[test]
fn get_file_by_time_names_the_transfer_with_calendar_fields() {
    let device = logged_in(2);
    let call = device.get_file_by_time(
        "rec.mp4",
        35,
        &at(2024, 3, 15, 10, 20, 30),
        &at(2024, 3, 16, 0, 0, 59),
    );
    assert_eq!(
        call,
        Ok(NativeCall::OpenFileByTime {
            session: 2,
            path: String::from("rec.mp4"),
            channel: 35,
            start: DeviceTime { year: 2024, month: 3, day: 15, hour: 10, minute: 20, second: 30 },
            stop: DeviceTime { year: 2024, month: 3, day: 16, hour: 0, minute: 0, second: 59 },
        })
    );
}

#[test]
fn get_file_by_time_does_not_order_its_times() {
    let device = logged_in(2);
    let call = device.get_file_by_time(
        "rec.mp4",
        1,
        &at(2024, 3, 16, 0, 0, 0),
        &at(2024, 3, 15, 0, 0, 0),
    );
    match call {
        Ok(NativeCall::OpenFileByTime { start, stop, .. }) => {
            assert_eq!(start.day, 16);
            assert_eq!(stop.day, 15);
        }
        other => panic!("unexpected step {:?}", other),
    }
}

#[test]
fn get_file_by_time_refuses_a_path_with_a_zero_byte() {
    let device = logged_in(2);
    let t = at(2024, 3, 15, 10, 20, 30);
    assert_eq!(device.get_file_by_time("rec\0.mp4", 35, &t, &t), Err(HikError::InvalidString));
}

#[test]
fn get_file_between_takes_the_fields_as_given() {
    let device = logged_in(2);
    let start = DeviceTime::new(2024, 13, 0, 25, 61, 61);
    let stop = DeviceTime::new(-1, 1, 1, 0, 0, 0);
    assert_eq!(
        device.get_file_between("rec.mp4", u16::MAX, start, stop),
        Ok(NativeCall::OpenFileByTime {
            session: 2,
            path: String::from("rec.mp4"),
            channel: 65535,
            start,
            stop,
        })
    );
    assert_eq!(device.get_file_between("\0", 1, start, stop), Err(HikError::InvalidString));
}

#[test]
fn file_reply_with_a_handle_makes_a_download() {
    let device = logged_in(2);
    for handle in [0, 5, i32::MAX] {
        let download = resolve(device.file_by_time_reply(handle), 0).unwrap();
        assert_eq!(download, HikDownload::new(handle));
        assert_eq!(download.state(), DownloadState::Created);
        assert_eq!(download.handle(), handle);
    }
}

#[test]
fn file_reply_with_a_negative_handle_is_classified() {
    let device = logged_in(2);
    for handle in [-1, -2, i32::MIN] {
        assert_eq!(
            resolve(device.file_by_time_reply(handle), 34),
            Err(HikError::FileQueryFailed { code: 34 })
        );
    }
}

#[test]
fn a_whole_download_from_login_to_stop() {
    let mut device = HikDevice::new();
    assert!(device.login("10.0.0.2", "admin", "12345", 8000).is_ok());
    assert_eq!(device.login_reply(0, descriptor()), Reply::Done(Ok(())));
    let t = at(2024, 5, 1, 8, 0, 0);
    assert!(device.get_file_by_time("rec.mp4", 33, &t, &t).is_ok());
    let mut download = resolve(device.file_by_time_reply(4), 0).unwrap();
    assert_eq!(download.get_progress(), Err(HikError::NotStarted));
    assert!(download.start().is_some());
    assert_eq!(download.start_reply(1), Reply::Done(Ok(())));
    assert_eq!(download.progress_reply(100), Reply::Done(Ok(100)));
    assert_eq!(download.stop(), NativeCall::StopTransfer { transfer: 4 });
    assert_eq!(download.stop_reply(1), Reply::Done(Ok(())));
    assert_eq!(device.logout(), Some(NativeCall::Logout { session: 0 }));
}
