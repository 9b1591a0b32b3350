use coherence_core::config::{check_config, is_supported_buffer_size, is_supported_rate, DeviceId};
use coherence_core::devices::{
    capabilities_of, describe_device, host_display_name, is_external_device, list_hosts,
    sample_rates_of, BufferRange, ConfigRange,
};
use coherence_core::error::EngineError;
use coherence_core::stream::{negotiate, select_device, select_host};
use coherence_core::config::AudioConfig;

fn range(min: u32, max: u32, channels: u16, buffer: Option<(u32, u32)>) -> ConfigRange {
    ConfigRange {
        min_sample_rate: min,
        max_sample_rate: max,
        channels,
        buffer_size: buffer.map(|(min, max)| BufferRange { min, max }),
    }
}

#[test]
fn host_labels() {
    assert_eq!(host_display_name("WASAPI"), "Windows Audio (WASAPI)");
    assert_eq!(host_display_name("ASIO"), "ASIO (Low Latency)");
    assert_eq!(host_display_name("CoreAudio"), "macOS Core Audio");
    assert_eq!(host_display_name("ALSA"), "Linux ALSA");
    assert_eq!(host_display_name("PulseAudio"), "Linux PulseAudio");
    assert_eq!(host_display_name("JACK"), "JACK Audio");
    assert_eq!(host_display_name("Oboe"), "Oboe");
}

#[test]
fn hosts_keep_order_and_mark_default() {
    let ids = vec!["ALSA".to_string(), "JACK".to_string()];
    let hosts = list_hosts(&ids, "ALSA");
    assert_eq!(hosts.len(), 2);
    assert_eq!(hosts[0].id, "ALSA");
    assert_eq!(hosts[0].name, "Linux ALSA");
    assert!(hosts[0].is_default);
    assert_eq!(hosts[1].id, "JACK");
    assert_eq!(hosts[1].name, "JACK Audio");
    assert!(!hosts[1].is_default);
    assert!(list_hosts(&Vec::new(), "ALSA").is_empty());
}

#[test]
fn rates_are_candidates_ascending_and_distinct() {
    let ranges = vec![
        range(96_000, 192_000, 2, None),
        range(44_100, 48_000, 2, None),
        range(44_100, 44_100, 1, None),
    ];
    assert_eq!(sample_rates_of(&ranges), vec![44_100, 48_000, 96_000, 176_400, 192_000]);
    assert_eq!(sample_rates_of(&vec![range(8_000, 22_050, 2, None)]), Vec::<u32>::new());
    assert_eq!(sample_rates_of(&Vec::new()), Vec::<u32>::new());
    assert_eq!(sample_rates_of(&vec![range(1, 1_000_000, 2, None)]).len(), 6);
}

#[test]
fn buffer_bounds_and_channels() {
    assert_eq!(capabilities_of(&Vec::new()), (64, 4096, 2));
    // a mono device with no reported buffer sizes
    assert_eq!(capabilities_of(&vec![range(44_100, 48_000, 1, None)]), (64, 4096, 1));
    // reported bounds replace the fallback
    assert_eq!(capabilities_of(&vec![range(44_100, 48_000, 2, Some((128, 2048)))]), (128, 2048, 2));
    assert_eq!(
        capabilities_of(&vec![range(44_100, 48_000, 1, None), range(44_100, 48_000, 1, Some((256, 1024)))]),
        (256, 1024, 1)
    );
    let ranges = vec![
        range(44_100, 48_000, 2, Some((128, 2048))),
        range(44_100, 48_000, 8, Some((32, 8192))),
    ];
    assert_eq!(capabilities_of(&ranges), (32, 8192, 8));
}

#[test]
fn external_interface_heuristic() {
    assert!(is_external_device("Focusrite Scarlett 2i2"));
    assert!(is_external_device("MOTU M2"));
    assert!(is_external_device("USB Audio CODEC"));
    assert!(is_external_device("Native Instruments Komplete Audio 6"));
    assert!(!is_external_device("HDA Intel PCH"));
    assert!(!is_external_device(""));
}

#[test]
fn device_description() {
    let ranges = vec![range(44_100, 96_000, 2, Some((32, 4096)))];
    let default_name = Some("Scarlett 2i2 USB".to_string());
    let d = describe_device("ALSA", "Scarlett 2i2 USB", &default_name, &ranges);
    assert_eq!(d.id, "ALSA:Scarlett 2i2 USB");
    assert_eq!(d.name, "Scarlett 2i2 USB");
    assert_eq!(d.host_id, "ALSA");
    assert!(d.is_default);
    assert!(d.is_usb);
    assert_eq!(d.sample_rates, vec![44_100, 48_000, 88_200, 96_000]);
    assert_eq!(d.min_buffer_size, 32);
    assert_eq!(d.max_buffer_size, 4096);
    assert_eq!(d.channels, 2);
    let d = describe_device("ALSA", "HDA Intel PCH", &default_name, &ranges);
    assert!(!d.is_default);
    assert!(!d.is_usb);
    let d = describe_device("ALSA", "HDA Intel PCH", &None, &Vec::new());
    assert!(!d.is_default);
    assert!(d.sample_rates.is_empty());
}

#[test]
fn device_ids() {
    let id = DeviceId::parse("ALSA:hw:CARD=1,DEV=0").unwrap();
    assert_eq!(id.host, "ALSA");
    assert_eq!(id.name, "hw:CARD=1,DEV=0");
    assert_eq!(id.to_text(), "ALSA:hw:CARD=1,DEV=0");
    let id = DeviceId::parse(":x").unwrap();
    assert_eq!(id.host, "");
    assert_eq!(id.name, "x");
    assert!(matches!(DeviceId::parse("no separator"), Err(EngineError::DeviceNotFound)));
    let id = DeviceId { host: "JACK".to_string(), name: "system".to_string() };
    assert_eq!(id.to_text(), "JACK:system");
}

#[test]
fn device_selection() {
    let id = DeviceId::parse("JACK:system").unwrap();
    let hosts = vec!["ALSA".to_string(), "JACK".to_string(), "JACK".to_string()];
    assert_eq!(select_host(&hosts, &id), Ok(1));
    assert_eq!(select_host(&vec!["ALSA".to_string()], &id), Err(EngineError::DeviceNotFound));
    assert_eq!(EngineError::DeviceNotFound.kind(), coherence_core::error::ErrorKind::Device);
    let names = vec![None, Some("default".to_string()), Some("system".to_string()), Some("system".to_string())];
    assert_eq!(select_device(&names, &id), Ok(2));
}

#[test]
fn allow_lists() {
    for r in [44_100, 48_000, 88_200, 96_000, 176_400, 192_000] {
        assert!(is_supported_rate(r));
    }
    assert!(!is_supported_rate(44_123));
    assert!(!is_supported_rate(0));
    for b in [32, 64, 128, 256, 512, 1024, 2048, 4096, 8192] {
        assert!(is_supported_buffer_size(b));
    }
    for b in [0, 1, 16, 31, 33, 96, 8191, 16384, u32::MAX] {
        assert!(!is_supported_buffer_size(b));
    }
    assert_eq!(check_config(Some(44_123), Some(100)), Err(EngineError::UnsupportedSampleRate));
    assert_eq!(check_config(None, None), Ok(()));
}

#[test]
fn stream_format_negotiation() {
    let mut c = AudioConfig::default();
    let osc = negotiate(&c, 6).unwrap();
    assert_eq!(osc.sample_rate, 44_100);
    assert_eq!(osc.channels, 6);
    assert_eq!(osc.phase, 0);
    assert_eq!(negotiate(&c, 0), Err(EngineError::UnsupportedConfig));
    c.sample_rate = 0;
    assert_eq!(negotiate(&c, 2), Err(EngineError::UnsupportedConfig));
}

#[test]
fn reported_buffer_bounds_and_mono_channels() {
    let ranges = vec![range(44_100, 48_000, 1, Some((128, 2048)))];
    let d = describe_device("ALSA", "Mono Out", &None, &ranges);
    assert_eq!(d.min_buffer_size, 128);
    assert_eq!(d.max_buffer_size, 2048);
    assert_eq!(d.channels, 1);
    let d = describe_device("ALSA", "Mono Out", &None, &vec![range(44_100, 48_000, 1, None)]);
    assert_eq!(d.min_buffer_size, 64);
    assert_eq!(d.max_buffer_size, 4096);
    assert_eq!(d.channels, 1);
}
