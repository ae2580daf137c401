use netaudio::format::{choose_format, is_nominal, render_path, FormatRange, RenderPath, SampleRepr, StreamFormat};
use netaudio::queue::TransferQueue;
use netaudio::source::SampleSource;

fn ranges() -> Vec<FormatRange> {
    vec![
        FormatRange { channels: 2, min_rate: 8000, max_rate: 44100, repr: SampleRepr::I16 },
        FormatRange { channels: 1, min_rate: 8000, max_rate: 96000, repr: SampleRepr::F32 },
        FormatRange { channels: 2, min_rate: 44100, max_rate: 96000, repr: SampleRepr::U16 },
    ]
}

#[test]
fn no_request_keeps_default() {
    assert_eq!(choose_format(&ranges(), None), None);
}

#[test]
fn first_family_with_requested_top_rate_is_chosen() {
    assert_eq!(
        choose_format(&ranges(), Some(96000)),
        Some(StreamFormat { channels: 1, sample_rate: 96000, repr: SampleRepr::F32 })
    );
    assert_eq!(
        choose_format(&ranges(), Some(44100)),
        Some(StreamFormat { channels: 2, sample_rate: 44100, repr: SampleRepr::I16 })
    );
}

#[test]
fn rate_only_within_a_range_is_not_chosen() {
    assert_eq!(choose_format(&ranges(), Some(48000)), None);
    assert_eq!(choose_format(&[], Some(48000)), None);
}

#[test]
fn with_max_rate_takes_top_of_range() {
    let r = FormatRange { channels: 6, min_rate: 22050, max_rate: 192000, repr: SampleRepr::I16 };
    assert_eq!(r.with_max_rate(), StreamFormat { channels: 6, sample_rate: 192000, repr: SampleRepr::I16 });
}

#[test]
fn nominal_format_is_two_channels_at_48k() {
    assert!(is_nominal(StreamFormat { channels: 2, sample_rate: 48000, repr: SampleRepr::U16 }));
    assert!(!is_nominal(StreamFormat { channels: 1, sample_rate: 48000, repr: SampleRepr::F32 }));
    assert!(!is_nominal(StreamFormat { channels: 2, sample_rate: 44100, repr: SampleRepr::F32 }));
}

#[test]
fn render_path_follows_bypass_flag() {
    let device = StreamFormat { channels: 4, sample_rate: 96000, repr: SampleRepr::F32 };
    assert_eq!(render_path(device, true), RenderPath::Bypass);
    assert_eq!(render_path(device, false), RenderPath::Adapt { channels: 4, sample_rate: 96000 });
}

#[test]
fn bypass_on_nominal_device_passes_samples_through() {
    let device = StreamFormat { channels: 2, sample_rate: 48000, repr: SampleRepr::F32 };
    assert!(is_nominal(device));
    assert_eq!(render_path(device, true), RenderPath::Bypass);
    let input: Vec<u32> = [0.1f32, -0.2, 0.3, -0.4].iter().map(|x| x.to_bits()).collect();
    let mut q = TransferQueue::new();
    q.push_frame(&input);
    let mut s = SampleSource::new();
    let out: Vec<u32> = (0..input.len()).map(|_| s.next_from(&mut q)).collect();
    assert_eq!(out, input);
}
