use epd_waveshare::color::Color;
use epd_waveshare::epd7in5_hd::{
    EPD7in5, DEFAULT_BACKGROUND_COLOR, FRAME_BUFFER_SIZE, HEIGHT, WIDTH,
};
use epd_waveshare::interface::DisplayBus;
use epd_waveshare::recorder::{RecordedEvent, RecordingBus};

/// The exact wire protocol of the bring-up sequence, event by event.
fn expected_init_events() -> Vec<RecordedEvent> {
    vec![
        RecordedEvent::Reset { pulses: 2, settle_ms: 10 },
        RecordedEvent::WaitIdle { active_low: true },
        RecordedEvent::Command { code: 0x12 },
        RecordedEvent::WaitIdle { active_low: true },
        RecordedEvent::Command { code: 0x46 },
        RecordedEvent::Data { bytes: vec![0xF7] },
        RecordedEvent::WaitIdle { active_low: true },
        RecordedEvent::Command { code: 0x47 },
        RecordedEvent::Data { bytes: vec![0xF7] },
        RecordedEvent::WaitIdle { active_low: true },
        RecordedEvent::Command { code: 0x0C },
        RecordedEvent::Data { bytes: vec![0xAE, 0xC7, 0xC3, 0xC0, 0x40] },
        RecordedEvent::Command { code: 0x01 },
        RecordedEvent::Data { bytes: vec![0xAF, 0x02, 0x01] },
        RecordedEvent::Command { code: 0x11 },
        RecordedEvent::Data { bytes: vec![0x01] },
        RecordedEvent::Command { code: 0x44 },
        RecordedEvent::Data { bytes: vec![0x00, 0x00, 0x6F, 0x03] },
        RecordedEvent::Command { code: 0x45 },
        RecordedEvent::Data { bytes: vec![0xAF, 0x02, 0x00, 0x00] },
        RecordedEvent::Command { code: 0x3C },
        RecordedEvent::Data { bytes: vec![0x05] },
        RecordedEvent::Command { code: 0x18 },
        RecordedEvent::Data { bytes: vec![0x80] },
        RecordedEvent::Command { code: 0x22 },
        RecordedEvent::Data { bytes: vec![0xB1] },
        RecordedEvent::Command { code: 0x20 },
        RecordedEvent::WaitIdle { active_low: true },
        RecordedEvent::Command { code: 0x4E },
        RecordedEvent::Data { bytes: vec![0x00, 0x00] },
        RecordedEvent::Command { code: 0x4F },
        RecordedEvent::Data { bytes: vec![0x00, 0x00] },
    ]
}

fn new_epd() -> EPD7in5<RecordingBus> {
    EPD7in5::new(RecordingBus::new()).unwrap()
}

#[test]
fn epd_size() {
    assert_eq!(WIDTH, 880);
    assert_eq!(HEIGHT, 528);
    assert_eq!(DEFAULT_BACKGROUND_COLOR, Color::Black);
}

#[test]
fn frame_geometry_byte_aligned() {
    assert_eq!((WIDTH * HEIGHT) % 8, 0);
    assert_eq!(FRAME_BUFFER_SIZE, 58080);
    assert_eq!(FRAME_BUFFER_SIZE * 8, WIDTH * HEIGHT);
}

#[test]
fn init_emits_bring_up_sequence() {
    let epd = new_epd();
    let bus = epd.into_interface();
    assert_eq!(bus.events, expected_init_events());
}

#[test]
fn init_twice_repeats_same_sequence() {
    let mut epd = new_epd();
    epd.init().unwrap();
    let bus = epd.into_interface();
    let once = expected_init_events();
    assert_eq!(bus.events.len(), 2 * once.len());
    assert_eq!(bus.events[..once.len()], once[..]);
    assert_eq!(bus.events[once.len()..], once[..]);
}

#[test]
fn wake_up_repeats_bring_up() {
    let mut epd = new_epd();
    epd.wake_up().unwrap();
    let bus = epd.into_interface();
    let once = expected_init_events();
    assert_eq!(bus.events[once.len()..], once[..]);
}

#[test]
fn sleep_emits_deep_sleep() {
    let mut epd = new_epd();
    epd.sleep().unwrap();
    let bus = epd.into_interface();
    let tail = &bus.events[expected_init_events().len()..];
    assert_eq!(
        tail,
        &[
            RecordedEvent::WaitIdle { active_low: true },
            RecordedEvent::Command { code: 0x10 },
            RecordedEvent::Data { bytes: vec![0x01] },
        ]
    );
}

#[test]
fn update_frame_streams_buffer() {
    let buffer = vec![0x5A; FRAME_BUFFER_SIZE as usize];
    let mut epd = new_epd();
    epd.update_frame(&buffer).unwrap();
    let bus = epd.into_interface();
    let tail = &bus.events[expected_init_events().len()..];
    assert_eq!(
        tail,
        &[
            RecordedEvent::WaitIdle { active_low: true },
            RecordedEvent::Command { code: 0x4F },
            RecordedEvent::Data { bytes: vec![0x00, 0x00] },
            RecordedEvent::Command { code: 0x24 },
            RecordedEvent::Data { bytes: buffer.clone() },
            RecordedEvent::Command { code: 0x22 },
            RecordedEvent::Data { bytes: vec![0xF7] },
        ]
    );
}

#[test]
fn display_frame_activates_and_waits() {
    let mut epd = new_epd();
    epd.display_frame().unwrap();
    let bus = epd.into_interface();
    let tail = &bus.events[expected_init_events().len()..];
    assert_eq!(
        tail,
        &[
            RecordedEvent::Command { code: 0x20 },
            RecordedEvent::WaitIdle { active_low: true },
        ]
    );
}

#[test]
fn update_and_display_is_update_then_display() {
    let buffer = vec![0xC3; FRAME_BUFFER_SIZE as usize];

    let mut combined = new_epd();
    combined.update_and_display_frame(&buffer).unwrap();
    let combined_bus = combined.into_interface();

    let mut split = new_epd();
    split.update_frame(&buffer).unwrap();
    split.display_frame().unwrap();
    let split_bus = split.into_interface();

    assert_eq!(combined_bus.events, split_bus.events);
}

#[test]
fn clear_frame_streams_constant_fill() {
    let mut epd = new_epd();
    epd.clear_frame().unwrap();
    let bus = epd.into_interface();
    let tail = &bus.events[expected_init_events().len()..];
    assert_eq!(
        tail,
        &[
            RecordedEvent::WaitIdle { active_low: true },
            RecordedEvent::Command { code: 0x4F },
            RecordedEvent::Data { bytes: vec![0x00, 0x00] },
            RecordedEvent::Command { code: 0x24 },
            RecordedEvent::Fill { value: 0xFF, count: FRAME_BUFFER_SIZE },
            RecordedEvent::Command { code: 0x26 },
            RecordedEvent::Fill { value: 0xFF, count: FRAME_BUFFER_SIZE },
            RecordedEvent::Command { code: 0x22 },
            RecordedEvent::Data { bytes: vec![0xF7] },
            RecordedEvent::Command { code: 0x20 },
            RecordedEvent::WaitIdle { active_low: true },
        ]
    );
    for e in &bus.events {
        if let RecordedEvent::Data { bytes } = e {
            assert!(bytes.len() < FRAME_BUFFER_SIZE as usize);
        }
    }
}

#[test]
fn background_color_round_trips_without_bus_traffic() {
    let mut epd = new_epd();
    assert_eq!(*epd.background_color(), Color::Black);
    epd.set_background_color(Color::White);
    assert_eq!(*epd.background_color(), Color::White);
    epd.set_background_color(Color::Black);
    assert_eq!(*epd.background_color(), Color::Black);
    let bus = epd.into_interface();
    assert_eq!(bus.events, expected_init_events());
}

#[test]
fn geometry_accessors_report_panel_extent() {
    let epd = new_epd();
    assert_eq!(epd.width(), 880);
    assert_eq!(epd.height(), 528);
    let events_after = epd.into_interface().events.len();
    assert_eq!(events_after, expected_init_events().len());
}

#[test]
fn driver_reports_idle_when_raw_pin_is_high() {
    // The bring-up sequence ends after a busy-wait left the line at its idle
    // level, which for this active-low panel is the high raw level.
    let mut epd = new_epd();
    assert!(!epd.is_busy());
    let bus = epd.into_interface();
    assert!(bus.level);
}

#[test]
fn busy_probe_inverts_raw_pin() {
    let mut bus = RecordingBus::new();
    bus.set_level(true);
    assert!(!bus.is_busy(true));
    assert!(bus.is_busy(false));
    bus.set_level(false);
    assert!(bus.is_busy(true));
    assert!(!bus.is_busy(false));
}
