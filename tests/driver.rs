use display_interface::{DataFormat, DisplayError, WriteOnlyDataCommand};
use sh1108::displaysize::DisplaySize;
use sh1108::framebuffer::Framebuffer;
use sh1108::mode::{GraphicsMode, RawMode};
use sh1108::properties::{init_sequence, window_sequence, DisplayProperties};

/// A transport that records every transfer and can be told to refuse one.
struct Recorder {
    log: Vec<(bool, Vec<u8>)>,
    fail_at: Option<usize>,
}

impl Recorder {
    fn new(fail_at: Option<usize>) -> Self {
        Recorder { log: Vec::new(), fail_at }
    }

    fn record(&mut self, data: bool, f: DataFormat<'_>) -> Result<(), DisplayError> {
        let bytes = match f {
            DataFormat::U8(b) => b.to_vec(),
            _ => panic!("unexpected data format"),
        };
        let n = self.log.len();
        self.log.push((data, bytes));
        if self.fail_at == Some(n) {
            Err(DisplayError::BusWriteError)
        } else {
            Ok(())
        }
    }
}

impl WriteOnlyDataCommand for Recorder {
    fn send_commands(&mut self, cmd: DataFormat<'_>) -> Result<(), DisplayError> {
        self.record(false, cmd)
    }

    fn send_data(&mut self, buf: DataFormat<'_>) -> Result<(), DisplayError> {
        self.record(true, buf)
    }
}

fn init_bytes(size: DisplaySize, vertical: bool) -> Vec<(bool, Vec<u8>)> {
    init_sequence(size, vertical).into_iter().map(|c| (false, c.to_bytes())).collect()
}

#[test]
fn init_sends_power_up_sequence() {
    let mut props = DisplayProperties::new(Recorder::new(None), DisplaySize::Display128x160, true);
    assert!(props.init().is_ok());
    let log = props.release().log;
    let expected: Vec<(bool, Vec<u8>)> = vec![
        (false, vec![0xAE]),
        (false, vec![0xD5, 0x80]),
        (false, vec![0xA9, 0x02]),
        (false, vec![0x21]),
        (false, vec![0xA0]),
        (false, vec![0xC0]),
        (false, vec![0x81, 0x7F]),
        (false, vec![0xD9, 0x22]),
        (false, vec![0xA6]),
        (false, vec![0xA4]),
        (false, vec![0xAF]),
    ];
    assert_eq!(log, expected);
    assert_eq!(init_bytes(DisplaySize::Display128x160, true), expected);
}

#[test]
fn init_page_mode_selects_page_addressing() {
    let mut props = DisplayProperties::new(Recorder::new(None), DisplaySize::Display64x160, false);
    assert!(props.init().is_ok());
    let log = props.release().log;
    assert_eq!(log[2], (false, vec![0xA9, 0x00]));
    assert_eq!(log[3], (false, vec![0x20]));
}

#[test]
fn init_stops_at_failed_command() {
    let full = init_bytes(DisplaySize::Display96x160, true);
    for n in 0..full.len() {
        let mut props = DisplayProperties::new(Recorder::new(Some(n)), DisplaySize::Display96x160, true);
        assert!(props.init().is_err());
        let log = props.release().log;
        assert_eq!(log.len(), n + 1);
        assert_eq!(log[..], full[..n + 1]);
    }
}

#[test]
fn draw_area_adds_column_offset() {
    let mut props = DisplayProperties::new(Recorder::new(None), DisplaySize::Display64x160, true);
    assert!(props.set_draw_area((5, 3), (64, 20)).is_ok());
    assert_eq!(props.draw_area(), ((5, 3), (64, 20)));
    let log = props.release().log;
    // column 5 + offset 48 = 53 = 0x35
    assert_eq!(log, vec![(false, vec![0xB0, 3]), (false, vec![0x05]), (false, vec![0x13])]);
    let cmds: Vec<Vec<u8>> = window_sequence(DisplaySize::Display64x160, 5, 3).into_iter().map(|c| c.to_bytes()).collect();
    assert_eq!(cmds, vec![vec![0xB0, 3], vec![0x05], vec![0x13]]);
}

#[test]
fn draw_sends_data_unchanged() {
    let mut props = DisplayProperties::new(Recorder::new(None), DisplaySize::Display160x160, false);
    assert!(props.draw(&[1, 2, 3]).is_ok());
    assert_eq!(props.get_size(), DisplaySize::Display160x160);
    assert!(!props.is_vertical());
    assert_eq!(props.release().log, vec![(true, vec![1, 2, 3])]);
}

#[test]
fn failing_draw_is_reported() {
    let mut props = DisplayProperties::new(Recorder::new(Some(0)), DisplaySize::Display160x160, false);
    assert!(props.draw(&[9]).is_err());
}

#[test]
fn pixel_round_trip_and_layout() {
    let mut fb = Framebuffer::new(DisplaySize::Display128x160);
    assert_eq!(fb.as_bytes().len(), 128 * 20);
    assert!(fb.as_bytes().iter().all(|b| *b == 0));
    fb.set_pixel(3, 10, true);
    assert_eq!(fb.get_pixel(3, 10), Some(true));
    assert_eq!(fb.as_bytes()[128 + 3], 0x04);
    let once = fb.as_bytes().to_vec();
    fb.set_pixel(3, 10, true);
    assert_eq!(fb.as_bytes(), &once[..]);
    fb.set_pixel(3, 11, true);
    assert_eq!(fb.as_bytes()[128 + 3], 0x0C);
    fb.set_pixel(3, 10, false);
    assert_eq!(fb.get_pixel(3, 10), Some(false));
    assert_eq!(fb.get_pixel(3, 11), Some(true));
    assert_eq!(fb.as_bytes()[128 + 3], 0x08);
    fb.set_pixel(127, 159, true);
    assert_eq!(fb.as_bytes()[19 * 128 + 127], 0x80);
    assert_eq!(fb.get_pixel(127, 159), Some(true));
}

#[test]
fn out_of_bounds_pixels_are_ignored() {
    let mut fb = Framebuffer::new(DisplaySize::Display64x160);
    fb.set_pixel(1, 1, true);
    let before = fb.as_bytes().to_vec();
    for (x, y) in [(64, 0), (0, 160), (-1, 5), (5, -1), (i32::MAX, i32::MAX), (i32::MIN, 0)] {
        fb.set_pixel(x, y, true);
        assert_eq!(fb.as_bytes(), &before[..]);
        assert_eq!(fb.get_pixel(x, y), None);
    }
}

#[test]
fn vertical_flush_writes_whole_buffer_once() {
    let props = DisplayProperties::new(Recorder::new(None), DisplaySize::Display128x160, true);
    let mut display = GraphicsMode::new(props);
    display.set_pixel(0, 0, true);
    display.set_pixel(127, 159, true);
    assert_eq!(display.get_pixel(0, 0), Some(true));
    assert_eq!(display.dimensions(), (128, 160));
    assert!(display.flush().is_ok());
    let log = display.release().release().log;
    assert_eq!(log.len(), 4);
    assert_eq!(log[0], (false, vec![0xB0, 0]));
    assert_eq!(log[1], (false, vec![0x00]));
    assert_eq!(log[2], (false, vec![0x11]));
    assert!(log[3].0);
    assert_eq!(log[3].1.len(), 128 * 20);
    assert_eq!(log[3].1[0], 0x01);
    assert_eq!(log[3].1[128 * 20 - 1], 0x80);
}

#[test]
fn page_flush_writes_each_page() {
    let props = DisplayProperties::new(Recorder::new(None), DisplaySize::Display96x160, false);
    let mut display = GraphicsMode::new(props);
    display.set_pixel(2, 17, true);
    assert!(display.flush().is_ok());
    let log = display.release().release().log;
    assert_eq!(log.len(), 4 * 20);
    for p in 0..20usize {
        assert_eq!(log[4 * p], (false, vec![0xB0, p as u8]));
        assert_eq!(log[4 * p + 1], (false, vec![0x00]));
        assert_eq!(log[4 * p + 2], (false, vec![0x12]));
        assert!(log[4 * p + 3].0);
        assert_eq!(log[4 * p + 3].1.len(), 96);
    }
    assert_eq!(log[4 * 2 + 3].1[2], 0x02);
}

#[test]
fn flush_stops_at_failure() {
    let props = DisplayProperties::new(Recorder::new(Some(5)), DisplaySize::Display160x160, false);
    let mut display = GraphicsMode::new(props);
    assert!(display.flush().is_err());
    let log = display.release().release().log;
    assert_eq!(log.len(), 6);
    assert_eq!(log[4], (false, vec![0xB0, 1]));
    assert_eq!(log[5], (false, vec![0x00]));
}

#[test]
fn graphics_init_and_raw_mode() {
    let props = DisplayProperties::new(Recorder::new(None), DisplaySize::Display160x160, true);
    let mut display = GraphicsMode::new(props);
    assert!(display.init().is_ok());
    let raw = RawMode::new(display.release());
    let log = raw.release().release().log;
    assert_eq!(log.len(), 11);
    assert_eq!(log[2], (false, vec![0xA9, 0x03]));
}
