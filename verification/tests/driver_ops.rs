use epaper::args::{Args, Command, DisplayMode};
use epaper::driver::{ControlLine, Display, DriverError, Op};
use epaper::lut::lut_2bit;
use epaper::raster::DisplayImage;
use epaper::try_main;

/// A test double for the lines and bus: it "performs" a script by
/// recording every write, as (is_command, bytes) pairs.
fn record_writes(ops: &[Op]) -> Vec<(bool, Vec<u8>)> {
    let mut writes = Vec::new();
    for op in ops {
        match op {
            Op::Command(bytes) => writes.push((true, bytes.clone())),
            Op::Data(bytes) => writes.push((false, bytes.clone())),
            Op::SetLine(..) | Op::DelayMs(..) | Op::WaitNotBusy => {},
        }
    }
    writes
}

#[test]
fn full_init_then_clear_scenario() {
    let mut dev = Display::new();
    let mut ops = dev.init(DisplayMode::Full);
    ops.extend(dev.clear(DisplayMode::Full).unwrap());

    let writes = record_writes(&ops);

    // The command sequence begins with the software reset.
    let first_command = writes.iter().find(|(is_cmd, _)| *is_cmd).unwrap();
    assert_eq!(first_command.1, vec![0x12]);

    // Exactly one write of the data-entry-mode command, with data 0x03.
    let entry_positions: Vec<usize> = ops
        .iter()
        .enumerate()
        .filter(|(_, op)| matches!(op, Op::Command(b) if b == &vec![0x11]))
        .map(|(i, _)| i)
        .collect();
    assert_eq!(entry_positions.len(), 1);
    assert_eq!(ops[entry_positions[0] + 1], Op::Data(vec![0x03]));

    // One write of the RAM Y window: height - 1 = 263 = 0x0107, little
    // endian, after two placeholder bytes.
    let window_positions: Vec<usize> = ops
        .iter()
        .enumerate()
        .filter(|(_, op)| matches!(op, Op::Command(b) if b == &vec![0x45]))
        .map(|(i, _)| i)
        .collect();
    assert_eq!(window_positions.len(), 1);
    assert_eq!(ops[window_positions[0] + 1], Op::Data(vec![0x00, 0x00, 0x07, 0x01]));

    // The script ends with the update trigger and the busy poll.
    assert_eq!(ops[ops.len() - 2], Op::Command(vec![0x20]));
    assert_eq!(ops[ops.len() - 1], Op::WaitNotBusy);
}

#[test]
fn geometry_mismatch_fails_before_any_bus_write() {
    let mut dev = Display::new();
    dev.init(DisplayMode::Full);
    let img = DisplayImage::new(10, 10);
    match dev.display(img, DisplayMode::Full) {
        Err(DriverError::WrongInput { width, height }) => {
            assert_eq!((width, height), (10, 10));
        },
        other => panic!("expected a geometry mismatch, got {:?}", other.map(|o| o.len())),
    }
    // The failure produced no operations at all, so a subsequent
    // display still starts from the initialized state.
    assert!(dev.display(Display::image_white_v(), DisplayMode::Full).is_ok());
}

#[test]
fn display_requires_matching_init() {
    let mut dev = Display::new();
    let img = Display::image_white_v();
    assert_eq!(dev.display(img, DisplayMode::Full), Err(DriverError::WrongState));

    dev.init(DisplayMode::Full);
    assert_eq!(
        dev.display(Display::image_white_v(), DisplayMode::Fast),
        Err(DriverError::WrongState)
    );

    dev.init(DisplayMode::Fast);
    let ops = dev.display(Display::image_white_v(), DisplayMode::Fast).unwrap();
    assert!(!ops.is_empty());

    dev.sleep();
    assert_eq!(
        dev.display(Display::image_white_v(), DisplayMode::Fast),
        Err(DriverError::WrongState)
    );
}

#[test]
fn display_starts_by_resetting_the_ram_counter() {
    let mut dev = Display::new();
    dev.init(DisplayMode::Full);
    let ops = dev.display(Display::image_white_v(), DisplayMode::Full).unwrap();
    assert_eq!(ops[0], Op::Command(vec![0x4F]));
    assert_eq!(ops[1], Op::Data(vec![0x00, 0x00]));
    assert_eq!(ops[2], Op::Command(vec![0x24]));
    match &ops[3] {
        Op::Data(buffer) => assert_eq!(buffer.len(), 5808),
        other => panic!("expected the packed buffer, got {:?}", other),
    }
}

#[test]
fn update_control_byte_per_mode() {
    for (mode, byte) in [(DisplayMode::Full, 0xF7u8), (DisplayMode::Fast, 0xC7)] {
        let mut dev = Display::new();
        dev.init(mode);
        let ops = dev.display(Display::image_white_v(), mode).unwrap();
        assert_eq!(ops[ops.len() - 4], Op::Command(vec![0x22]));
        assert_eq!(ops[ops.len() - 3], Op::Data(vec![byte]));
        assert_eq!(ops[ops.len() - 2], Op::Command(vec![0x20]));
        assert_eq!(ops[ops.len() - 1], Op::WaitNotBusy);
    }
}

#[test]
fn fast_init_loads_temperature_and_alternate_waveform() {
    let mut dev = Display::new();
    let ops = dev.init(DisplayMode::Fast);
    let writes = record_writes(&ops);
    let sensor = writes.iter().position(|w| *w == (true, vec![0x18])).unwrap();
    assert_eq!(writes[sensor + 1], (false, vec![0x80]));
    assert_eq!(writes[sensor + 2], (true, vec![0x22]));
    assert_eq!(writes[sensor + 3], (false, vec![0xB1]));
    assert_eq!(writes[sensor + 4], (true, vec![0x20]));
}

#[test]
fn grey_init_programs_voltages_and_waveform_table() {
    let mut dev = Display::new();
    let ops = dev.init(DisplayMode::Grey);
    let lut = lut_2bit();
    assert_eq!(lut.len(), 159);

    let writes = record_writes(&ops);
    let vcom = writes.iter().position(|w| *w == (true, vec![0x2C])).unwrap();
    // Voltage parameters come from the vendor-fixed table offsets.
    assert_eq!(writes[vcom + 1], (false, vec![lut[158]]));
    assert_eq!(writes[vcom + 1].1, vec![0x1C]);
    assert_eq!(writes[vcom + 2], (true, vec![0x3F]));
    assert_eq!(writes[vcom + 3], (false, vec![lut[153]]));
    assert_eq!(writes[vcom + 4], (true, vec![0x03]));
    assert_eq!(writes[vcom + 5], (false, vec![lut[154]]));
    assert_eq!(writes[vcom + 6], (true, vec![0x04]));
    assert_eq!(writes[vcom + 7], (false, vec![lut[155]]));
    assert_eq!(writes[vcom + 8], (false, vec![lut[156]]));
    assert_eq!(writes[vcom + 9], (false, vec![lut[157]]));
    // Then the first 159 waveform bytes as one payload.
    assert_eq!(writes[vcom + 10], (true, vec![0x32]));
    assert_eq!(writes[vcom + 11], (false, lut));
}

#[test]
fn grey_display_sends_both_planes() {
    let mut dev = Display::new();
    dev.init(DisplayMode::Grey);
    let mut img = Display::image_white_v();
    img.put_pixel(0, 0, 0);
    let ops = dev.display(img, DisplayMode::Grey).unwrap();
    let writes = record_writes(&ops);
    let new_ram = writes.iter().position(|w| *w == (true, vec![0x24])).unwrap();
    let plane_0101 = &writes[new_ram + 1];
    assert!(!plane_0101.0);
    assert_eq!(plane_0101.1.len(), 5808);
    assert_eq!(writes[new_ram + 2], (true, vec![0x26]));
    let plane_0011 = &writes[new_ram + 3];
    assert!(!plane_0011.0);
    assert_eq!(plane_0011.1.len(), 5808);
    // White (code 11) is a mark on both planes and clears its bits;
    // only the black corner pixel leaves its bit set.
    assert_eq!(plane_0101.1[0], 0x80);
    assert_eq!(plane_0011.1[0], 0x80);
    assert_eq!(plane_0101.1[1], 0x00);
    assert_eq!(plane_0011.1[1], 0x00);
    // The greyscale trigger byte.
    assert_eq!(writes[new_ram + 4], (true, vec![0x22]));
    assert_eq!(writes[new_ram + 5], (false, vec![0xC7]));
}

#[test]
fn sleep_settles_and_drops_all_lines() {
    let mut dev = Display::new();
    dev.init(DisplayMode::Full);
    let ops = dev.sleep();
    assert_eq!(
        ops,
        vec![
            Op::Command(vec![0x10]),
            Op::Data(vec![0x01]),
            Op::DelayMs(2000),
            Op::SetLine(ControlLine::Reset, false),
            Op::SetLine(ControlLine::DataCommand, false),
            Op::SetLine(ControlLine::Power, false),
        ]
    );
}

#[test]
fn reset_pulse_timing() {
    let mut dev = Display::new();
    let ops = dev.init(DisplayMode::Full);
    assert_eq!(ops[0], Op::SetLine(ControlLine::Power, true));
    assert_eq!(
        &ops[1..7],
        &[
            Op::SetLine(ControlLine::Reset, true),
            Op::DelayMs(200),
            Op::SetLine(ControlLine::Reset, false),
            Op::DelayMs(2),
            Op::SetLine(ControlLine::Reset, true),
            Op::DelayMs(200),
        ]
    );
    assert_eq!(ops[7], Op::WaitNotBusy);
}

#[test]
fn cycle_for_a_rotated_image() {
    let args = Args { repeat: false, mode: DisplayMode::Fast, command: Command::Clear };
    let img = Display::image_white_h();
    let ops = try_main(&args, img).unwrap();
    assert_eq!(ops[0], Op::SetLine(ControlLine::Power, true));
    // Three refreshes are triggered, and each of the two fast-mode
    // inits triggers its temperature/waveform load as well.
    let triggers = ops.iter().filter(|op| **op == Op::Command(vec![0x20])).count();
    assert_eq!(triggers, 5);
    // The settle pause stands between the content refresh and the
    // cleanup refresh; no repeat pause follows.
    assert!(ops.contains(&Op::DelayMs(5000)));
    assert_ne!(ops[ops.len() - 1], Op::DelayMs(10000));
}

#[test]
fn cycle_repeats_with_a_pause() {
    let args = Args { repeat: true, mode: DisplayMode::Full, command: Command::Clear };
    let ops = try_main(&args, Display::image_white_v()).unwrap();
    assert_eq!(ops[ops.len() - 1], Op::DelayMs(10000));
}

#[test]
fn cycle_rejects_a_wrong_geometry() {
    let args = Args { repeat: false, mode: DisplayMode::Full, command: Command::Clear };
    let img = DisplayImage::new(264, 264);
    assert_eq!(
        try_main(&args, img),
        Err(DriverError::WrongInput { width: 264, height: 264 })
    );
}
