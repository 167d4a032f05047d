//! Panel protocol driver: the command-sequence state machine of the
//! 176x264 e-paper panel.
//!
//! The driver owns no hardware.  Each operation of the protocol
//! (reset, init, display, clear, sleep) is computed as an exact
//! sequence of bus operations -- command writes, data writes, control
//! line changes, fixed delays and busy polls -- which a thin layer
//! around the library performs on the real control lines and serial
//! bus, in order, aborting on the first transfer failure.
use vstd::prelude::*;

use crate::args::DisplayMode;
use crate::lut::{lut_2bit, spec_lut};
use crate::pack::{
    native_geometry, pack_plane, packed_plane, rotated_geometry, Plane, HEIGHT, WIDTH,
};
use crate::raster::{DisplayImage, RasterView, WHITE};

verus! {

/// One of the three output control lines of the panel.
#[derive(Clone, Copy, Debug, PartialEq, Eq, Structural)]
pub enum ControlLine {
    /// Active-low panel reset.
    Reset,
    /// Data/command select: low for a command byte, high for data.
    DataCommand,
    /// Panel power.
    Power,
}

/// One bus operation of the panel protocol, to be performed in
/// sequence by the layer that owns the hardware.
#[derive(Debug, PartialEq)]
pub enum Op {
    /// Drive the data/command line low and write the bytes on the bus.
    Command(Vec<u8>),
    /// Drive the data/command line high and write the bytes on the bus.
    Data(Vec<u8>),
    /// Drive a control line high (true) or low (false).
    SetLine(ControlLine, bool),
    /// Wait the given number of milliseconds.
    DelayMs(u64),
    /// Poll the busy input line at a fixed interval until it reads low.
    WaitNotBusy,
}

/// The mathematical form of a bus operation.
#[verifier::ext_equal]
pub enum OpView {
    Command(Seq<u8>),
    Data(Seq<u8>),
    SetLine(ControlLine, bool),
    DelayMs(u64),
    WaitNotBusy,
}

impl View for Op {
    type V = OpView;

    open spec fn view(&self) -> OpView {
        match self {
            Op::Command(bytes) => OpView::Command(bytes@),
            Op::Data(bytes) => OpView::Data(bytes@),
            Op::SetLine(line, high) => OpView::SetLine(*line, *high),
            Op::DelayMs(ms) => OpView::DelayMs(*ms),
            Op::WaitNotBusy => OpView::WaitNotBusy,
        }
    }
}

/// A sequence of operations, op by op, in mathematical form.
pub open spec fn ops_view(ops: Seq<Op>) -> Seq<OpView> {
    ops.map(|i: int, op: Op| op@)
}

/// The view of a concatenation is the concatenation of the views.
pub proof fn lemma_ops_view_concat(a: Seq<Op>, b: Seq<Op>)
    ensures
        ops_view(a + b) =~= ops_view(a) + ops_view(b),
{
    assert forall|i: int| 0 <= i < a.len() + b.len() implies ops_view(a + b)[i] == (ops_view(a)
        + ops_view(b))[i] by {
        if i < a.len() {
            assert((a + b)[i] == a[i]);
        } else {
            assert((a + b)[i] == b[i - a.len()]);
        }
    }
}

/// Append a batch of operations to a script.
pub(crate) fn append_ops(ops: &mut Vec<Op>, more: Vec<Op>)
    ensures
        ops_view(final(ops)@) == ops_view(old(ops)@) + ops_view(more@),
{
    let ghost pre = ops@;
    let ghost morev = more@;
    let mut more = more;
    ops.append(&mut more);
    proof {
        lemma_ops_view_concat(pre, morev);
        assert(ops_view(ops@) =~= ops_view(pre) + ops_view(morev));
    }
}

/// Errors of the protocol driver.  Bus and line failures happen in
/// the layer that performs the operations, not here.
#[derive(Clone, Copy, Debug, PartialEq, Eq, Structural)]
pub enum DriverError {
    /// The image matches neither accepted geometry; the offending
    /// dimensions are carried along.
    WrongInput { width: u32, height: u32 },
    /// The operation needs a prior successful `init` in a compatible
    /// mode.
    WrongState,
}

/// Where the panel stands in the protocol.
#[derive(Clone, Copy, Debug, PartialEq, Eq, Structural)]
pub enum DriverState {
    /// Handle exists; the panel has not been initialized.
    Constructed,
    /// `init` ran in the given mode.
    Initialized(DisplayMode),
    /// An update was triggered after an `init` in the given mode.
    Updated(DisplayMode),
    /// The panel was put into deep sleep; it needs `init` again.
    Slept,
}

/// `display` and `clear` need an `init` in the same mode that no
/// `sleep` has undone.
pub open spec fn ready_for(state: DriverState, mode: DisplayMode) -> bool {
    state == DriverState::Initialized(mode) || state == DriverState::Updated(mode)
}

/// The three-step reset pulse with the panel's power-on hold times.
pub open spec fn spec_reset_ops() -> Seq<OpView> {
    seq![
        OpView::SetLine(ControlLine::Reset, true),
        OpView::DelayMs(200),
        OpView::SetLine(ControlLine::Reset, false),
        OpView::DelayMs(2),
        OpView::SetLine(ControlLine::Reset, true),
        OpView::DelayMs(200),
    ]
}

/// The display-update-control byte issued when triggering a refresh.
pub open spec fn spec_update_control(mode: DisplayMode) -> u8 {
    match mode {
        DisplayMode::Full => 0xF7,
        DisplayMode::Fast => 0xC7,
        DisplayMode::Grey => 0xC7,
    }
}

/// Trigger the update sequence for the mode and wait for the panel.
pub open spec fn spec_show_ops(mode: DisplayMode) -> Seq<OpView> {
    seq![
        OpView::Command(seq![0x22u8]),
        OpView::Data(seq![spec_update_control(mode)]),
        OpView::Command(seq![0x20u8]),
        OpView::WaitNotBusy,
    ]
}

/// Payload of the RAM Y start/end command: two zero placeholder bytes
/// for the X boundary, then height minus one, little endian.
pub open spec fn spec_y_window_data() -> Seq<u8> {
    seq![0u8, 0u8, ((HEIGHT - 1) % 256) as u8, ((HEIGHT - 1) / 256) as u8]
}

/// The mode-specific step of `init` between software reset and the
/// shared data-entry setup.
pub open spec fn spec_init_mode_ops(mode: DisplayMode) -> Seq<OpView> {
    match mode {
        DisplayMode::Full => Seq::<OpView>::empty(),
        DisplayMode::Fast => seq![
            OpView::Command(seq![0x18u8]),
            OpView::Data(seq![0x80u8]),
            OpView::Command(seq![0x22u8]),
            OpView::Data(seq![0xB1u8]),
            OpView::Command(seq![0x20u8]),
            OpView::WaitNotBusy,
        ],
        DisplayMode::Grey => seq![
            OpView::Command(seq![0x74u8]),
            OpView::Data(seq![0x54u8]),
            OpView::Command(seq![0x7Eu8]),
            OpView::Data(seq![0x3Bu8]),
            OpView::Command(seq![0x01u8]),
            OpView::Data(seq![0x07u8]),
            OpView::Data(seq![0x01u8]),
            OpView::Data(seq![0x00u8]),
        ],
    }
}

/// The greyscale tail of `init`: border off, voltage parameters from
/// the waveform table's vendor-fixed offsets, then the table itself.
pub open spec fn spec_init_grey_tail_ops() -> Seq<OpView> {
    seq![
        OpView::Command(seq![0x3Cu8]),
        OpView::Data(seq![0x00u8]),
        OpView::Command(seq![0x2Cu8]),
        OpView::Data(seq![spec_lut()[158]]),
        OpView::Command(seq![0x3Fu8]),
        OpView::Data(seq![spec_lut()[153]]),
        OpView::Command(seq![0x03u8]),
        OpView::Data(seq![spec_lut()[154]]),
        OpView::Command(seq![0x04u8]),
        OpView::Data(seq![spec_lut()[155]]),
        OpView::Data(seq![spec_lut()[156]]),
        OpView::Data(seq![spec_lut()[157]]),
        OpView::Command(seq![0x32u8]),
        OpView::Data(spec_lut()),
        OpView::WaitNotBusy,
    ]
}

/// Everything `init` sends: power on, reset pulse, software reset,
/// the mode-specific step, data-entry mode, the RAM Y window, and for
/// greyscale the waveform setup.
pub open spec fn spec_init_ops(mode: DisplayMode) -> Seq<OpView> {
    seq![OpView::SetLine(ControlLine::Power, true)] + spec_reset_ops() + seq![
        OpView::WaitNotBusy,
        OpView::Command(seq![0x12u8]),
        OpView::WaitNotBusy,
    ] + spec_init_mode_ops(mode) + seq![
        OpView::Command(seq![0x11u8]),
        OpView::Data(seq![0x03u8]),
        OpView::Command(seq![0x45u8]),
        OpView::Data(spec_y_window_data()),
    ] + (if mode == DisplayMode::Grey {
        spec_init_grey_tail_ops()
    } else {
        Seq::<OpView>::empty()
    })
}

/// The greyscale transfer: plane 0101 to the new-data RAM, plane 0011
/// to the old-data RAM, then trigger.
pub open spec fn spec_grey_ops(v: RasterView, horizontal: bool) -> Seq<OpView> {
    seq![
        OpView::Command(seq![0x24u8]),
        OpView::Data(packed_plane(Plane::Bits0101, v, horizontal)),
        OpView::Command(seq![0x26u8]),
        OpView::Data(packed_plane(Plane::Bits0011, v, horizontal)),
    ] + spec_show_ops(DisplayMode::Grey)
}

/// Everything `display` sends for an image of an accepted geometry:
/// reset the RAM Y counter, transfer the packed buffer or buffers,
/// then trigger the refresh.
pub open spec fn spec_display_ops(v: RasterView, mode: DisplayMode) -> Seq<OpView> {
    let horizontal = rotated_geometry(v);
    seq![OpView::Command(seq![0x4Fu8]), OpView::Data(seq![0u8, 0u8])] + (if mode
        == DisplayMode::Grey {
        spec_grey_ops(v, horizontal)
    } else {
        seq![
            OpView::Command(seq![0x24u8]),
            OpView::Data(packed_plane(Plane::Mono, v, horizontal)),
        ] + spec_show_ops(mode)
    })
}

/// Everything `sleep` sends: the deep-sleep command, the settle
/// delay, then all control lines low.
pub open spec fn spec_sleep_ops() -> Seq<OpView> {
    seq![
        OpView::Command(seq![0x10u8]),
        OpView::Data(seq![0x01u8]),
        OpView::DelayMs(2000),
        OpView::SetLine(ControlLine::Reset, false),
        OpView::SetLine(ControlLine::DataCommand, false),
        OpView::SetLine(ControlLine::Power, false),
    ]
}

/// The all-white image of native geometry, as `clear` shows it.
pub open spec fn spec_white_native() -> RasterView {
    RasterView {
        width: WIDTH as int,
        height: HEIGHT as int,
        pixels: Seq::new((WIDTH * HEIGHT) as nat, |i: int| WHITE),
    }
}

/// The all-white image of rotated geometry, the drawing canvas.
pub open spec fn spec_white_rotated() -> RasterView {
    RasterView {
        width: HEIGHT as int,
        height: WIDTH as int,
        pixels: Seq::new((WIDTH * HEIGHT) as nat, |i: int| WHITE),
    }
}

/// The protocol driver handle.  It tracks where the panel stands in
/// the protocol; the hardware resources live with the layer that
/// performs the emitted operations.
pub struct Display {
    state: DriverState,
}

impl Display {
    /// GPIO line number of the reset output.
    pub const OUT_RST: u8 = 17;

    /// GPIO line number of the data/command select output.
    pub const OUT_DC: u8 = 25;

    /// GPIO line number of the power output.
    pub const OUT_PWR: u8 = 18;

    /// GPIO line number of the busy input.
    pub const IN_BUSY: u8 = 24;

    /// Serial bus clock rate in Hz.
    pub const SPI_CLOCK_HZ: u32 = 4000000;

    /// Interval in milliseconds between reads of the busy line while
    /// waiting for the panel.
    pub const POLL_INTERVAL_MS: u64 = 20;

    /// Where the panel stands in the protocol.
    pub closed spec fn state(&self) -> DriverState {
        self.state
    }

    /// A fresh handle for a panel that has not been initialized.
    pub fn new() -> (d: Display)
        ensures
            d.state() == DriverState::Constructed,
    {
        Display { state: DriverState::Constructed }
    }

    /// The all-white image in the panel's native orientation.
    pub fn image_white_v() -> (r: DisplayImage)
        ensures
            r@.wf(),
            r@ == spec_white_native(),
    {
        let img = DisplayImage::filled(WIDTH, HEIGHT, WHITE);
        proof {
            assert(img@.pixels.len() == (WIDTH * HEIGHT) as int) by (nonlinear_arith)
                requires
                    img@.pixels.len() == img@.width * img@.height,
                    img@.width == WIDTH as int,
                    img@.height == HEIGHT as int,
            ;
            assert(img@.pixels =~= spec_white_native().pixels);
            assert(img@ =~= spec_white_native());
        }
        img
    }

    /// The all-white image in the rotated orientation.
    pub fn image_white_h() -> (r: DisplayImage)
        ensures
            r@.wf(),
            r@ == spec_white_rotated(),
    {
        let img = DisplayImage::filled(HEIGHT, WIDTH, WHITE);
        proof {
            assert(img@.pixels.len() == (WIDTH * HEIGHT) as int) by (nonlinear_arith)
                requires
                    img@.pixels.len() == img@.width * img@.height,
                    img@.width == HEIGHT as int,
                    img@.height == WIDTH as int,
            ;
            assert(img@.pixels =~= spec_white_rotated().pixels);
            assert(img@ =~= spec_white_rotated());
        }
        img
    }

    /// The packed buffer geometry: bytes per row (the width padded up
    /// to whole bytes) and the row count.
    pub fn image_size_bytes() -> (r: (usize, usize))
        ensures
            r.0 == crate::pack::ROW_BYTES as int,
            r.1 == HEIGHT as int,
    {
        let width = match WIDTH % 8 {
            0 => WIDTH / 8,
            _ => WIDTH / 8 + 1,
        };
        (width as usize, HEIGHT as usize)
    }

    /// Append a one-byte command write.
    fn send_command(ops: &mut Vec<Op>, command: u8)
        ensures
            ops_view(final(ops)@) == ops_view(old(ops)@) + seq![OpView::Command(seq![command])],
    {
        let bytes: Vec<u8> = vec![command];
        proof {
            assert(bytes@ =~= seq![command]);
        }
        ops.push(Op::Command(bytes));
        proof {
            assert(ops_view(ops@) =~= ops_view(old(ops)@) + seq![OpView::Command(seq![command])]);
        }
    }

    /// Append a data write of the given bytes.
    fn send_data(ops: &mut Vec<Op>, data: Vec<u8>)
        ensures
            ops_view(final(ops)@) == ops_view(old(ops)@) + seq![OpView::Data(data@)],
    {
        let ghost b = data@;
        ops.push(Op::Data(data));
        proof {
            assert(ops_view(ops@) =~= ops_view(old(ops)@) + seq![OpView::Data(b)]);
        }
    }

    /// Append a one-byte data write.
    fn send_data_byte(ops: &mut Vec<Op>, byte: u8)
        ensures
            ops_view(final(ops)@) == ops_view(old(ops)@) + seq![OpView::Data(seq![byte])],
    {
        let bytes: Vec<u8> = vec![byte];
        proof {
            assert(bytes@ =~= seq![byte]);
        }
        Self::send_data(ops, bytes);
    }

    /// Append a control line change.
    fn set_line(ops: &mut Vec<Op>, line: ControlLine, high: bool)
        ensures
            ops_view(final(ops)@) == ops_view(old(ops)@) + seq![OpView::SetLine(line, high)],
    {
        ops.push(Op::SetLine(line, high));
        proof {
            assert(ops_view(ops@) =~= ops_view(old(ops)@) + seq![OpView::SetLine(line, high)]);
        }
    }

    /// Append a fixed delay.
    fn delay_ms(ops: &mut Vec<Op>, ms: u64)
        ensures
            ops_view(final(ops)@) == ops_view(old(ops)@) + seq![OpView::DelayMs(ms)],
    {
        ops.push(Op::DelayMs(ms));
        proof {
            assert(ops_view(ops@) =~= ops_view(old(ops)@) + seq![OpView::DelayMs(ms)]);
        }
    }

    /// Append the poll-until-not-busy operation.
    fn wait_not_busy(ops: &mut Vec<Op>)
        ensures
            ops_view(final(ops)@) == ops_view(old(ops)@) + seq![OpView::WaitNotBusy],
    {
        ops.push(Op::WaitNotBusy);
        proof {
            assert(ops_view(ops@) =~= ops_view(old(ops)@) + seq![OpView::WaitNotBusy]);
        }
    }

    /// Append the fixed three-step reset pulse.
    fn reset(ops: &mut Vec<Op>)
        ensures
            ops_view(final(ops)@) == ops_view(old(ops)@) + spec_reset_ops(),
    {
        Self::set_line(ops, ControlLine::Reset, true);
        Self::delay_ms(ops, 200);
        Self::set_line(ops, ControlLine::Reset, false);
        Self::delay_ms(ops, 2);
        Self::set_line(ops, ControlLine::Reset, true);
        Self::delay_ms(ops, 200);
        proof {
            assert(ops_view(ops@) =~~= ops_view(old(ops)@) + spec_reset_ops());
        }
    }

    /// Append the update trigger for the mode and the busy wait.
    fn show(ops: &mut Vec<Op>, mode: DisplayMode)
        ensures
            ops_view(final(ops)@) == ops_view(old(ops)@) + spec_show_ops(mode),
    {
        Self::send_command(ops, 0x22);
        match mode {
            DisplayMode::Full => Self::send_data_byte(ops, 0xF7),
            DisplayMode::Fast | DisplayMode::Grey => Self::send_data_byte(ops, 0xC7),
        }
        Self::send_command(ops, 0x20);
        Self::wait_not_busy(ops);
        proof {
            assert(ops_view(ops@) =~~= ops_view(old(ops)@) + spec_show_ops(mode));
        }
    }

    /// Initialize the panel for the given mode.  Allowed from any
    /// state; the panel afterwards accepts `display` and `clear` in
    /// that mode.
    pub fn init(&mut self, mode: DisplayMode) -> (ops: Vec<Op>)
        ensures
            ops_view(ops@) == spec_init_ops(mode),
            final(self).state() == DriverState::Initialized(mode),
    {
        let mut ops: Vec<Op> = Vec::new();

        Self::set_line(&mut ops, ControlLine::Power, true);
        Self::reset(&mut ops);
        Self::wait_not_busy(&mut ops);

        // Software reset
        Self::send_command(&mut ops, 0x12);
        Self::wait_not_busy(&mut ops);

        match mode {
            DisplayMode::Full => {},
            DisplayMode::Fast => {
                // Select the internal temperature sensor
                Self::send_command(&mut ops, 0x18);
                Self::send_data_byte(&mut ops, 0x80);
                // Load temperature and the alternate waveform
                Self::send_command(&mut ops, 0x22);
                Self::send_data_byte(&mut ops, 0xB1);
                Self::send_command(&mut ops, 0x20);
                Self::wait_not_busy(&mut ops);
            },
            DisplayMode::Grey => {
                // Analog, then digital block control
                Self::send_command(&mut ops, 0x74);
                Self::send_data_byte(&mut ops, 0x54);
                Self::send_command(&mut ops, 0x7E);
                Self::send_data_byte(&mut ops, 0x3B);
                // Driver output control
                Self::send_command(&mut ops, 0x01);
                Self::send_data_byte(&mut ops, 0x07);
                Self::send_data_byte(&mut ops, 0x01);
                Self::send_data_byte(&mut ops, 0x00);
            },
        }

        // Data entry mode: Y increment, X increment, counter in X
        Self::send_command(&mut ops, 0x11);
        Self::send_data_byte(&mut ops, 0x03);

        // RAM Y address start/end: height - 1, little endian
        let bound: u16 = (HEIGHT as u16) - 1;
        let y_lo: u8 = (bound % 256) as u8;
        let y_hi: u8 = (bound / 256) as u8;
        Self::send_command(&mut ops, 0x45);
        let window: Vec<u8> = vec![0x00, 0x00, y_lo, y_hi];
        proof {
            assert(window@ =~= spec_y_window_data());
        }
        Self::send_data(&mut ops, window);

        if let DisplayMode::Grey = mode {
            // No border around the update
            Self::send_command(&mut ops, 0x3C);
            Self::send_data_byte(&mut ops, 0x00);

            let lut = lut_2bit();

            // VCOM voltage
            Self::send_command(&mut ops, 0x2C);
            Self::send_data_byte(&mut ops, lut[158]);

            // End-option
            Self::send_command(&mut ops, 0x3F);
            Self::send_data_byte(&mut ops, lut[153]);

            // Gate voltage
            Self::send_command(&mut ops, 0x03);
            Self::send_data_byte(&mut ops, lut[154]);

            // Source voltages
            Self::send_command(&mut ops, 0x04);
            Self::send_data_byte(&mut ops, lut[155]);
            Self::send_data_byte(&mut ops, lut[156]);
            Self::send_data_byte(&mut ops, lut[157]);

            // The waveform table itself
            Self::send_command(&mut ops, 0x32);
            Self::send_data(&mut ops, lut);

            Self::wait_not_busy(&mut ops);
        }
        self.state = DriverState::Initialized(mode);
        proof {
            assert(ops_view(ops@) =~~= spec_init_ops(mode));
        }
        ops
    }

    /// Transfer both greyscale planes and trigger a greyscale
    /// refresh.  The caller settles the orientation; the geometry
    /// must match it.
    pub fn display_greyscale(&mut self, img: DisplayImage, horizontal: bool) -> (r: Result<
        Vec<Op>,
        DriverError,
    >)
        requires
            img@.wf(),
            horizontal ==> rotated_geometry(img@),
            !horizontal ==> native_geometry(img@),
        ensures
            match r {
                Ok(ops) => {
                    &&& ready_for(old(self).state(), DisplayMode::Grey)
                    &&& ops_view(ops@) == spec_grey_ops(img@, horizontal)
                    &&& final(self).state() == DriverState::Updated(DisplayMode::Grey)
                },
                Err(e) => {
                    &&& e == DriverError::WrongState
                    &&& !ready_for(old(self).state(), DisplayMode::Grey)
                    &&& *final(self) == *old(self)
                },
            },
    {
        match self.state {
            DriverState::Initialized(DisplayMode::Grey) | DriverState::Updated(
                DisplayMode::Grey,
            ) => {},
            _ => {
                return Err(DriverError::WrongState);
            },
        }
        let mut ops: Vec<Op> = Vec::new();

        let buffer_0101 = pack_plane(&img, horizontal, Plane::Bits0101);
        let buffer_0011 = pack_plane(&img, horizontal, Plane::Bits0011);

        Self::send_command(&mut ops, 0x24);
        Self::send_data(&mut ops, buffer_0101);

        Self::send_command(&mut ops, 0x26);
        Self::send_data(&mut ops, buffer_0011);

        Self::show(&mut ops, DisplayMode::Grey);

        self.state = DriverState::Updated(DisplayMode::Grey);
        proof {
            assert(ops_view(ops@) =~~= spec_grey_ops(img@, horizontal));
        }
        Ok(ops)
    }

    /// Show an image.  Fails with the offending dimensions when the
    /// image matches neither accepted geometry, and with a state
    /// error when no compatible `init` precedes; either failure emits
    /// no bus operation at all.
    pub fn display(&mut self, img: DisplayImage, mode: DisplayMode) -> (r: Result<
        Vec<Op>,
        DriverError,
    >)
        requires
            img@.wf(),
        ensures
            match r {
                Ok(ops) => {
                    &&& native_geometry(img@) || rotated_geometry(img@)
                    &&& ready_for(old(self).state(), mode)
                    &&& ops_view(ops@) == spec_display_ops(img@, mode)
                    &&& final(self).state() == DriverState::Updated(mode)
                },
                Err(DriverError::WrongInput { width, height }) => {
                    &&& !native_geometry(img@)
                    &&& !rotated_geometry(img@)
                    &&& width == img@.width
                    &&& height == img@.height
                    &&& *final(self) == *old(self)
                },
                Err(DriverError::WrongState) => {
                    &&& native_geometry(img@) || rotated_geometry(img@)
                    &&& !ready_for(old(self).state(), mode)
                    &&& *final(self) == *old(self)
                },
            },
    {
        let w = img.width();
        let h = img.height();
        let horizontal = if w == WIDTH && h == HEIGHT {
            false
        } else if w == HEIGHT && h == WIDTH {
            true
        } else {
            return Err(DriverError::WrongInput { width: w, height: h });
        };
        let ready = match self.state {
            DriverState::Initialized(m) => m == mode,
            DriverState::Updated(m) => m == mode,
            _ => false,
        };
        if !ready {
            return Err(DriverError::WrongState);
        }
        let mut ops: Vec<Op> = Vec::new();

        // Reset the RAM Y address counter
        Self::send_command(&mut ops, 0x4F);
        let zeros: Vec<u8> = vec![0x00, 0x00];
        proof {
            assert(zeros@ =~= seq![0u8, 0u8]);
        }
        Self::send_data(&mut ops, zeros);

        if let DisplayMode::Grey = mode {
            match self.display_greyscale(img, horizontal) {
                Ok(mut rest) => {
                    let ghost pre = ops@;
                    let ghost restv = rest@;
                    ops.append(&mut rest);
                    proof {
                        lemma_ops_view_concat(pre, restv);
                        assert(ops_view(ops@) =~~= spec_display_ops(img@, mode));
                    }
                    return Ok(ops);
                },
                Err(e) => {
                    return Err(e);
                },
            }
        }
        let buffer = pack_plane(&img, horizontal, Plane::Mono);
        Self::send_command(&mut ops, 0x24);
        Self::send_data(&mut ops, buffer);

        Self::show(&mut ops, mode);

        self.state = DriverState::Updated(mode);
        proof {
            assert(ops_view(ops@) =~~= spec_display_ops(img@, mode));
        }
        Ok(ops)
    }

    /// Show the all-white native image: clear the panel to white.
    pub fn clear(&mut self, mode: DisplayMode) -> (r: Result<Vec<Op>, DriverError>)
        ensures
            match r {
                Ok(ops) => {
                    &&& ready_for(old(self).state(), mode)
                    &&& ops_view(ops@) == spec_display_ops(spec_white_native(), mode)
                    &&& final(self).state() == DriverState::Updated(mode)
                },
                Err(e) => {
                    &&& e == DriverError::WrongState
                    &&& !ready_for(old(self).state(), mode)
                    &&& *final(self) == *old(self)
                },
            },
    {
        let img = Self::image_white_v();
        self.display(img, mode)
    }

    /// Put the panel into deep sleep and drop all control lines.
    /// A new `init` is needed before the next refresh.
    pub fn sleep(&mut self) -> (ops: Vec<Op>)
        ensures
            ops_view(ops@) == spec_sleep_ops(),
            final(self).state() == DriverState::Slept,
    {
        let mut ops: Vec<Op> = Vec::new();

        Self::send_command(&mut ops, 0x10);
        Self::send_data_byte(&mut ops, 0x01);

        Self::delay_ms(&mut ops, 2000);

        Self::set_line(&mut ops, ControlLine::Reset, false);
        Self::set_line(&mut ops, ControlLine::DataCommand, false);
        Self::set_line(&mut ops, ControlLine::Power, false);

        self.state = DriverState::Slept;
        proof {
            assert(ops_view(ops@) =~~= spec_sleep_ops());
        }
        ops
    }
}

} // verus!
