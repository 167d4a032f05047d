//! Driver library for a 176x264 bistable e-paper panel.
//!
//! The library turns a raster image and a display mode into the exact
//! sequence of bus operations the panel expects: quantizing pixels,
//! packing them into the panel's bit buffers, and walking the command
//! state machine (reset, init, transfer, trigger, sleep).  Performing
//! the operations on real control lines and a serial bus is left to a
//! thin unverified layer around this crate.
use vstd::prelude::*;

pub mod args;
pub mod color;
pub mod driver;
pub mod lut;
pub mod pack;
pub mod raster;

use crate::args::{Args, DisplayMode};
use crate::driver::{
    append_ops, ops_view, spec_display_ops, spec_init_ops, spec_sleep_ops, spec_white_native,
    Display, DriverError, Op, OpView,
};
use crate::pack::{native_geometry, rotated_geometry};
use crate::raster::{DisplayImage, RasterView};

verus! {

/// Everything one refresh cycle sends: a fast clear of the panel, the
/// content refresh in the chosen mode, and a full clear before the
/// panel is put back to sleep; with the settle pause between content
/// and cleanup, and the repeat pause when another cycle follows.
pub open spec fn spec_cycle_ops(v: RasterView, mode: DisplayMode, repeat: bool) -> Seq<OpView> {
    spec_init_ops(DisplayMode::Fast) + spec_display_ops(spec_white_native(), DisplayMode::Fast)
        + spec_init_ops(mode) + spec_display_ops(v, mode) + spec_sleep_ops() + seq![
        OpView::DelayMs(5000),
    ] + spec_init_ops(DisplayMode::Full) + spec_display_ops(spec_white_native(), DisplayMode::Full)
        + spec_sleep_ops() + (if repeat {
        seq![OpView::DelayMs(10000)]
    } else {
        Seq::<OpView>::empty()
    })
}

/// One pass of the program's main loop, as bus operations: show the
/// prepared image in the requested mode between a fast clear and a
/// full clear, sleeping the panel after each refresh.  Fails exactly
/// when the image matches neither accepted geometry.
pub fn try_main(args: &Args, img: DisplayImage) -> (r: Result<Vec<Op>, DriverError>)
    requires
        img@.wf(),
    ensures
        match r {
            Ok(ops) => {
                &&& native_geometry(img@) || rotated_geometry(img@)
                &&& ops_view(ops@) == spec_cycle_ops(img@, args.mode, args.repeat)
            },
            Err(DriverError::WrongInput { width, height }) => {
                &&& !native_geometry(img@)
                &&& !rotated_geometry(img@)
                &&& width == img@.width
                &&& height == img@.height
            },
            Err(DriverError::WrongState) => false,
        },
{
    let mut dev = Display::new();

    // Initialize and clear
    let mut ops = dev.init(DisplayMode::Fast);
    match dev.clear(DisplayMode::Fast) {
        Ok(more) => append_ops(&mut ops, more),
        Err(e) => {
            return Err(e);
        },
    }

    // Reinitialize and display the content
    append_ops(&mut ops, dev.init(args.mode));
    match dev.display(img, args.mode) {
        Ok(more) => append_ops(&mut ops, more),
        Err(e) => {
            return Err(e);
        },
    }
    append_ops(&mut ops, dev.sleep());

    // Let the content stand before the cleanup refresh
    append_ops(&mut ops, vec![Op::DelayMs(5000)]);

    // Deinitialize: clear back to white and sleep again
    append_ops(&mut ops, dev.init(DisplayMode::Full));
    match dev.clear(DisplayMode::Full) {
        Ok(more) => append_ops(&mut ops, more),
        Err(e) => {
            return Err(e);
        },
    }
    append_ops(&mut ops, dev.sleep());

    // Pause before the next cycle
    if args.repeat {
        append_ops(&mut ops, vec![Op::DelayMs(10000)]);
    }
    proof {
        assert(ops_view(ops@) =~~= spec_cycle_ops(img@, args.mode, args.repeat));
    }
    Ok(ops)
}

} // verus!
