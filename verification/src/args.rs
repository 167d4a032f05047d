//! Invocation options: which refresh mode to drive the panel in and
//! which content command to run.  Command-line parsing itself lives
//! outside the library; these are the plain values it produces.
use vstd::prelude::*;

verus! {

/// How the panel performs a refresh: `Full` is the slow flicker-free
/// update, `Fast` reloads the waveform for a quick monochrome update,
/// and `Grey` drives the four-level greyscale waveform.
#[derive(Clone, Copy, Debug, PartialEq, Eq, Structural)]
pub enum DisplayMode {
    Full,
    Fast,
    Grey,
}

impl Default for DisplayMode {
    fn default() -> (r: Self)
        ensures
            r == DisplayMode::Full,
    {
        DisplayMode::Full
    }
}

/// What to draw before refreshing the panel.
#[derive(Clone, Copy, Debug, PartialEq, Eq, Structural)]
pub enum Command {
    Clear,
    Debug,
    Tasks,
    Network,
    Calendar,
}

impl Default for Command {
    fn default() -> (r: Self)
        ensures
            r == Command::Clear,
    {
        Command::Clear
    }
}

/// One run's options: the refresh mode, the content command, and
/// whether to repeat the cycle instead of exiting after one pass.
#[derive(Clone, Copy, Debug)]
pub struct Args {
    pub repeat: bool,
    pub mode: DisplayMode,
    pub command: Command,
}

} // verus!
