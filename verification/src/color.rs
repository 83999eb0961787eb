//! Choosing whether diagnostic output is colorized.

use vstd::prelude::*;

verus! {

/// When to colorize: always, never, or only when standard output is a
/// terminal.
#[derive(Debug, Clone, Copy, PartialEq)]
pub enum ColorMode {
    Always,
    Never,
    Auto,
}

/// Relies on `atty::is(atty::Stream::Stdout)`: whether standard output is a
/// terminal. The answer depends on the process's environment, so nothing
/// more is assumed of it.
#[verifier::external_body]
fn stdout_is_tty() -> bool {
    atty::is(atty::Stream::Stdout)
}

impl ColorMode {
    /// The mode the command-line flags ask for: forced on, forced off, or
    /// automatic when neither flag is given.
    pub fn from_flags(color: bool, no_color: bool) -> (r: Self)
        ensures
            color ==> r is Always,
            !color && no_color ==> r is Never,
            !color && !no_color ==> r is Auto,
    {
        if color {
            ColorMode::Always
        } else if no_color {
            ColorMode::Never
        } else {
            ColorMode::Auto
        }
    }

    /// Whether to colorize: forced modes decide by themselves, the automatic
    /// mode follows whether standard output is a terminal.
    pub fn should_colorize(&self) -> (r: bool)
        ensures
            self is Always ==> r,
            self is Never ==> !r,
    {
        match self {
            ColorMode::Always => true,
            ColorMode::Never => false,
            ColorMode::Auto => stdout_is_tty(),
        }
    }
}

} // verus!
