//! The suppression policy: whether styling is emitted at all.
use vstd::prelude::*;

verus! {

/// `true` when styling is emitted for a destination, given whether the
/// terminal check is enabled, whether the disabling environment variable is
/// present (with any value, the empty one included), and whether the
/// destination is an interactive terminal.
pub open spec fn colorize_allowed(check_terminal: bool, no_color: bool, is_terminal: bool) -> bool {
    !no_color && (!check_terminal || is_terminal)
}

/// Configuration of the suppression policy.
#[derive(Clone, Copy, Debug)]
pub struct ColorizeConfig {
    check_terminal: bool,
}

impl ColorizeConfig {
    /// Whether styling is withheld from destinations that are not terminals.
    pub closed spec fn checks_terminal(&self) -> bool {
        self.check_terminal
    }

    /// Set whether to check that the destination is a terminal.
    ///
    /// With `true` (the default), styling is withheld when the destination is
    /// not a terminal; with `false`, the destination is not consulted.
    pub fn set_terminal_check(&mut self, check: bool)
        ensures
            final(self).checks_terminal() == check,
    {
        self.check_terminal = check;
    }

    /// Whether the terminal check is enabled.
    pub fn terminal_check(&self) -> (r: bool)
        ensures
            r == self.checks_terminal(),
    {
        self.check_terminal
    }

    /// Decide whether styling is emitted: never while the disabling
    /// environment variable is present; otherwise always when the terminal
    /// check is disabled, and only to a terminal when it is enabled.
    pub fn should_colorize(&self, no_color: bool, is_terminal: bool) -> (r: bool)
        ensures
            r == colorize_allowed(self.checks_terminal(), no_color, is_terminal),
    {
        !no_color && (!self.check_terminal || is_terminal)
    }
}

impl Default for ColorizeConfig {
    /// The terminal check is enabled by default.
    fn default() -> (r: Self)
        ensures
            r.checks_terminal(),
    {
        ColorizeConfig { check_terminal: true }
    }
}

} // verus!
