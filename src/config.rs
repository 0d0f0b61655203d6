//! Where the log goes: set once, by the first caller.

use vstd::prelude::*;

verus! {

/// The path that a configuration holds before anyone sets one.
pub const DEFAULT_LOG_FILE: &'static str = "loginfo.log";

/// The destination of the log, with whether it has been chosen already.
pub struct LogConfig {
    file_path: String,
    configured: bool,
}

impl View for LogConfig {
    /// The destination path, and whether a caller has set it.
    type V = (Seq<char>, bool);

    closed spec fn view(&self) -> (Seq<char>, bool) {
        (self.file_path@, self.configured)
    }
}

/// A configuration after `init_logging` with `file_name`: the first name
/// given is kept, every later one is ignored.
pub open spec fn configured_with(c: (Seq<char>, bool), file_name: Seq<char>) -> (Seq<char>, bool) {
    if c.1 {
        c
    } else {
        (file_name, true)
    }
}

impl Default for LogConfig {
    /// A configuration that nobody has set yet, holding `DEFAULT_LOG_FILE`.
    fn default() -> (r: Self)
        ensures
            r@ == (DEFAULT_LOG_FILE@, false),
    {
        LogConfig { file_path: String::from_str(DEFAULT_LOG_FILE), configured: false }
    }
}

impl LogConfig {
    /// The path that the log is written to.
    pub fn file_path(&self) -> (r: &str)
        ensures
            r@ == self@.0,
    {
        self.file_path.as_str()
    }

    /// Whether a caller has set the destination.
    pub fn is_configured(&self) -> (r: bool)
        ensures
            r == self@.1,
    {
        self.configured
    }
}

/// Sets the destination to `file_name` unless one was set before, in which
/// case nothing changes.
pub fn init_logging(config: &mut LogConfig, file_name: &str)
    ensures
        final(config)@ == configured_with(old(config)@, file_name@),
{
    if !config.configured {
        config.file_path = String::from_str(file_name);
        config.configured = true;
    }
}

/// Once a destination is set, a later `init_logging` leaves it as it is: a
/// configuration set to `a` and then to `b` writes to `a`.
pub proof fn lemma_first_configuration_wins(c: (Seq<char>, bool), a: Seq<char>, b: Seq<char>)
    ensures
        configured_with(configured_with(c, a), b) == configured_with(c, a),
        !c.1 ==> configured_with(configured_with(c, a), b).0 == a,
{
}

} // verus!
