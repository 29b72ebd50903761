//! The log of one compilation.

use vstd::prelude::*;
use vstd::string::StringExecFns;

verus! {

/// Collects what the compiler logs while it runs.
pub struct Logger {
    msg: String,
}

impl Logger {
    /// The text logged so far.
    pub closed spec fn text(&self) -> Seq<char> {
        self.msg@
    }

    /// A logger that has logged nothing.
    pub fn new() -> (logger: Logger)
        ensures
            logger.text() == Seq::<char>::empty(),
    {
        Logger { msg: String::new() }
    }

    /// Adds one message to the end of the log.
    pub fn log(&mut self, message: &str)
        ensures
            final(self).text() == old(self).text() + message@,
    {
        self.msg.append(message);
    }

    /// Ends the logging and hands out the text.
    pub fn finalize(self) -> (text: String)
        ensures
            text@ == self.text(),
    {
        self.msg
    }
}

} // verus!
