//! When, during a run, a frame is captured for comparison.

use crate::text::decimal;
use crate::text::decimal_digits;
use vstd::prelude::*;
use vstd::string::StringExecFns;

verus! {

/// The event that makes a capture happen.
#[derive(Clone, Copy, Debug, PartialEq, Eq, Hash, Structural)]
pub enum ImageTrigger {
    /// After the last frame of the run.
    LastFrame,
    /// After the frame or tick of the given number.
    SpecificIteration(u32),
    /// On an explicit command of the content under test. Any number of
    /// captures may share this trigger.
    FsCommand,
}

impl ImageTrigger {
    /// The trigger is the explicit command, which captures may share.
    pub open spec fn is_manual(self) -> bool {
        self == ImageTrigger::FsCommand
    }

    /// How a message names the trigger.
    pub open spec fn name(self) -> Seq<char> {
        match self {
            ImageTrigger::LastFrame => "LastFrame"@,
            ImageTrigger::SpecificIteration(iteration) => "SpecificIteration("@ + decimal_digits(
                iteration as nat,
            ) + ")"@,
            ImageTrigger::FsCommand => "FsCommand"@,
        }
    }

    /// Writes the name of the trigger.
    pub fn describe(&self) -> (name: String)
        ensures
            name@ == self.name(),
    {
        match self {
            ImageTrigger::LastFrame => String::from_str("LastFrame"),
            ImageTrigger::SpecificIteration(iteration) => {
                let mut name: String = String::from_str("SpecificIteration(");
                name.append(decimal(*iteration as u64).as_str());
                name.append(")");
                name
            },
            ImageTrigger::FsCommand => String::from_str("FsCommand"),
        }
    }
}

impl Default for ImageTrigger {
    fn default() -> (trigger: ImageTrigger)
        ensures
            trigger == ImageTrigger::LastFrame,
    {
        ImageTrigger::LastFrame
    }
}

} // verus!
