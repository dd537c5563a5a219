use vstd::prelude::*;

verus! {

/// Which of the three user programs a compile or runtime failure belongs to.
#[derive(Clone, Copy, Debug, PartialEq, Eq, Structural)]
pub enum Phase {
    Before,
    Main,
    After,
}

/// The three concurrent stages of a run, in the order in which they are joined.
#[derive(Clone, Copy, Debug, PartialEq, Eq, Structural)]
pub enum Stage {
    Reader,
    Processor,
    Writer,
}

/// Every way a run can fail.
#[derive(Debug)]
pub enum RunError {
    /// One of the programs did not compile; nothing ran.
    Compile { phase: Phase, parse: rhai::ParseError },
    /// Reading the input stream failed.
    InputIo { message: String },
    /// Writing the output stream failed.
    OutputIo { message: String },
    /// A program raised a fault while it ran.
    Script { phase: Phase, fault: Box<rhai::EvalAltResult> },
    /// A stage handed off to a queue whose other end had already gone away.
    ChannelClosed { stage: Stage },
}

impl RunError {
    pub open spec fn is_compile_in(&self, p: Phase) -> bool {
        match self {
            RunError::Compile { phase, .. } => phase == p,
            _ => false,
        }
    }

    pub open spec fn is_script_in(&self, p: Phase) -> bool {
        match self {
            RunError::Script { phase, .. } => phase == p,
            _ => false,
        }
    }
}

} // verus!
