//! The two processor exceptions that the kernel handles this early, and how
//! each one is reported.
use vstd::prelude::*;

verus! {

/// Breakpoint exception (#BP, vector 0x03): raised by a debug breakpoint
/// instruction. Handling it is an observation point; execution resumes.
pub struct BreakpointException;

impl BreakpointException {
    pub const CODE: u8 = 0x03;

    pub const MNEMONIC: &'static str = "#BP";

    /// The diagnostic tag that opens the line reported for this exception.
    pub fn tag() -> (r: &'static str)
        ensures
            r@ == "(#BP, 0x03)"@,
    {
        "(#BP, 0x03)"
    }
}

/// Double fault exception (#DF, vector 0x08): the processor failed while
/// delivering another exception. It is fatal, and its handler runs on a stack
/// of its own.
pub struct DoubleFaultException;

impl DoubleFaultException {
    pub const CODE: u8 = 0x08;

    pub const MNEMONIC: &'static str = "#DF";

    /// Slot of the task state's interrupt stack table that holds the stack the
    /// handler runs on.
    pub const IST_INDEX: usize = 0;

    /// The diagnostic tag that opens the line reported for this exception.
    pub fn tag() -> (r: &'static str)
        ensures
            r@ == "(#DF, 0x08)"@,
    {
        "(#DF, 0x08)"
    }
}


/// How a handler ends: it returns to the interrupted context, or it never
/// returns and the machine halts.
#[derive(Debug, Clone, Copy, PartialEq, Eq)]
pub enum HandlerKind {
    Resumable,
    Terminal,
}

/// The handlers that the vector table can register.
#[derive(Debug, Clone, Copy, PartialEq, Eq)]
pub enum ExceptionHandler {
    Breakpoint,
    DoubleFault,
}

impl ExceptionHandler {
    pub open spec fn spec_vector(&self) -> u8 {
        match self {
            ExceptionHandler::Breakpoint => BreakpointException::CODE,
            ExceptionHandler::DoubleFault => DoubleFaultException::CODE,
        }
    }

    pub open spec fn spec_kind(&self) -> HandlerKind {
        match self {
            ExceptionHandler::Breakpoint => HandlerKind::Resumable,
            ExceptionHandler::DoubleFault => HandlerKind::Terminal,
        }
    }

    /// The vector the processor raises this exception on.
    pub fn vector(&self) -> (r: u8)
        ensures
            r == self.spec_vector(),
    {
        match self {
            ExceptionHandler::Breakpoint => BreakpointException::CODE,
            ExceptionHandler::DoubleFault => DoubleFaultException::CODE,
        }
    }

    /// Whether the handler resumes or halts.
    pub fn kind(&self) -> (r: HandlerKind)
        ensures
            r == self.spec_kind(),
    {
        match self {
            ExceptionHandler::Breakpoint => HandlerKind::Resumable,
            ExceptionHandler::DoubleFault => HandlerKind::Terminal,
        }
    }
}

} // verus!
