//! The behavioural interpreter's status record. The interpreter itself
//! validates IR semantics before lowering and is a collaborator of the
//! backend; only its status flags belong to the library.

use vstd::prelude::*;

verus! {

/// Status of an interpreter run: whether it finished, whether the program
/// was malformed, and whether any output disagreed with its trace.
#[derive(Clone, Debug)]
pub struct Interpreter {
    print: bool,
    finished: bool,
    malformed: bool,
    failed: bool,
}

impl Default for Interpreter {
    fn default() -> (r: Interpreter)
        ensures
            !r.is_malformed_spec(),
            !r.is_finished_spec(),
            !r.is_failed_spec(),
    {
        Interpreter { print: false, finished: false, malformed: false, failed: false }
    }
}

impl Interpreter {
    /// Whether the program was found malformed.
    pub closed spec fn is_malformed_spec(&self) -> bool {
        self.malformed
    }

    /// Whether the run reached the end of the trace.
    pub closed spec fn is_finished_spec(&self) -> bool {
        self.finished
    }

    /// Whether any output disagreed with the trace.
    pub closed spec fn is_failed_spec(&self) -> bool {
        self.failed
    }

    /// Whether progress is printed per cycle.
    pub closed spec fn print_spec(&self) -> bool {
        self.print
    }

    pub fn is_malformed(&self) -> (r: bool)
        ensures
            r == self.is_malformed_spec(),
    {
        self.malformed
    }

    pub fn is_finished(&self) -> (r: bool)
        ensures
            r == self.is_finished_spec(),
    {
        self.finished
    }

    pub fn is_failed(&self) -> (r: bool)
        ensures
            r == self.is_failed_spec(),
    {
        self.failed
    }

    /// Turns on per-cycle printing.
    pub fn with_print(&mut self)
        ensures
            final(self).print_spec(),
            final(self).is_malformed_spec() == old(self).is_malformed_spec(),
            final(self).is_finished_spec() == old(self).is_finished_spec(),
            final(self).is_failed_spec() == old(self).is_failed_spec(),
    {
        self.print = true;
    }
}

} // verus!
