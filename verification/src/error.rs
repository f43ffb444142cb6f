use vstd::prelude::*;

verus! {

/// A fatal condition, with the place that reported it.
#[derive(Debug)]
pub struct EmuError {
    reason: String,
    file_name: String,
    line: u32,
}

impl EmuError {
    /// What went wrong, as text.
    pub closed spec fn spec_reason(&self) -> Seq<char> {
        self.reason@
    }

    /// Name of the place that reported the error.
    pub closed spec fn spec_file_name(&self) -> Seq<char> {
        self.file_name@
    }

    /// Line at which the error was reported.
    pub closed spec fn spec_line(&self) -> u32 {
        self.line
    }

    pub fn new(reason: String, file_name: String, line: u32) -> (r: Self)
        ensures
            r.spec_reason() == reason@,
            r.spec_file_name() == file_name@,
            r.spec_line() == line,
    {
        Self { reason, file_name, line }
    }

    #[verifier::when_used_as_spec(spec_line)]
    pub fn line(&self) -> (r: u32)
        ensures
            r == self.spec_line(),
    {
        self.line
    }

    pub fn reason(&self) -> (r: &str)
        ensures
            r@ == self.spec_reason(),
    {
        self.reason.as_str()
    }

    pub fn file_name(&self) -> (r: &str)
        ensures
            r@ == self.spec_file_name(),
    {
        self.file_name.as_str()
    }
}

} // verus!
