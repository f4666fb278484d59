use vstd::prelude::*;

verus! {

/// Error capability for the command contract: every error value exposes a
/// human-readable description and a numeric code that is a pure function of
/// the value itself.
pub trait XSCommandErr {
    /// The description that `as_str` returns, as a mathematical sequence.
    spec fn spec_as_str(&self) -> Seq<char>;

    /// The numeric code that `err_code` returns.
    spec fn spec_err_code(&self) -> int;

    /// A stable, non-empty description of the error.
    fn as_str(&self) -> (r: &str)
        ensures
            r@ == self.spec_as_str(),
            r@.len() > 0,
    ;

    /// The caller-facing numeric code of the error.
    fn err_code(&self) -> (r: i32)
        ensures
            r as int == self.spec_err_code(),
    ;
}

/// Default Error Type for XSCommand.
#[derive(Debug, PartialEq, Eq, Structural)]
pub enum DefaultErr {
    SetWorkDirErr,
    ExcuteErr(i32),
}

impl XSCommandErr for DefaultErr {
    open spec fn spec_as_str(&self) -> Seq<char> {
        match self {
            DefaultErr::SetWorkDirErr => "Default Set workload Error"@,
            DefaultErr::ExcuteErr(_) => "Default Excute Error"@,
        }
    }

    open spec fn spec_err_code(&self) -> int {
        match self {
            DefaultErr::SetWorkDirErr => 1,
            DefaultErr::ExcuteErr(code) => *code as int,
        }
    }

    fn as_str(&self) -> (r: &str) {
        proof {
            reveal_strlit("Default Set workload Error");
            reveal_strlit("Default Excute Error");
        }
        match self {
            DefaultErr::SetWorkDirErr => "Default Set workload Error",
            DefaultErr::ExcuteErr(_) => "Default Excute Error",
        }
    }

    /// Error code:
    /// + no error -> 0
    /// + set workdir error -> 1
    /// + create stdout file error -> 2
    /// + create stderr file error -> 3
    /// + execute without exit code -> 4
    /// + execute return error -> 5
    fn err_code(&self) -> (r: i32) {
        match self {
            DefaultErr::SetWorkDirErr => 1,
            DefaultErr::ExcuteErr(code) => *code,
        }
    }
}

} // verus!
