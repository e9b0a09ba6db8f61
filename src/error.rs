//! Errors the platform reports.
use vstd::prelude::*;

verus! {

/// An error reported by the platform: its numeric code and the text the
/// platform gives for it.
#[derive(Debug, Clone, PartialEq, Eq, PartialOrd, Ord, Hash)]
pub struct SystemError {
    pub code: u32,
    pub message: String,
}

impl SystemError {
    /// The error with the given code and text.
    pub fn new(code: u32, message: &str) -> (r: Self)
        ensures
            r.code == code,
            r.message@ == message@,
    {
        Self { code, message: message.to_owned() }
    }
}

/// The outcome that the platform's last-error code stands for: 0 is no
/// error, any other code is that error, described by `message`.
pub fn check_code(code: u32, message: &str) -> (r: Result<(), SystemError>)
    ensures
        code == 0 <==> r is Ok,
        r is Err ==> r->Err_0.code == code && r->Err_0.message@ == message@,
{
    if code != 0 {
        return Err(SystemError::new(code, message));
    }
    Ok(())
}

} // verus!
