use vstd::prelude::*;

verus! {

#[verifier::external_type_specification]
#[verifier::external_body]
pub struct ExRandomError(getrandom::Error);

/// Relies on getrandom::u32: a value drawn from the system random source, or
/// the source's error. Nothing is promised of the value.
pub assume_specification[ getrandom::u32 ]() -> (r: Result<u32, getrandom::Error>);

/// Relies on getrandom::Error::raw_os_error: the OS error code behind the
/// error, when there is one.
pub assume_specification[ getrandom::Error::raw_os_error ](e: getrandom::Error) -> (r: Option<
    i32,
>);

} // verus!
