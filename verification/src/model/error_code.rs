use vstd::prelude::*;

verus! {

/// The error codes of an application.
///
/// An application implements this for the type that lists its errors. The
/// formatter asks an error for its number and its description and prints
/// what it is told; it knows nothing else about the error.
pub trait ErrorCode {
    /// The largest number that `code` returns for any error.
    ///
    /// It decides how many digits a printed code has: smaller codes get
    /// zeros in front.
    const ERROR_CODE_MAX: usize;

    /// What is printed in front of the number: the `"E"` in `"E001"`.
    const PREFIX: &'static str = "E";

    /// Returns the number of this error.
    fn code(&self) -> usize;

    /// Returns a one-line description of this error.
    fn description(&self) -> String;
}

/// All that a diagnostic shows of an error code.
pub struct ErrorCodeView {
    pub prefix: Seq<char>,
    pub code: nat,
    pub code_max: nat,
    pub description: Seq<char>,
}

/// Whether `code` is a number that `error_code` answers with.
pub open spec fn answers_code<E: ErrorCode>(error_code: &E, code: nat) -> bool {
    exists|answer: usize| answer == code && #[trigger] call_ensures(E::code, (error_code,), answer)
}

/// Whether `description` is a description that `error_code` answers with.
pub open spec fn answers_description<E: ErrorCode>(error_code: &E, description: Seq<char>) -> bool {
    exists|answer: String|
        answer@ == description && #[trigger] call_ensures(E::description, (error_code,), answer)
}

/// Whether `shown` is what `error_code` shows of itself: the prefix and the
/// largest number of its type, and a number and a description that it
/// answers with.
pub open spec fn shows<E: ErrorCode>(error_code: &E, shown: ErrorCodeView) -> bool {
    &&& shown.prefix == E::PREFIX@
    &&& shown.code_max == E::ERROR_CODE_MAX
    &&& answers_code(error_code, shown.code)
    &&& answers_description(error_code, shown.description)
}

} // verus!
