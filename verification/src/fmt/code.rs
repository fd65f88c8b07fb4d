use std::marker::PhantomData;

use vstd::prelude::*;
use vstd::string::*;

use crate::model::error_code::{answers_code, ErrorCode};
use crate::text::{count_digits, decimal, digits, padded_start, push_zero_padded};

verus! {

/// `std::fmt::Error`, which `std` returns where writing formatted text
/// fails. Nothing is known of a value of it.
#[verifier::external_type_specification]
#[verifier::external_body]
pub struct ExFmtError(std::fmt::Error);

/// An error code as it is printed: the prefix, then the number, with zeros
/// in front where it has fewer digits than the largest number.
pub open spec fn code_text(prefix: Seq<char>, code: nat, code_max: nat) -> Seq<char> {
    prefix + padded_start(decimal(code), digits(code_max), '0')
}

/// Appends an error code: `prefix`, then `code`, with zeros in front where
/// it has fewer digits than `code_max`.
pub fn push_code(buffer: &mut String, prefix: &str, code: usize, code_max: usize)
    ensures
        final(buffer)@ == old(buffer)@ + code_text(prefix@, code as nat, code_max as nat),
{
    let width = count_digits(code_max as u128);
    buffer.append(prefix);
    push_zero_padded(buffer, code as u128, width);
    proof {
        assert(buffer@ =~= old(buffer)@ + code_text(prefix@, code as nat, code_max as nat));
    }
}

/// Writes error codes the way they appear in a diagnostic: `E001`.
#[derive(Debug)]
pub struct Code<E>(PhantomData<E>);

impl<E: ErrorCode> Code<E> {
    /// Returns the error code as text: the prefix of `E`, and the number that
    /// `error_code` answers with, as wide as the largest number of `E`.
    pub fn string(error_code: E) -> (text: String)
        ensures
            exists|code: nat| #[trigger]
                answers_code(&error_code, code) && text@ == code_text(
                    E::PREFIX@,
                    code,
                    E::ERROR_CODE_MAX as nat,
                ),
    {
        let mut buffer = String::new();
        let code = error_code.code();
        push_code(&mut buffer, E::PREFIX, code, E::ERROR_CODE_MAX);
        proof {
            assert(answers_code(&error_code, code as nat));
            assert(buffer@ =~= code_text(E::PREFIX@, code as nat, E::ERROR_CODE_MAX as nat));
        }
        buffer
    }

    /// Appends the error code to `buffer`: the prefix of `E`, and the number
    /// that `error_code` answers with, as wide as the largest number of `E`.
    /// This never fails.
    pub fn fmt_string(buffer: &mut String, error_code: E) -> (written: Result<(), std::fmt::Error>)
        ensures
            written is Ok,
            exists|code: nat| #[trigger]
                answers_code(&error_code, code) && final(buffer)@ == old(buffer)@ + code_text(
                    E::PREFIX@,
                    code,
                    E::ERROR_CODE_MAX as nat,
                ),
    {
        let code = error_code.code();
        push_code(buffer, E::PREFIX, code, E::ERROR_CODE_MAX);
        proof {
            assert(answers_code(&error_code, code as nat));
        }
        Ok(())
    }

    /// Returns the number of digits that `value_max` has: one more than the
    /// floor of its base-ten logarithm, and one for zero.
    pub fn digits(value_max: usize) -> (count: usize)
        ensures
            count == digits(value_max as nat),
            count >= 1,
    {
        count_digits(value_max as u128)
    }
}

} // verus!
