//! Errors returned by this crate.
use vstd::prelude::*;
use vstd::string::StringExecFns;

use crate::cstring::NulError;
use crate::decimal::{decimal_text, signed_decimal_text};

verus! {

/// Something the RKLLM runtime, or the conversion into it, refused.
#[derive(Debug)]
#[non_exhaustive]
pub enum Error {
    /// A `librkllmrt` function returned a non-zero status.
    ///
    /// The runtime does not document distinct codes, so the raw value is
    /// carried through alongside the name of the call that produced it.
    Status {
        /// Name of the C function that failed, such as `rkllm_run`.
        call: &'static str,
        /// The status it returned.
        code: i32,
    },
    /// `rkllm_init` reported success but left the handle null.
    NullHandle,
    /// A batch size of zero was asked for.
    ZeroBatch,
    /// A call supplied the wrong number of entries for the session's batch size.
    ///
    /// The runtime reads exactly `expected` of whatever was passed, so a
    /// shorter slice would have it read past the end.
    BatchSizeMismatch {
        /// What the session was built with.
        expected: usize,
        /// What the caller supplied.
        given: usize,
    },
    /// A single-input call was made on a session built for a larger batch.
    NotSingleBatch {
        /// The session's batch size.
        n_batch: usize,
    },
    /// An image embedding buffer does not divide evenly into its tokens.
    ///
    /// The runtime reads `n_image * n_image_tokens * embed_dim` numbers, and
    /// does not carry `embed_dim`, so a buffer that is not a whole multiple of
    /// `n_image * n_image_tokens` cannot be right.
    EmbeddingNotDivisible {
        /// Length of the buffer supplied.
        len: usize,
        /// Number of images it covers.
        n_image: usize,
        /// Tokens per image.
        n_image_tokens: usize,
    },
    /// A string destined for C contained an interior NUL byte.
    InteriorNul {
        /// Which argument the string was for.
        field: &'static str,
        /// The offset of the offending byte.
        position: usize,
    },
}

/// What a status from the runtime amounts to: success exactly when it is zero.
pub open spec fn checked(call: &'static str, code: i32) -> Result<(), Error> {
    if code == 0 {
        Ok(())
    } else {
        Err(Error::Status { call, code })
    }
}

/// Whether `error` is the refusal of `bytes` for `field`, at the first NUL.
pub open spec fn refused_nul(error: Error, field: &'static str, bytes: Seq<u8>) -> bool {
    error matches Error::InteriorNul { field: named, position } && named == field
        && crate::cstring::first_nul(bytes, position as int)
}

impl Error {
    /// The failure of `call` with status `code`.
    pub fn status(call: &'static str, code: i32) -> (r: Error)
        ensures
            r == (Error::Status { call, code }),
    {
        Error::Status { call, code }
    }

    /// Returns `Ok(())` if `code` is zero, and an [`Error::Status`] otherwise.
    pub fn check(call: &'static str, code: i32) -> (r: Result<(), Error>)
        ensures
            r == checked(call, code),
    {
        if code == 0 {
            Ok(())
        } else {
            Err(Error::status(call, code))
        }
    }

    /// The refusal of a string meant for `field`.
    pub fn nul(field: &'static str, err: &NulError) -> (r: Error)
        ensures
            r == (Error::InteriorNul { field, position: err.position }),
    {
        Error::InteriorNul { field, position: err.nul_position() }
    }

    /// What the message of this error says.
    pub open spec fn message_text(&self) -> Seq<char> {
        match *self {
            Error::Status { call, code } => {
                call@ + " returned status "@ + crate::decimal::signed_decimal(code as int)
            },
            Error::NullHandle => "rkllm_init succeeded but produced a null handle"@,
            Error::ZeroBatch => "a batch size of zero runs nothing"@,
            Error::BatchSizeMismatch { expected, given } => {
                "this session runs "@ + crate::decimal::decimal(expected as nat)
                    + " inputs per batch, but "@ + crate::decimal::decimal(given as nat)
                    + " were given"@
            },
            Error::NotSingleBatch { n_batch } => {
                "this session runs "@ + crate::decimal::decimal(n_batch as nat)
                    + " inputs per batch, so use the batch call"@
            },
            Error::EmbeddingNotDivisible { len, n_image, n_image_tokens } => {
                "an embedding of "@ + crate::decimal::decimal(len as nat)
                    + " floats does not divide into "@ + crate::decimal::decimal(n_image as nat)
                    + " images of "@ + crate::decimal::decimal(n_image_tokens as nat) + " tokens"@
            },
            Error::InteriorNul { field, position } => {
                field@ + " contains a NUL byte at offset "@ + crate::decimal::decimal(
                    position as nat,
                )
            },
        }
    }

    /// The message that describes this error to a person.
    pub fn message(&self) -> (r: String)
        ensures
            r@ == self.message_text(),
    {
        match *self {
            Error::Status { call, code } => call.to_owned().concat(" returned status ").concat(
                signed_decimal_text(code).as_str(),
            ),
            Error::NullHandle => "rkllm_init succeeded but produced a null handle".to_owned(),
            Error::ZeroBatch => "a batch size of zero runs nothing".to_owned(),
            Error::BatchSizeMismatch { expected, given } => "this session runs ".to_owned().concat(
                decimal_text(expected as u64).as_str(),
            ).concat(" inputs per batch, but ").concat(decimal_text(given as u64).as_str()).concat(
                " were given",
            ),
            Error::NotSingleBatch { n_batch } => "this session runs ".to_owned().concat(
                decimal_text(n_batch as u64).as_str(),
            ).concat(" inputs per batch, so use the batch call"),
            Error::EmbeddingNotDivisible { len, n_image, n_image_tokens } => {
                "an embedding of ".to_owned().concat(decimal_text(len as u64).as_str()).concat(
                    " floats does not divide into ",
                ).concat(decimal_text(n_image as u64).as_str()).concat(" images of ").concat(
                    decimal_text(n_image_tokens as u64).as_str(),
                ).concat(" tokens")
            },
            Error::InteriorNul { field, position } => field.to_owned().concat(
                " contains a NUL byte at offset ",
            ).concat(decimal_text(position as u64).as_str()),
        }
    }
}

/// A status is success exactly when it is zero, and a failure carries the name
/// of the call and its status unchanged.
pub proof fn only_zero_is_success(call: &'static str, code: i32)
    ensures
        checked(call, code) is Ok <==> code == 0,
        checked(call, code) matches Err(e) ==> e == (Error::Status { call, code }),
{
}

/// A refused string is refused for the field it was meant for, at a byte that is
/// NUL, with none before it.
pub proof fn a_refusal_points_at_the_first_nul(error: Error, field: &'static str, bytes: Seq<u8>)
    requires
        refused_nul(error, field, bytes),
    ensures
        error is InteriorNul,
        error->InteriorNul_field == field,
        error->position < bytes.len(),
        bytes[error->position as int] == 0,
        forall|i: int| 0 <= i < error->position ==> bytes[i] != 0,
{
    let prefix = bytes.take(error->position as int);
    assert forall|i: int| 0 <= i < error->position implies bytes[i] != 0 by {
        assert(prefix[i] == bytes[i]);
    }
}

/// Every failure says what went wrong in its own words, with the numbers and names
/// that it carries.
pub proof fn messages_say_what_went_wrong(
    call: &'static str,
    code: i32,
    expected: usize,
    given: usize,
    len: usize,
    n_image: usize,
    n_image_tokens: usize,
    field: &'static str,
)
    ensures
        (Error::Status { call, code }).message_text() == call@ + " returned status "@
            + crate::decimal::signed_decimal(code as int),
        Error::NullHandle.message_text() == "rkllm_init succeeded but produced a null handle"@,
        Error::ZeroBatch.message_text() == "a batch size of zero runs nothing"@,
        (Error::BatchSizeMismatch { expected, given }).message_text() == "this session runs "@
            + crate::decimal::decimal(expected as nat) + " inputs per batch, but "@
            + crate::decimal::decimal(given as nat) + " were given"@,
        (Error::NotSingleBatch { n_batch: expected }).message_text() == "this session runs "@
            + crate::decimal::decimal(expected as nat)
            + " inputs per batch, so use the batch call"@,
        (Error::EmbeddingNotDivisible { len, n_image, n_image_tokens }).message_text()
            == "an embedding of "@ + crate::decimal::decimal(len as nat)
            + " floats does not divide into "@ + crate::decimal::decimal(n_image as nat)
            + " images of "@ + crate::decimal::decimal(n_image_tokens as nat) + " tokens"@,
        (Error::InteriorNul { field, position: given }).message_text() == field@
            + " contains a NUL byte at offset "@ + crate::decimal::decimal(given as nat),
{
}

/// A status is told as it came, a NUL where it was, and every error in its own words.
pub proof fn errors_carry_what_happened(
    call: &'static str,
    code: i32,
    field: &'static str,
    nul: NulError,
    error: Error,
)
    ensures
        forall|r: Result<(), Error>| #[trigger]
            call_ensures(Error::check, (call, code), r) ==> {
                &&& r is Ok <==> code == 0
                &&& r is Err ==> r->Err_0 == (Error::Status { call, code })
            },
        forall|r: Error| #[trigger]
            call_ensures(Error::status, (call, code), r) ==> r == (Error::Status { call, code }),
        forall|r: Error| #[trigger]
            call_ensures(Error::nul, (field, &nul), r) ==> r == (Error::InteriorNul {
                field,
                position: nul.position,
            }),
        forall|r: String| #[trigger]
            call_ensures(Error::message, (&error,), r) ==> r@ == error.message_text(),
{
}

} // verus!
