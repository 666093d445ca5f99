//! The protocol's error taxonomy: a closed set of failure kinds, each with
//! a stable numeric code and a fixed human-readable message.

use vstd::prelude::*;

verus! {

/// A protocol-level failure reason. The set is closed and extended only by
/// appending new kinds at the end, so that every kind keeps its wire code.
#[derive(Copy, Clone, Debug, PartialEq, Eq, Structural)]
pub enum ResponseErr {
    MalformedInput,
    InvalidMethod,
    MissingMethod,
    TestError,
    DeserializationError,
}

impl ResponseErr {
    /// The wire code of this kind: its position in the closed enumeration.
    pub open spec fn code_spec(self) -> int {
        match self {
            ResponseErr::MalformedInput => 0,
            ResponseErr::InvalidMethod => 1,
            ResponseErr::MissingMethod => 2,
            ResponseErr::TestError => 3,
            ResponseErr::DeserializationError => 4,
        }
    }

    /// The wire message of this kind.
    pub open spec fn message_spec(self) -> Seq<char> {
        match self {
            ResponseErr::MalformedInput => "malformed input"@,
            ResponseErr::InvalidMethod => "invalid method"@,
            ResponseErr::MissingMethod => "missing method"@,
            ResponseErr::TestError => "test error"@,
            ResponseErr::DeserializationError => "deserialization error"@,
        }
    }

    /// The stable numeric code reported on the wire for this kind.
    pub fn code(&self) -> (c: i32)
        ensures
            c == self.code_spec(),
    {
        match self {
            ResponseErr::MalformedInput => 0,
            ResponseErr::InvalidMethod => 1,
            ResponseErr::MissingMethod => 2,
            ResponseErr::TestError => 3,
            ResponseErr::DeserializationError => 4,
        }
    }

    /// The stable human-readable message reported on the wire for this kind.
    pub fn message(&self) -> (m: String)
        ensures
            m@ == self.message_spec(),
    {
        match self {
            ResponseErr::MalformedInput => "malformed input".to_owned(),
            ResponseErr::InvalidMethod => "invalid method".to_owned(),
            ResponseErr::MissingMethod => "missing method".to_owned(),
            ResponseErr::TestError => "test error".to_owned(),
            ResponseErr::DeserializationError => "deserialization error".to_owned(),
        }
    }
}

/// Codes are non-negative and pairwise distinct: two kinds with the same
/// code are the same kind, so a client can key on the code alone.
pub proof fn lemma_codes_distinct_and_nonnegative(a: ResponseErr, b: ResponseErr)
    ensures
        a.code_spec() >= 0,
        a.code_spec() == b.code_spec() ==> a == b,
{
}

/// Every kind's message is non-empty. Messages are fixed per kind, so two
/// reports of the same kind always carry the same text.
pub proof fn lemma_messages_nonempty(a: ResponseErr)
    ensures
        a.message_spec().len() > 0,
{
    reveal_strlit("malformed input");
    reveal_strlit("invalid method");
    reveal_strlit("missing method");
    reveal_strlit("test error");
    reveal_strlit("deserialization error");
}

} // verus!

