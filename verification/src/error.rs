//! Errors of the protocol layer and the OCPP-J `CALLERROR` codes.

use vstd::prelude::*;

use crate::text::str_eq;

verus! {

broadcast use vstd::string::group_string_axioms;

/// A JSON parse error reported by `serde_json`.
#[verifier::external_type_specification]
#[verifier::external_body]
pub struct ExJsonError(serde_json::Error);

/// Why a frame could not be read.
#[derive(Debug)]
pub enum ProtocolError {
    /// The frame is not a JSON array.
    NotAnArray,
    /// The frame is an empty array.
    EmptyFrame,
    /// The first element is not a known `MessageTypeId`.
    BadMessageTypeId,
    /// The unique id is missing or not a string.
    BadUniqueId,
    /// The action (or the error code) is missing or not a string.
    BadAction,
    /// The frame has the wrong number of elements for its type.
    BadFrameShape(&'static str),
    /// The action is not one this implementation knows.
    UnknownAction(String),
    /// The frame text is not JSON, or a payload does not fit its message.
    Json(serde_json::Error),
}

/// OCPP-J standard error codes (section 4.3 of OCPP-J 1.6).
#[derive(Debug, Clone, Copy, PartialEq, Eq, Structural)]
pub enum CallErrorCode {
    NotImplemented,
    NotSupported,
    InternalError,
    ProtocolError,
    SecurityError,
    FormationViolation,
    PropertyConstraintViolation,
    OccurenceConstraintViolation,
    TypeConstraintViolation,
    GenericError,
}

/// The wire name of an error code.
pub open spec fn error_code_name(c: CallErrorCode) -> Seq<char> {
    match c {
        CallErrorCode::NotImplemented => "NotImplemented"@,
        CallErrorCode::NotSupported => "NotSupported"@,
        CallErrorCode::InternalError => "InternalError"@,
        CallErrorCode::ProtocolError => "ProtocolError"@,
        CallErrorCode::SecurityError => "SecurityError"@,
        CallErrorCode::FormationViolation => "FormationViolation"@,
        CallErrorCode::PropertyConstraintViolation => "PropertyConstraintViolation"@,
        CallErrorCode::OccurenceConstraintViolation => "OccurenceConstraintViolation"@,
        CallErrorCode::TypeConstraintViolation => "TypeConstraintViolation"@,
        CallErrorCode::GenericError => "GenericError"@,
    }
}

/// Every error code, in declaration order.
pub open spec fn all_error_codes() -> Seq<CallErrorCode> {
    seq![
        CallErrorCode::NotImplemented,
        CallErrorCode::NotSupported,
        CallErrorCode::InternalError,
        CallErrorCode::ProtocolError,
        CallErrorCode::SecurityError,
        CallErrorCode::FormationViolation,
        CallErrorCode::PropertyConstraintViolation,
        CallErrorCode::OccurenceConstraintViolation,
        CallErrorCode::TypeConstraintViolation,
        CallErrorCode::GenericError,
    ]
}

/// The error code whose wire name is `s`, if there is one.
pub open spec fn error_code_from_name(s: Seq<char>) -> Option<CallErrorCode> {
    if exists|c: CallErrorCode| error_code_name(c) == s {
        Some(choose|c: CallErrorCode| error_code_name(c) == s)
    } else {
        None
    }
}

impl CallErrorCode {
    /// The wire name of this error code.
    pub fn as_str(&self) -> (r: &'static str)
        ensures
            r@ == error_code_name(*self),
    {
        match self {
            CallErrorCode::NotImplemented => "NotImplemented",
            CallErrorCode::NotSupported => "NotSupported",
            CallErrorCode::InternalError => "InternalError",
            CallErrorCode::ProtocolError => "ProtocolError",
            CallErrorCode::SecurityError => "SecurityError",
            CallErrorCode::FormationViolation => "FormationViolation",
            CallErrorCode::PropertyConstraintViolation => "PropertyConstraintViolation",
            CallErrorCode::OccurenceConstraintViolation => "OccurenceConstraintViolation",
            CallErrorCode::TypeConstraintViolation => "TypeConstraintViolation",
            CallErrorCode::GenericError => "GenericError",
        }
    }

    /// The error code whose wire name is `s`; `Err(())` when no code has that name.
    pub fn from_str(s: &str) -> (r: Result<Self, ()>)
        ensures
            match error_code_from_name(s@) {
                Some(c) => r == Ok::<CallErrorCode, ()>(c),
                None => r is Err,
            },
    {
        let table = error_code_table();
        let ghost all = all_error_codes();
        let mut i: usize = 0;
        while i < table.len()
            invariant
                table@ == all,
                i <= table@.len(),
                forall|j: int| 0 <= j < i ==> error_code_name(#[trigger] all[j]) != s@,
            decreases table@.len() - i,
        {
            let c = table[i];
            if str_eq(c.as_str(), s) {
                proof {
                    lemma_error_code_from_name(c);
                }
                return Ok(c);
            }
            i = i + 1;
        }
        proof {
            assert forall|c: CallErrorCode| error_code_name(c) != s@ by {
                lemma_all_error_codes_complete(c);
            }
        }
        Err(())
    }
}

impl core::str::FromStr for CallErrorCode {
    type Err = ();

    fn from_str(s: &str) -> (r: Result<Self, ()>)
        ensures
            match error_code_from_name(s@) {
                Some(c) => r == Ok::<CallErrorCode, ()>(c),
                None => r is Err,
            },
    {
        CallErrorCode::from_str(s)
    }
}

/// Every error code, in declaration order, as a vector.
fn error_code_table() -> (v: Vec<CallErrorCode>)
    ensures
        v@ == all_error_codes(),
{
    let v: Vec<CallErrorCode> = vec![
        CallErrorCode::NotImplemented,
        CallErrorCode::NotSupported,
        CallErrorCode::InternalError,
        CallErrorCode::ProtocolError,
        CallErrorCode::SecurityError,
        CallErrorCode::FormationViolation,
        CallErrorCode::PropertyConstraintViolation,
        CallErrorCode::OccurenceConstraintViolation,
        CallErrorCode::TypeConstraintViolation,
        CallErrorCode::GenericError,
    ];
    assert(v@ =~= all_error_codes());
    v
}

proof fn lemma_all_error_codes_complete(c: CallErrorCode)
    ensures
        all_error_codes().contains(c),
{
    match c {
        CallErrorCode::NotImplemented => assert(all_error_codes()[0] == c),
        CallErrorCode::NotSupported => assert(all_error_codes()[1] == c),
        CallErrorCode::InternalError => assert(all_error_codes()[2] == c),
        CallErrorCode::ProtocolError => assert(all_error_codes()[3] == c),
        CallErrorCode::SecurityError => assert(all_error_codes()[4] == c),
        CallErrorCode::FormationViolation => assert(all_error_codes()[5] == c),
        CallErrorCode::PropertyConstraintViolation => assert(all_error_codes()[6] == c),
        CallErrorCode::OccurenceConstraintViolation => assert(all_error_codes()[7] == c),
        CallErrorCode::TypeConstraintViolation => assert(all_error_codes()[8] == c),
        CallErrorCode::GenericError => assert(all_error_codes()[9] == c),
    }
}

/// Length, first and third character: enough to tell the code names apart.
spec fn code_signature(s: Seq<char>) -> (nat, char, char) {
    (s.len(), s[0], s[2])
}

/// The signature of each code's name, written out.
spec fn error_code_signature(c: CallErrorCode) -> (nat, char, char) {
    match c {
        CallErrorCode::NotImplemented => (14, 'N', 't'),
        CallErrorCode::NotSupported => (12, 'N', 't'),
        CallErrorCode::InternalError => (13, 'I', 't'),
        CallErrorCode::ProtocolError => (13, 'P', 'o'),
        CallErrorCode::SecurityError => (13, 'S', 'c'),
        CallErrorCode::FormationViolation => (18, 'F', 'r'),
        CallErrorCode::PropertyConstraintViolation => (27, 'P', 'o'),
        CallErrorCode::OccurenceConstraintViolation => (28, 'O', 'c'),
        CallErrorCode::TypeConstraintViolation => (23, 'T', 'p'),
        CallErrorCode::GenericError => (12, 'G', 'n'),
    }
}

proof fn lemma_code_signature(c: CallErrorCode)
    ensures
        code_signature(error_code_name(c)) == error_code_signature(c),
{
    match c {
        CallErrorCode::NotImplemented => {
            reveal_strlit("NotImplemented");
            assert("NotImplemented"@[0] == 'N' && "NotImplemented"@[2] == 't');
        },
        CallErrorCode::NotSupported => {
            reveal_strlit("NotSupported");
            assert("NotSupported"@[0] == 'N' && "NotSupported"@[2] == 't');
        },
        CallErrorCode::InternalError => {
            reveal_strlit("InternalError");
            assert("InternalError"@[0] == 'I' && "InternalError"@[2] == 't');
        },
        CallErrorCode::ProtocolError => {
            reveal_strlit("ProtocolError");
            assert("ProtocolError"@[0] == 'P' && "ProtocolError"@[2] == 'o');
        },
        CallErrorCode::SecurityError => {
            reveal_strlit("SecurityError");
            assert("SecurityError"@[0] == 'S' && "SecurityError"@[2] == 'c');
        },
        CallErrorCode::FormationViolation => {
            reveal_strlit("FormationViolation");
            assert("FormationViolation"@[0] == 'F' && "FormationViolation"@[2] == 'r');
        },
        CallErrorCode::PropertyConstraintViolation => {
            reveal_strlit("PropertyConstraintViolation");
            assert("PropertyConstraintViolation"@[0] == 'P' && "PropertyConstraintViolation"@[2] == 'o');
        },
        CallErrorCode::OccurenceConstraintViolation => {
            reveal_strlit("OccurenceConstraintViolation");
            assert("OccurenceConstraintViolation"@[0] == 'O' && "OccurenceConstraintViolation"@[2] == 'c');
        },
        CallErrorCode::TypeConstraintViolation => {
            reveal_strlit("TypeConstraintViolation");
            assert("TypeConstraintViolation"@[0] == 'T' && "TypeConstraintViolation"@[2] == 'p');
        },
        CallErrorCode::GenericError => {
            reveal_strlit("GenericError");
            assert("GenericError"@[0] == 'G' && "GenericError"@[2] == 'n');
        },
    }
}

/// Distinct error codes have distinct wire names.
pub proof fn lemma_error_code_name_injective(a: CallErrorCode, b: CallErrorCode)
    requires
        error_code_name(a) == error_code_name(b),
    ensures
        a == b,
{
    lemma_code_signature(a);
    lemma_code_signature(b);
}

proof fn lemma_error_code_from_name(c: CallErrorCode)
    ensures
        error_code_from_name(error_code_name(c)) == Some(c),
{
    let d = choose|d: CallErrorCode| error_code_name(d) == error_code_name(c);
    lemma_error_code_name_injective(c, d);
}

/// Reading the wire name of an error code gives that code back.
pub proof fn law_error_code_round_trip(c: CallErrorCode)
    ensures
        error_code_from_name(error_code_name(c)) == Some(c),
{
    lemma_error_code_from_name(c);
}

/// Whatever a name reads as carries that name.
pub proof fn law_error_code_name_round_trip(s: Seq<char>)
    ensures
        error_code_from_name(s) matches Some(c) ==> error_code_name(c) == s,
{
}

} // verus!
