//! OCPP-J frames: the JSON arrays that carry `CALL`, `CALLRESULT` and
//! `CALLERROR` messages.

use vstd::prelude::*;

use crate::error::{error_code_from_name, error_code_name, CallErrorCode, ProtocolError};
use crate::json::{json_wf, JsonNumber, JsonValue, JsonView, NumberView};
use crate::json_text::{parse_json_text, parsed_json_text, print_json_text, printed_json_text};

verus! {

broadcast use vstd::string::group_string_axioms;

/// OCPP-J `MessageTypeId` (first element of every frame).
#[derive(Debug, Clone, Copy, PartialEq, Eq, Structural)]
pub enum MessageTypeId {
    /// 2
    Call,
    /// 3
    CallResult,
    /// 4
    CallError,
}

/// The number that stands for a message type on the wire.
pub open spec fn message_type_number(t: MessageTypeId) -> u8 {
    match t {
        MessageTypeId::Call => 2,
        MessageTypeId::CallResult => 3,
        MessageTypeId::CallError => 4,
    }
}

impl MessageTypeId {
    /// The number that stands for this message type on the wire.
    pub fn value(&self) -> (r: u8)
        ensures
            r == message_type_number(*self),
    {
        match self {
            MessageTypeId::Call => 2,
            MessageTypeId::CallResult => 3,
            MessageTypeId::CallError => 4,
        }
    }
}

/// `[2, "<uniqueId>", "<Action>", {payload}]`
#[derive(Debug, Clone, PartialEq)]
pub struct Call {
    pub unique_id: String,
    pub action: String,
    pub payload: JsonValue,
}

/// `[3, "<uniqueId>", {payload}]`
#[derive(Debug, Clone, PartialEq)]
pub struct CallResult {
    pub unique_id: String,
    pub payload: JsonValue,
}

/// `[4, "<uniqueId>", "<errorCode>", "<errorDescription>", {errorDetails}]`
#[derive(Debug, Clone, PartialEq)]
pub struct CallError {
    pub unique_id: String,
    pub error_code: CallErrorCode,
    pub error_description: String,
    pub error_details: JsonValue,
}

#[derive(Debug, Clone, PartialEq)]
pub enum Frame {
    Call(Call),
    Result(CallResult),
    Error(CallError),
}

/// The content of a frame: texts as characters, payloads as JSON content.
pub enum FrameView {
    Call { unique_id: Seq<char>, action: Seq<char>, payload: JsonView },
    Result { unique_id: Seq<char>, payload: JsonView },
    Error {
        unique_id: Seq<char>,
        error_code: CallErrorCode,
        error_description: Seq<char>,
        error_details: JsonView,
    },
}

impl View for Frame {
    type V = FrameView;

    open spec fn view(&self) -> FrameView {
        match self {
            Frame::Call(c) => FrameView::Call {
                unique_id: c.unique_id@,
                action: c.action@,
                payload: c.payload@,
            },
            Frame::Result(r) => FrameView::Result { unique_id: r.unique_id@, payload: r.payload@ },
            Frame::Error(e) => FrameView::Error {
                unique_id: e.unique_id@,
                error_code: e.error_code,
                error_description: e.error_description@,
                error_details: e.error_details@,
            },
        }
    }
}

impl FrameView {
    pub open spec fn unique_id(self) -> Seq<char> {
        match self {
            FrameView::Call { unique_id, .. } => unique_id,
            FrameView::Result { unique_id, .. } => unique_id,
            FrameView::Error { unique_id, .. } => unique_id,
        }
    }
}

/// A JSON value read as a `u64`: only non-negative integers have one.
pub open spec fn view_as_u64(v: JsonView) -> Option<u64> {
    match v {
        JsonView::Number(NumberView::PosInt(u)) => Some(u),
        _ => None,
    }
}

/// The message type a number stands for: only 2, 3 and 4 are message types.
pub open spec fn message_type_from_number(n: u64) -> Option<MessageTypeId> {
    if n == 2 {
        Some(MessageTypeId::Call)
    } else if n == 3 {
        Some(MessageTypeId::CallResult)
    } else if n == 4 {
        Some(MessageTypeId::CallError)
    } else {
        None
    }
}

/// How many elements a frame of each type has.
pub open spec fn frame_len(t: MessageTypeId) -> nat {
    match t {
        MessageTypeId::Call => 4,
        MessageTypeId::CallResult => 3,
        MessageTypeId::CallError => 5,
    }
}

/// The complaint about a frame of type `t` with the wrong number of elements.
pub open spec fn frame_shape_error(t: MessageTypeId) -> ProtocolError {
    match t {
        MessageTypeId::Call => ProtocolError::BadFrameShape("Call must have 4 elements"),
        MessageTypeId::CallResult => ProtocolError::BadFrameShape("CallResult must have 3 elements"),
        MessageTypeId::CallError => ProtocolError::BadFrameShape("CallError must have 5 elements"),
    }
}

/// The frame an array of the right length for type `t` holds: the unique id
/// must be a string, and so must the action of a call and the error code of
/// a call error. An unknown error code reads as `GenericError`, and a
/// description that is not a string as the empty one.
pub open spec fn frame_of_items(t: MessageTypeId, arr: Seq<JsonView>) -> Result<FrameView, ProtocolError> {
    match arr[1] {
        JsonView::String(unique_id) => match t {
            MessageTypeId::CallResult => Ok(FrameView::Result { unique_id, payload: arr[2] }),
            MessageTypeId::Call => match arr[2] {
                JsonView::String(action) => Ok(FrameView::Call { unique_id, action, payload: arr[3] }),
                _ => Err(ProtocolError::BadAction),
            },
            MessageTypeId::CallError => match arr[2] {
                JsonView::String(code) => Ok(
                    FrameView::Error {
                        unique_id,
                        error_code: match error_code_from_name(code) {
                            Some(c) => c,
                            None => CallErrorCode::GenericError,
                        },
                        error_description: match arr[3] {
                            JsonView::String(d) => d,
                            _ => Seq::empty(),
                        },
                        error_details: arr[4],
                    },
                ),
                _ => Err(ProtocolError::BadAction),
            },
        },
        _ => Err(ProtocolError::BadUniqueId),
    }
}

/// How a frame is read from its JSON form: a non-empty array whose first
/// element is exactly 2, 3 or 4, with the number of elements that type has.
pub open spec fn frame_from_json(v: JsonView) -> Result<FrameView, ProtocolError> {
    match v {
        JsonView::Array(arr) => {
            if arr.len() == 0 {
                Err(ProtocolError::EmptyFrame)
            } else {
                match view_as_u64(arr[0]) {
                    None => Err(ProtocolError::BadMessageTypeId),
                    Some(n) => match message_type_from_number(n) {
                        None => Err(ProtocolError::BadMessageTypeId),
                        Some(t) => if arr.len() != frame_len(t) {
                            Err(frame_shape_error(t))
                        } else {
                            frame_of_items(t, arr)
                        },
                    },
                }
            }
        },
        _ => Err(ProtocolError::NotAnArray),
    }
}

/// The JSON form of a frame.
pub open spec fn frame_to_json(f: FrameView) -> JsonView {
    match f {
        FrameView::Call { unique_id, action, payload } => JsonView::Array(
            seq![
                JsonView::Number(NumberView::PosInt(2)),
                JsonView::String(unique_id),
                JsonView::String(action),
                payload,
            ],
        ),
        FrameView::Result { unique_id, payload } => JsonView::Array(
            seq![JsonView::Number(NumberView::PosInt(3)), JsonView::String(unique_id), payload],
        ),
        FrameView::Error { unique_id, error_code, error_description, error_details } => JsonView::Array(
            seq![
                JsonView::Number(NumberView::PosInt(4)),
                JsonView::String(unique_id),
                JsonView::String(error_code_name(error_code)),
                JsonView::String(error_description),
                error_details,
            ],
        ),
    }
}

/// A frame whose payload, or error details, is a well-formed JSON value.
pub open spec fn frame_wf(f: FrameView) -> bool {
    match f {
        FrameView::Call { payload, .. } => json_wf(payload),
        FrameView::Result { payload, .. } => json_wf(payload),
        FrameView::Error { error_details, .. } => json_wf(error_details),
    }
}

/// The content of a parse result.
pub open spec fn parse_result_view(r: Result<Frame, ProtocolError>) -> Result<FrameView, ProtocolError> {
    match r {
        Ok(f) => Ok(f@),
        Err(e) => Err(e),
    }
}

impl Frame {
    /// The unique id that pairs a call with its result or error.
    pub fn unique_id(&self) -> (r: &str)
        ensures
            r@ == self@.unique_id(),
    {
        match self {
            Frame::Call(c) => c.unique_id.as_str(),
            Frame::Result(r) => r.unique_id.as_str(),
            Frame::Error(e) => e.unique_id.as_str(),
        }
    }

    /// Reads a frame from the text of a message: the text must be JSON,
    /// and the JSON a frame.
    pub fn from_text(text: &str) -> (r: Result<Self, ProtocolError>)
        ensures
            match parsed_json_text(text@) {
                None => r matches Err(ProtocolError::Json(_)),
                Some(v) => parse_result_view(r) == frame_from_json(v),
            },
            r matches Ok(f) ==> frame_wf(f@),
    {
        match parse_json_text(text) {
            Ok(v) => {
                proof {
                    law_frame_read_keeps_wf(v@);
                }
                Self::from_json(v)
            },
            Err(e) => Err(e),
        }
    }

    /// The text of this frame, as it is sent.
    pub fn to_text(&self) -> (r: Result<String, ProtocolError>)
        ensures
            match printed_json_text(frame_to_json(self@)) {
                Some(t) => r matches Ok(s) && s@ == t,
                None => r matches Err(ProtocolError::Json(_)),
            },
    {
        let v = self.to_json();
        print_json_text(&v)
    }

    /// Reads a frame from its JSON form.
    pub fn from_json(v: JsonValue) -> (r: Result<Self, ProtocolError>)
        ensures
            parse_result_view(r) == frame_from_json(v@),
    {
        let arr = match v.as_array() {
            Some(a) => a,
            None => return Err(ProtocolError::NotAnArray),
        };
        if arr.len() == 0 {
            return Err(ProtocolError::EmptyFrame);
        }
        proof {
            crate::json::lemma_view_array(v);
        }
        let n = match arr[0].as_u64() {
            Some(n) => n,
            None => return Err(ProtocolError::BadMessageTypeId),
        };
        if n == 2 {
            if arr.len() != 4 {
                return Err(ProtocolError::BadFrameShape("Call must have 4 elements"));
            }
            let unique_id = match arr[1].as_str() {
                Some(s) => s.to_string(),
                None => return Err(ProtocolError::BadUniqueId),
            };
            let action = match arr[2].as_str() {
                Some(s) => s.to_string(),
                None => return Err(ProtocolError::BadAction),
            };
            let payload = arr[3].duplicate();
            Ok(Frame::Call(Call { unique_id, action, payload }))
        } else if n == 3 {
            if arr.len() != 3 {
                return Err(ProtocolError::BadFrameShape("CallResult must have 3 elements"));
            }
            let unique_id = match arr[1].as_str() {
                Some(s) => s.to_string(),
                None => return Err(ProtocolError::BadUniqueId),
            };
            let payload = arr[2].duplicate();
            Ok(Frame::Result(CallResult { unique_id, payload }))
        } else if n == 4 {
            if arr.len() != 5 {
                return Err(ProtocolError::BadFrameShape("CallError must have 5 elements"));
            }
            let unique_id = match arr[1].as_str() {
                Some(s) => s.to_string(),
                None => return Err(ProtocolError::BadUniqueId),
            };
            let code_str = match arr[2].as_str() {
                Some(s) => s,
                None => return Err(ProtocolError::BadAction),
            };
            let error_code = match CallErrorCode::from_str(code_str) {
                Ok(c) => c,
                Err(()) => CallErrorCode::GenericError,
            };
            let error_description = match arr[3].as_str() {
                Some(s) => s.to_string(),
                None => String::new(),
            };
            let error_details = arr[4].duplicate();
            Ok(Frame::Error(CallError { unique_id, error_code, error_description, error_details }))
        } else {
            Err(ProtocolError::BadMessageTypeId)
        }
    }

    /// The JSON form of this frame.
    pub fn to_json(&self) -> (r: JsonValue)
        ensures
            r@ == frame_to_json(self@),
    {
        match self {
            Frame::Call(c) => {
                let items = vec![
                    JsonValue::Number(JsonNumber::PosInt(MessageTypeId::Call.value() as u64)),
                    JsonValue::String(c.unique_id.clone()),
                    JsonValue::String(c.action.clone()),
                    c.payload.duplicate(),
                ];
                proof {
                    crate::json::lemma_items_view_4(items@);
                }
                JsonValue::Array(items)
            },
            Frame::Result(r) => {
                let items = vec![
                    JsonValue::Number(JsonNumber::PosInt(MessageTypeId::CallResult.value() as u64)),
                    JsonValue::String(r.unique_id.clone()),
                    r.payload.duplicate(),
                ];
                proof {
                    crate::json::lemma_items_view_3(items@);
                }
                JsonValue::Array(items)
            },
            Frame::Error(e) => {
                let code = e.error_code.as_str().to_string();
                let items = vec![
                    JsonValue::Number(JsonNumber::PosInt(MessageTypeId::CallError.value() as u64)),
                    JsonValue::String(e.unique_id.clone()),
                    JsonValue::String(code),
                    JsonValue::String(e.error_description.clone()),
                    e.error_details.duplicate(),
                ];
                proof {
                    crate::json::lemma_items_view_5(items@);
                }
                JsonValue::Array(items)
            },
        }
    }
}

/// Reading the JSON form of a frame gives the same frame back.
pub proof fn law_frame_round_trip(f: FrameView)
    ensures
        frame_from_json(frame_to_json(f)) == Ok::<FrameView, ProtocolError>(f),
{
    match f {
        FrameView::Error { error_code, .. } => {
            crate::error::law_error_code_round_trip(error_code);
        },
        _ => {},
    }
}

/// A frame read from a well-formed JSON value has a well-formed payload.
pub proof fn law_frame_read_keeps_wf(v: JsonView)
    requires
        json_wf(v),
    ensures
        frame_from_json(v) matches Ok(f) ==> frame_wf(f),
{
    if let JsonView::Array(arr) = v {
        crate::json::lemma_items_wf(arr);
        if arr.len() >= 3 {
            assert(json_wf(arr[2]));
        }
        if arr.len() >= 4 {
            assert(json_wf(arr[3]));
        }
        if arr.len() >= 5 {
            assert(json_wf(arr[4]));
        }
    }
}

/// The JSON form of a frame is well formed exactly when its payload, or
/// error details, is.
pub proof fn law_frame_json_wf(f: FrameView)
    ensures
        json_wf(frame_to_json(f)) <==> frame_wf(f),
{
    if let JsonView::Array(arr) = frame_to_json(f) {
        crate::json::lemma_items_wf(arr);
        match f {
            FrameView::Call { .. } => {
                assert(json_wf(arr[0]) && json_wf(arr[1]) && json_wf(arr[2]));
                assert(json_wf(arr[3]) == frame_wf(f));
            },
            FrameView::Result { .. } => {
                assert(json_wf(arr[0]) && json_wf(arr[1]));
                assert(json_wf(arr[2]) == frame_wf(f));
            },
            FrameView::Error { .. } => {
                assert(json_wf(arr[0]) && json_wf(arr[1]) && json_wf(arr[2]) && json_wf(arr[3]));
                assert(json_wf(arr[4]) == frame_wf(f));
            },
        }
    }
}

} // verus!
