//! The result envelope: a tagged union of one success payload or one
//! error, and its uniform wire shape `{ "error": bool, "payload": object }`.

use vstd::prelude::*;
use crate::errors::ResponseErr;
use crate::wire::{
    JsonObject, JsonScalar, EnvelopeWire, plain_text, entry_json, entries_json, obj_json,
    int_str_spec, scalar_json,
};

verus! {

/// The command-specific fields of a successful `connect`.
#[derive(Copy, Clone, Debug, PartialEq, Eq, Structural)]
pub struct ConnRespStruct {
    pub test_field: i32,
}

/// A successful outcome: either the generic empty payload or one
/// command-specific payload variant.
#[derive(Copy, Clone, Debug, PartialEq, Eq, Structural)]
pub enum ResponseOk {
    ConnectResponse(ConnRespStruct),
    Empty,
}

/// The uniform response envelope: exactly one success payload or one error.
pub struct Response(pub Result<ResponseOk, ResponseErr>);

/// The field list of a payload object carries exactly the fields of the
/// success value: none for the generic case, `test_field` for a connect.
pub open spec fn payload_shape(p: ResponseOk, es: Seq<(String, JsonScalar)>) -> bool {
    match p {
        ResponseOk::Empty => es.len() == 0,
        ResponseOk::ConnectResponse(c) => es.len() == 1 && es[0].0@ == "test_field"@ && es[0].1
            == JsonScalar::Int(c.test_field),
    }
}

/// The field list of an error object has exactly the keys `code` and
/// `message`, in that order, carrying the kind's code and message.
pub open spec fn error_shape(k: ResponseErr, es: Seq<(String, JsonScalar)>) -> bool {
    &&& es.len() == 2
    &&& es[0].0@ == "code"@
    &&& (es[0].1 matches JsonScalar::Int(c) && c == k.code_spec())
    &&& es[1].0@ == "message"@
    &&& (es[1].1 matches JsonScalar::Str(m) && m@ == k.message_spec())
}

/// The JSON text of a success payload. The generic case is the empty
/// object, never `null`.
pub open spec fn payload_json(p: ResponseOk) -> Seq<char> {
    match p {
        ResponseOk::Empty => "{"@ + "}"@,
        ResponseOk::ConnectResponse(c) => "{"@ + ("\""@ + "test_field"@ + "\":"@ + int_str_spec(
            c.test_field as int,
        )) + "}"@,
    }
}

/// The JSON text of an error payload: `{"code":<int>,"message":"<text>"}`.
pub open spec fn error_json(k: ResponseErr) -> Seq<char> {
    "{"@ + ("\""@ + "code"@ + "\":"@ + int_str_spec(k.code_spec())) + ","@ + ("\""@ + "message"@
        + "\":"@ + ("\""@ + k.message_spec() + "\""@)) + "}"@
}

/// The JSON text of a whole envelope: `error` then `payload`, nothing else.
pub open spec fn response_json(r: Result<ResponseOk, ResponseErr>) -> Seq<char> {
    "{\"error\":"@ + (match r {
        Ok(_) => "false"@,
        Err(_) => "true"@,
    }) + ",\"payload\":"@ + (match r {
        Ok(p) => payload_json(p),
        Err(k) => error_json(k),
    }) + "}"@
}

/// Every key this module writes, and every message of the taxonomy, is
/// escape-free, so the rendered envelope is valid JSON.
proof fn lemma_fixed_text_plain()
    ensures
        plain_text("code"@),
        plain_text("message"@),
        plain_text("test_field"@),
        forall|k: ResponseErr| plain_text(#[trigger] k.message_spec()),
{
    reveal_strlit("code");
    reveal_strlit("message");
    reveal_strlit("test_field");
    reveal_strlit("malformed input");
    reveal_strlit("invalid method");
    reveal_strlit("missing method");
    reveal_strlit("test error");
    reveal_strlit("deserialization error");
}

impl ConnRespStruct {
    /// The declarative field mapping of a connect payload: the single
    /// field `test_field`, serialized verbatim under that wire name.
    pub fn to_wire(&self) -> (w: JsonObject)
        ensures
            w.wf(),
            payload_shape(ResponseOk::ConnectResponse(*self), w.entries@),
    {
        let mut entries: Vec<(String, JsonScalar)> = Vec::new();
        entries.push(("test_field".to_owned(), JsonScalar::Int(self.test_field)));
        proof {
            lemma_fixed_text_plain();
        }
        JsonObject { entries }
    }
}

impl ResponseOk {
    /// The field mapping of a success payload: the generic case maps to
    /// the empty object, a connect to its own fields.
    pub fn to_wire(&self) -> (w: JsonObject)
        ensures
            w.wf(),
            payload_shape(*self, w.entries@),
    {
        match self {
            ResponseOk::Empty => {
                let entries: Vec<(String, JsonScalar)> = Vec::new();
                JsonObject { entries }
            },
            ResponseOk::ConnectResponse(c) => c.to_wire(),
        }
    }
}

impl ResponseErr {
    /// The field mapping of an error payload: exactly `code` and
    /// `message`, from the taxonomy's stable encoding.
    pub fn to_wire(&self) -> (w: JsonObject)
        ensures
            w.wf(),
            error_shape(*self, w.entries@),
    {
        let mut entries: Vec<(String, JsonScalar)> = Vec::new();
        entries.push(("code".to_owned(), JsonScalar::Int(self.code())));
        entries.push(("message".to_owned(), JsonScalar::Str(self.message())));
        proof {
            lemma_fixed_text_plain();
        }
        JsonObject { entries }
    }
}

impl Response {
    /// The envelope's field mapping: `error` is true exactly for the error
    /// case, and `payload` is the matching payload object.
    pub fn to_wire(&self) -> (w: EnvelopeWire)
        ensures
            w.wf(),
            w.error == (self.0 matches Err(_)),
            (match self.0 {
                Ok(p) => payload_shape(p, w.payload.entries@),
                Err(k) => error_shape(k, w.payload.entries@),
            }),
    {
        match &self.0 {
            Ok(p) => EnvelopeWire { error: false, payload: p.to_wire() },
            Err(k) => EnvelopeWire { error: true, payload: k.to_wire() },
        }
    }

    /// Serialize this envelope to its exact wire text.
    pub fn to_json(&self) -> (s: String)
        ensures
            s@ == response_json(self.0),
    {
        let w = self.to_wire();
        let s = w.render();
        proof {
            lemma_payload_object_json(self.0, w.payload.entries@);
        }
        s
    }
}

/// A payload object of the shape this module produces renders to the
/// flat JSON text that `response_json` states.
proof fn lemma_payload_object_json(
    r: Result<ResponseOk, ResponseErr>,
    es: Seq<(String, JsonScalar)>,
)
    requires
        match r {
            Ok(p) => payload_shape(p, es),
            Err(k) => error_shape(k, es),
        },
    ensures
        obj_json(es) == match r {
            Ok(p) => payload_json(p),
            Err(k) => error_json(k),
        },
{
    match r {
        Ok(p) => {
            match p {
                ResponseOk::Empty => {
                    assert(obj_json(es) =~= payload_json(p));
                },
                ResponseOk::ConnectResponse(c) => {
                    assert(entries_json(es) == entry_json(es[0]));
                    assert(entry_json(es[0]) == "\""@ + "test_field"@ + "\":"@ + scalar_json(
                        es[0].1,
                    ));
                    assert(obj_json(es) == payload_json(p));
                },
            }
        },
        Err(k) => {
            lemma_entries_json_pair(es);
            assert(entry_json(es[0]) == "\""@ + "code"@ + "\":"@ + int_str_spec(k.code_spec()));
            assert(entry_json(es[1]) == "\""@ + "message"@ + "\":"@ + ("\""@ + k.message_spec()
                + "\""@));
            assert(obj_json(es) =~= error_json(k));
        },
    }
}

/// A two-field list renders as the first entry, a comma, the second.
proof fn lemma_entries_json_pair(es: Seq<(String, JsonScalar)>)
    requires
        es.len() == 2,
    ensures
        entries_json(es) == entry_json(es[0]) + ","@ + entry_json(es[1]),
{
    assert(es.drop_last() =~= es.subrange(0, 1));
    assert(es.drop_last().len() == 1);
    assert(es.drop_last()[0] == es[0]);
    assert(entries_json(es.drop_last()) == entry_json(es[0]));
    assert(es.last() == es[1]);
}

} // verus!
