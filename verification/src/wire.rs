//! The wire encoding: a declarative JSON field mapping and its renderer.
//!
//! Every response crosses the wire as a JSON object. The mapping from a
//! value to its fields is data (`JsonObject`, `EnvelopeWire`), and the
//! renderer turns that data into JSON text under an exact character-level
//! contract, so the key set and nesting of every message are pinned down.

use vstd::prelude::*;

verus! {

/// A scalar JSON value as this protocol uses it on the wire.
pub enum JsonScalar {
    Bool(bool),
    Int(i32),
    Str(String),
}

/// A flat JSON object: an ordered list of `key: scalar` fields.
pub struct JsonObject {
    pub entries: Vec<(String, JsonScalar)>,
}

/// The top-level wire form of every response: exactly the two fields
/// `error` and `payload`, where `payload` is always itself an object.
pub struct EnvelopeWire {
    pub error: bool,
    pub payload: JsonObject,
}

/// Text that needs no JSON escaping: free of `"` and `\`.
pub open spec fn plain_text(s: Seq<char>) -> bool {
    forall|i: int| 0 <= i < s.len() ==> s[i] != '"' && s[i] != '\\'
}

/// The decimal digit character for `d` (meaningful for `0 <= d <= 9`).
pub open spec fn digit_char(d: int) -> char {
    if d == 0 {
        '0'
    } else if d == 1 {
        '1'
    } else if d == 2 {
        '2'
    } else if d == 3 {
        '3'
    } else if d == 4 {
        '4'
    } else if d == 5 {
        '5'
    } else if d == 6 {
        '6'
    } else if d == 7 {
        '7'
    } else if d == 8 {
        '8'
    } else {
        '9'
    }
}

/// The decimal digits of `n`, most significant first, no sign.
pub open spec fn dec_str_spec(n: nat) -> Seq<char>
    decreases n,
{
    if n < 10 {
        seq![digit_char(n as int)]
    } else {
        dec_str_spec(n / 10) + seq![digit_char((n % 10) as int)]
    }
}

/// The decimal rendering of `n`, with a leading `-` when negative.
pub open spec fn int_str_spec(n: int) -> Seq<char> {
    if n < 0 {
        "-"@ + dec_str_spec((-n) as nat)
    } else {
        dec_str_spec(n as nat)
    }
}

/// The JSON text of one scalar.
pub open spec fn scalar_json(v: JsonScalar) -> Seq<char> {
    match v {
        JsonScalar::Bool(b) => if b {
            "true"@
        } else {
            "false"@
        },
        JsonScalar::Int(n) => int_str_spec(n as int),
        JsonScalar::Str(t) => "\""@ + t@ + "\""@,
    }
}

/// The JSON text of one `key: scalar` field.
pub open spec fn entry_json(e: (String, JsonScalar)) -> Seq<char> {
    "\""@ + e.0@ + "\":"@ + scalar_json(e.1)
}

/// The JSON text of a field list, comma-separated, in order.
pub open spec fn entries_json(es: Seq<(String, JsonScalar)>) -> Seq<char>
    decreases es.len(),
{
    if es.len() == 0 {
        Seq::empty()
    } else if es.len() == 1 {
        entry_json(es[0])
    } else {
        entries_json(es.drop_last()) + ","@ + entry_json(es.last())
    }
}

/// The JSON text of a flat object.
pub open spec fn obj_json(es: Seq<(String, JsonScalar)>) -> Seq<char> {
    "{"@ + entries_json(es) + "}"@
}

/// The JSON text of a whole envelope: exactly the keys `error` and
/// `payload`, in that order, and nothing else.
pub open spec fn env_json(error: bool, payload: Seq<(String, JsonScalar)>) -> Seq<char> {
    "{\"error\":"@ + (if error {
        "true"@
    } else {
        "false"@
    }) + ",\"payload\":"@ + obj_json(payload) + "}"@
}

impl JsonScalar {
    /// The scalar needs no escaping when rendered.
    pub open spec fn wf(self) -> bool {
        self matches JsonScalar::Str(t) ==> plain_text(t@)
    }
}

impl JsonObject {
    /// Every key and every string value is escape-free, so the rendered
    /// text is valid JSON with exactly these keys.
    pub open spec fn wf(self) -> bool {
        forall|i: int|
            0 <= i < self.entries@.len() ==> plain_text(#[trigger] self.entries@[i].0@)
                && self.entries@[i].1.wf()
    }

    /// Render this object as JSON text.
    pub fn render(&self) -> (s: String)
        requires
            self.wf(),
        ensures
            s@ == obj_json(self.entries@),
    {
        let mut s = "{".to_owned();
        proof {
            assert(self.entries@.subrange(0, 0) =~= Seq::<(String, JsonScalar)>::empty());
            assert(s@ =~= "{"@ + entries_json(self.entries@.subrange(0, 0)));
        }
        let mut i: usize = 0;
        while i < self.entries.len()
            invariant
                self.wf(),
                i <= self.entries@.len(),
                s@ == "{"@ + entries_json(self.entries@.subrange(0, i as int)),
            decreases self.entries@.len() - i,
        {
            if i > 0 {
                s.append(",");
            }
            s.append("\"");
            s.append(self.entries[i].0.as_str());
            s.append("\":");
            append_scalar(&mut s, &self.entries[i].1);
            proof {
                lemma_entries_json_snoc(self.entries@, i as int);
                assert(s@ =~= "{"@ + entries_json(self.entries@.subrange(0, i + 1)));
            }
            i = i + 1;
        }
        proof {
            assert(self.entries@.subrange(0, self.entries@.len() as int) =~= self.entries@);
        }
        let r = s.concat("}");
        r
    }
}

impl EnvelopeWire {
    /// The payload object renders cleanly.
    pub open spec fn wf(self) -> bool {
        self.payload.wf()
    }

    /// Render this envelope as JSON text: an object with exactly the two
    /// keys `error` and `payload`.
    pub fn render(&self) -> (s: String)
        requires
            self.wf(),
        ensures
            s@ == env_json(self.error, self.payload.entries@),
    {
        let mut s = "{\"error\":".to_owned();
        if self.error {
            s.append("true");
        } else {
            s.append("false");
        }
        s.append(",\"payload\":");
        let p = self.payload.render();
        s.append(p.as_str());
        let r = s.concat("}");
        r
    }
}

/// Extending a field list by one entry appends a comma (when the list was
/// non-empty) and the entry's text.
proof fn lemma_entries_json_snoc(es: Seq<(String, JsonScalar)>, i: int)
    requires
        0 <= i < es.len(),
    ensures
        entries_json(es.subrange(0, i + 1)) == if i == 0 {
            entries_json(es.subrange(0, i)) + entry_json(es[i])
        } else {
            entries_json(es.subrange(0, i)) + ","@ + entry_json(es[i])
        },
{
    let pre = es.subrange(0, i + 1);
    assert(pre.drop_last() =~= es.subrange(0, i));
    assert(pre.last() == es[i]);
    if i == 0 {
        assert(pre.len() == 1);
        assert(pre[0] == es[0]);
        assert(es.subrange(0, 0) =~= Seq::<(String, JsonScalar)>::empty());
        assert(entries_json(es.subrange(0, 0)) + entry_json(es[0]) =~= entry_json(es[0]));
    }
}

/// Append the JSON text of one scalar to `s`.
fn append_scalar(s: &mut String, v: &JsonScalar)
    ensures
        final(s)@ == old(s)@ + scalar_json(*v),
{
    match v {
        JsonScalar::Bool(b) => {
            if *b {
                s.append("true");
            } else {
                s.append("false");
            }
        },
        JsonScalar::Int(n) => {
            let d = i32_to_string(*n);
            s.append(d.as_str());
        },
        JsonScalar::Str(t) => {
            s.append("\"");
            s.append(t.as_str());
            s.append("\"");
            proof {
                assert(final(s)@ =~= old(s)@ + scalar_json(*v));
            }
        },
    }
}

/// The single-character string for one decimal digit.
fn digit_to_str(d: u32) -> (s: &'static str)
    requires
        d < 10,
    ensures
        s@ == seq![digit_char(d as int)],
{
    proof {
        reveal_strlit("0");
        reveal_strlit("1");
        reveal_strlit("2");
        reveal_strlit("3");
        reveal_strlit("4");
        reveal_strlit("5");
        reveal_strlit("6");
        reveal_strlit("7");
        reveal_strlit("8");
        reveal_strlit("9");
    }
    let s: &'static str = if d == 0 {
        "0"
    } else if d == 1 {
        "1"
    } else if d == 2 {
        "2"
    } else if d == 3 {
        "3"
    } else if d == 4 {
        "4"
    } else if d == 5 {
        "5"
    } else if d == 6 {
        "6"
    } else if d == 7 {
        "7"
    } else if d == 8 {
        "8"
    } else {
        "9"
    };
    proof {
        assert(s@ =~= seq![digit_char(d as int)]);
    }
    s
}

/// The decimal digits of `n`, most significant first.
fn u32_to_string(n: u32) -> (s: String)
    ensures
        s@ == dec_str_spec(n as nat),
    decreases n,
{
    if n < 10 {
        digit_to_str(n).to_owned()
    } else {
        let q = u32_to_string(n / 10);
        q.concat(digit_to_str(n % 10))
    }
}

/// The decimal rendering of `n`, with a leading `-` when negative.
pub fn i32_to_string(n: i32) -> (s: String)
    ensures
        s@ == int_str_spec(n as int),
{
    if n >= 0 {
        u32_to_string(n as u32)
    } else {
        let m: u32 = (-(n as i64)) as u32;
        "-".to_owned().concat(u32_to_string(m).as_str())
    }
}

} // verus!
