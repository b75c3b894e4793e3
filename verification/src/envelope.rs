//! Typed control envelopes and their decoding. Inbound text is parsed as
//! JSON, the discriminating fields are extracted, and a total
//! classification turns them into a tagged variant. Malformed or
//! unrecognized envelopes become values of their own — they are reported,
//! never dropped, and never terminate a connection.

use vstd::prelude::*;
use crate::trusted::{
    json_accepts, json_cols_of, json_data_of, json_rows_of, json_tag_of, opt_string_text,
    read_envelope_fields, str_eq,
};

verus! {

/// A control envelope as the client sends it: input text for the backing
/// process, a window resize, or an explicit close. `Unknown` keeps the
/// unrecognized tag for the warning frame; `Malformed` stands for text
/// that is not a JSON object of the expected shape.
#[derive(Clone, PartialEq, Eq, Debug)]
pub enum Envelope {
    Input { data: String },
    Resize { cols: u64, rows: u64 },
    Close,
    Unknown { tag: String },
    Malformed,
}

/// The view of an optional borrowed text.
pub open spec fn opt_text(o: Option<&str>) -> Option<Seq<char>> {
    match o {
        Some(s) => Some(s@),
        None => None,
    }
}

/// How extracted fields classify, exactly: a `type` tag of `input` needs
/// a `data` string; `resize` needs both `cols` and `rows`; `close` needs
/// nothing; any other tag is unknown; a missing tag or missing required
/// fields are malformed.
pub open spec fn classifies(
    tag: Option<Seq<char>>,
    data: Option<Seq<char>>,
    cols: Option<u64>,
    rows: Option<u64>,
    env: Envelope,
) -> bool {
    match tag {
        None => env == Envelope::Malformed,
        Some(t) => if t == "input"@ {
            match data {
                Some(d) => env matches Envelope::Input { data: out } && out@ == d,
                None => env == Envelope::Malformed,
            }
        } else if t == "resize"@ {
            match (cols, rows) {
                (Some(c), Some(r)) => env == (Envelope::Resize { cols: c, rows: r }),
                _ => env == Envelope::Malformed,
            }
        } else if t == "close"@ {
            env == Envelope::Close
        } else {
            env matches Envelope::Unknown { tag: out } && out@ == t
        },
    }
}

/// Classify extracted envelope fields into a typed variant. Total: every
/// combination of fields yields exactly the variant `classifies` names.
pub fn classify(
    tag: Option<&str>,
    data: Option<&str>,
    cols: Option<u64>,
    rows: Option<u64>,
) -> (env: Envelope)
    ensures
        classifies(opt_text(tag), opt_text(data), cols, rows, env),
{
    match tag {
        None => Envelope::Malformed,
        Some(t) => {
            if str_eq(t, "input") {
                match data {
                    Some(d) => Envelope::Input { data: d.to_owned() },
                    None => Envelope::Malformed,
                }
            } else if str_eq(t, "resize") {
                match (cols, rows) {
                    (Some(c), Some(r)) => Envelope::Resize { cols: c, rows: r },
                    _ => Envelope::Malformed,
                }
            } else if str_eq(t, "close") {
                Envelope::Close
            } else {
                Envelope::Unknown { tag: t.to_owned() }
            }
        },
    }
}

/// Decode one inbound text into an envelope: text that serde_json does
/// not accept is `Malformed`, and accepted text decodes exactly to the
/// classification of the `type`, `data`, `cols` and `rows` fields it
/// carries.
pub fn decode_envelope(text: &str) -> (env: Envelope)
    ensures
        !json_accepts(text@) ==> env == Envelope::Malformed,
        json_accepts(text@) ==> classifies(
            json_tag_of(text@),
            json_data_of(text@),
            json_cols_of(text@),
            json_rows_of(text@),
            env,
        ),
{
    let fields = read_envelope_fields(text);
    if !fields.4 {
        return Envelope::Malformed;
    }
    let tag = match &fields.0 {
        Some(t) => Some(t.as_str()),
        None => None,
    };
    let data = match &fields.1 {
        Some(d) => Some(d.as_str()),
        None => None,
    };
    proof {
        assert(opt_text(tag) == opt_string_text(fields.0));
        assert(opt_text(data) == opt_string_text(fields.1));
    }
    classify(tag, data, fields.2, fields.3)
}

} // verus!
