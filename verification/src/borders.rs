//! The border column text: a border is carried in a column as a JSON
//! object with keys `color` (string), `size` (unsigned integer) and
//! `borderType` (a border-style name). Scans encode a set border with
//! the encoder defined and verified here; updates read the caller's
//! text through a trusted JSON parse and rebuild the border from the
//! fields that are present, with the document format's defaults for the
//! absent ones.
use vstd::prelude::*;

use crate::model::{Border, BorderPos, BorderV};
use crate::rows::str_eq;

verus! {

/// Relies on String::push: appends exactly the one character.
#[verifier::external_body]
pub fn push_char(s: &mut String, c: char)
    ensures
        final(s)@ == old(s)@ + seq![c],
{
    s.push(c);
}

/// The decimal digit character of a value below 10.
pub open spec fn dec_digit(n: u64) -> char
    recommends
        n < 10,
{
    if n == 0 {
        '0'
    } else if n == 1 {
        '1'
    } else if n == 2 {
        '2'
    } else if n == 3 {
        '3'
    } else if n == 4 {
        '4'
    } else if n == 5 {
        '5'
    } else if n == 6 {
        '6'
    } else if n == 7 {
        '7'
    } else if n == 8 {
        '8'
    } else {
        '9'
    }
}

/// The decimal text of an unsigned value, without leading zeroes.
pub open spec fn spec_dec(n: u64) -> Seq<char>
    decreases n,
{
    if n < 10 {
        seq![dec_digit(n)]
    } else {
        spec_dec(n / 10) + seq![dec_digit(n % 10)]
    }
}

/// Appends the decimal text of `n`.
pub fn append_dec(out: &mut String, n: u64)
    ensures
        final(out)@ == old(out)@ + spec_dec(n),
    decreases n,
{
    if n >= 10 {
        append_dec(out, n / 10);
    }
    let d: u64 = n % 10;
    let c: char = if d == 0 {
        '0'
    } else if d == 1 {
        '1'
    } else if d == 2 {
        '2'
    } else if d == 3 {
        '3'
    } else if d == 4 {
        '4'
    } else if d == 5 {
        '5'
    } else if d == 6 {
        '6'
    } else if d == 7 {
        '7'
    } else if d == 8 {
        '8'
    } else {
        '9'
    };
    push_char(out, c);
}

/// JSON string escaping for the characters that must be escaped in the
/// border text: the quote and the backslash. Border colours and style
/// names hold neither, so this is usually the identity.
pub open spec fn esc_chars(s: Seq<char>) -> Seq<char>
    decreases s.len(),
{
    if s.len() == 0 {
        Seq::empty()
    } else {
        esc_chars(s.drop_last()) + (if s.last() == '"' {
            seq!['\\', '"']
        } else if s.last() == '\\' {
            seq!['\\', '\\']
        } else {
            seq![s.last()]
        })
    }
}

/// Appends `s` with JSON string escaping.
pub fn append_escaped(out: &mut String, s: &String)
    ensures
        final(out)@ == old(out)@ + esc_chars(s@),
{
    let ghost orig: Seq<char> = out@;
    let st: &str = s.as_str();
    let n = st.unicode_len();
    proof {
        assert(s@.take(0) =~= Seq::<char>::empty());
    }
    for i in 0..n
        invariant
            n == s@.len(),
            st@ == s@,
            out@ == orig + esc_chars(s@.take(i as int)),
    {
        let c = st.get_char(i);
        if c == '"' {
            push_char(out, '\\');
            push_char(out, '"');
        } else if c == '\\' {
            push_char(out, '\\');
            push_char(out, '\\');
        } else {
            push_char(out, c);
        }
        proof {
            let j = i as int;
            assert(s@.take(j + 1).drop_last() =~= s@.take(j));
            assert(out@ =~= orig + esc_chars(s@.take(j + 1)));
        }
    }
    proof {
        assert(s@.take(n as int) =~= s@);
    }
}

/// The JSON text a scan shows for a set border: the three fields of the
/// border, in a fixed order.
pub open spec fn spec_border_json(b: BorderV) -> Seq<char> {
    "{\"color\":\""@ + esc_chars(b.color) + "\",\"size\":"@ + spec_dec(b.size)
        + ",\"borderType\":\""@ + esc_chars(b.kind) + "\"}"@
}

/// Encodes a border as its column text.
pub fn border_to_json(b: &Border) -> (r: String)
    ensures
        r@ == spec_border_json(b@),
{
    let mut out = String::new();
    out.append("{\"color\":\"");
    append_escaped(&mut out, &b.color);
    out.append("\",\"size\":");
    append_dec(&mut out, b.size);
    out.append(",\"borderType\":\"");
    append_escaped(&mut out, &b.kind);
    out.append("\"}");
    proof {
        assert(out@ =~= spec_border_json(b@));
    }
    out
}

/// Whether `s` names a border style of the document format's
/// enumeration; a `borderType` value outside it leaves the style at its
/// default.
pub open spec fn is_border_kind(s: Seq<char>) -> bool {
    ||| s == "nil"@
    ||| s == "none"@
    ||| s == "single"@
    ||| s == "thick"@
    ||| s == "double"@
    ||| s == "dotted"@
    ||| s == "dashed"@
    ||| s == "dotDash"@
    ||| s == "dotDotDash"@
    ||| s == "triple"@
    ||| s == "thinThickSmallGap"@
    ||| s == "thickThinSmallGap"@
    ||| s == "thinThickThinSmallGap"@
    ||| s == "thinThickMediumGap"@
    ||| s == "thickThinMediumGap"@
    ||| s == "thinThickThinMediumGap"@
    ||| s == "thinThickLargeGap"@
    ||| s == "thickThinLargeGap"@
    ||| s == "thinThickThinLargeGap"@
    ||| s == "wave"@
    ||| s == "doubleWave"@
    ||| s == "dashSmallGap"@
    ||| s == "dashDotStroked"@
    ||| s == "threeDEmboss"@
    ||| s == "threeDEngrave"@
    ||| s == "outset"@
    ||| s == "inset"@
    ||| s == "apples"@
    ||| s == "archedScallops"@
    ||| s == "babyPacifier"@
    ||| s == "babyRattle"@
}

/// Tests whether `s` names a border style of the enumeration.
pub fn border_kind_known(s: &str) -> (r: bool)
    ensures
        r == is_border_kind(s@),
{
    str_eq(s, "nil") || str_eq(s, "none") || str_eq(s, "single") || str_eq(s, "thick") || str_eq(
        s,
        "double",
    ) || str_eq(s, "dotted") || str_eq(s, "dashed") || str_eq(s, "dotDash") || str_eq(
        s,
        "dotDotDash",
    ) || str_eq(s, "triple") || str_eq(s, "thinThickSmallGap") || str_eq(s, "thickThinSmallGap")
        || str_eq(s, "thinThickThinSmallGap") || str_eq(s, "thinThickMediumGap") || str_eq(
        s,
        "thickThinMediumGap",
    ) || str_eq(s, "thinThickThinMediumGap") || str_eq(s, "thinThickLargeGap") || str_eq(
        s,
        "thickThinLargeGap",
    ) || str_eq(s, "thinThickThinLargeGap") || str_eq(s, "wave") || str_eq(s, "doubleWave")
        || str_eq(s, "dashSmallGap") || str_eq(s, "dashDotStroked") || str_eq(s, "threeDEmboss")
        || str_eq(s, "threeDEngrave") || str_eq(s, "outset") || str_eq(s, "inset") || str_eq(
        s,
        "apples",
    ) || str_eq(s, "archedScallops") || str_eq(s, "babyPacifier") || str_eq(s, "babyRattle")
}

/// The three optional fields an update's border text may carry.
pub struct BorderFields {
    pub color: Option<String>,
    pub size: Option<u64>,
    pub border_type: Option<String>,
}

impl View for BorderFields {
    type V = (Option<Seq<char>>, Option<u64>, Option<Seq<char>>);

    open spec fn view(&self) -> (Option<Seq<char>>, Option<u64>, Option<Seq<char>>) {
        (
            match self.color {
                Option::Some(ref c) => Option::Some(c@),
                Option::None => Option::None,
            },
            self.size,
            match self.border_type {
                Option::Some(ref k) => Option::Some(k@),
                Option::None => Option::None,
            },
        )
    }
}

/// Which border fields a given JSON text carries. The result depends on
/// the text alone; text that is not a JSON object carries no fields.
pub uninterp spec fn border_fields_of(s: Seq<char>) -> (
    Option<Seq<char>>,
    Option<u64>,
    Option<Seq<char>>,
);

/// Relies on serde_json::from_str and serde_json::Value's accessors
/// (get, as_str, as_u64): the color/size/borderType fields found in a
/// JSON text are a function of the text alone; unparseable text yields
/// none of them.
#[verifier::external_body]
pub fn parse_border_fields(s: &str) -> (r: BorderFields)
    ensures
        r@ == border_fields_of(s@),
{
    let v = serde_json::from_str::<serde_json::Value>(s).unwrap_or(serde_json::Value::Null);
    BorderFields {
        color: v.get("color").and_then(|x| x.as_str()).map(|x| x.to_string()),
        size: v.get("size").and_then(|x| x.as_u64()),
        border_type: v.get("borderType").and_then(|x| x.as_str()).map(|x| x.to_string()),
    }
}

/// The border an update builds from the fields present in its text:
/// absent fields keep the document format's defaults (black, weight 2,
/// the single style), and a style name outside the enumeration is left
/// unset.
pub open spec fn spec_build_border(
    f: (Option<Seq<char>>, Option<u64>, Option<Seq<char>>),
) -> BorderV {
    BorderV {
        color: match f.0 {
            Option::Some(c) => c,
            Option::None => "000000"@,
        },
        size: match f.1 {
            Option::Some(n) => n,
            Option::None => 2,
        },
        kind: match f.2 {
            Option::Some(k) => if is_border_kind(k) {
                k
            } else {
                "single"@
            },
            Option::None => "single"@,
        },
    }
}

/// Builds the border described by parsed fields.
pub fn build_border(f: &BorderFields) -> (r: Border)
    ensures
        r@ == spec_build_border(f@),
{
    let color: String = match &f.color {
        Option::Some(c) => c.clone(),
        Option::None => String::from_str("000000"),
    };
    let size: u64 = match f.size {
        Option::Some(n) => n,
        Option::None => 2,
    };
    let kind: String = match &f.border_type {
        Option::Some(k) => {
            if border_kind_known(k.as_str()) {
                k.clone()
            } else {
                String::from_str("single")
            }
        },
        Option::None => String::from_str("single"),
    };
    Border { color, size, kind }
}

/// The border position a column name addresses, if it is one of the six
/// border columns.
pub open spec fn spec_border_pos_of(name: Seq<char>) -> Option<BorderPos> {
    if name == "borders_top"@ {
        Option::Some(BorderPos::Top)
    } else if name == "borders_left"@ {
        Option::Some(BorderPos::Left)
    } else if name == "borders_bottom"@ {
        Option::Some(BorderPos::Bottom)
    } else if name == "borders_right"@ {
        Option::Some(BorderPos::Right)
    } else if name == "borders_inside_h"@ {
        Option::Some(BorderPos::InsideH)
    } else if name == "borders_inside_v"@ {
        Option::Some(BorderPos::InsideV)
    } else {
        Option::None
    }
}

/// Maps a border column name to its position.
pub fn border_pos_of(name: &str) -> (r: Option<BorderPos>)
    ensures
        r == spec_border_pos_of(name@),
{
    if str_eq(name, "borders_top") {
        Option::Some(BorderPos::Top)
    } else if str_eq(name, "borders_left") {
        Option::Some(BorderPos::Left)
    } else if str_eq(name, "borders_bottom") {
        Option::Some(BorderPos::Bottom)
    } else if str_eq(name, "borders_right") {
        Option::Some(BorderPos::Right)
    } else if str_eq(name, "borders_inside_h") {
        Option::Some(BorderPos::InsideH)
    } else if str_eq(name, "borders_inside_v") {
        Option::Some(BorderPos::InsideV)
    } else {
        Option::None
    }
}

} // verus!
