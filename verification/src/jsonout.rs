use vstd::prelude::*;
use vstd::string::*;

use crate::numfmt::{dec_digits_signed, i32_to_dec, i64_to_dec};
use crate::segments::RecognizeResponse;

verus! {

// The JSON shape of a recognition answer:
// `{"frame_id": int, "frame_start": int, "frame_end": int, "text": string}`,
// and a sequence of segments as a JSON array of those objects.

pub open spec fn hex_digit(d: nat) -> char {
    if d == 0 {
        '0'
    } else if d == 1 {
        '1'
    } else if d == 2 {
        '2'
    } else if d == 3 {
        '3'
    } else if d == 4 {
        '4'
    } else if d == 5 {
        '5'
    } else if d == 6 {
        '6'
    } else if d == 7 {
        '7'
    } else if d == 8 {
        '8'
    } else if d == 9 {
        '9'
    } else if d == 10 {
        'a'
    } else if d == 11 {
        'b'
    } else if d == 12 {
        'c'
    } else if d == 13 {
        'd'
    } else if d == 14 {
        'e'
    } else {
        'f'
    }
}

/// How one character appears inside a JSON string literal: quote and
/// backslash are escaped, the named control characters take their short
/// escapes, the remaining control characters take a `\u00..` escape, and
/// everything else stands as itself.
pub open spec fn json_escaped_char(c: char) -> Seq<char> {
    if c == '"' {
        seq!['\\', '"']
    } else if c == '\\' {
        seq!['\\', '\\']
    } else if (c as u32) == 8 {
        seq!['\\', 'b']
    } else if (c as u32) == 9 {
        seq!['\\', 't']
    } else if (c as u32) == 10 {
        seq!['\\', 'n']
    } else if (c as u32) == 12 {
        seq!['\\', 'f']
    } else if (c as u32) == 13 {
        seq!['\\', 'r']
    } else if (c as u32) < 32 {
        seq!['\\', 'u', '0', '0', hex_digit(((c as u32) / 16) as nat), hex_digit(((c as u32) % 16) as nat)]
    } else {
        seq![c]
    }
}

pub open spec fn json_escaped(s: Seq<char>) -> Seq<char>
    decreases s.len(),
{
    if s.len() == 0 {
        Seq::empty()
    } else {
        json_escaped(s.drop_last()) + json_escaped_char(s.last())
    }
}

/// A JSON string literal: the escaped text between double quotes.
pub open spec fn json_string(s: Seq<char>) -> Seq<char> {
    seq!['"'] + json_escaped(s) + seq!['"']
}

/// One segment as a JSON object, fields in declaration order.
pub open spec fn json_segment(s: RecognizeResponse) -> Seq<char> {
    "{\"frame_id\":"@ + dec_digits_signed(s.frame_id as int) + ",\"frame_start\":"@
        + dec_digits_signed(s.frame_start as int) + ",\"frame_end\":"@ + dec_digits_signed(
        s.frame_end as int,
    ) + ",\"text\":"@ + json_string(s.text@) + "}"@
}

pub open spec fn json_segment_list(s: Seq<RecognizeResponse>) -> Seq<char>
    decreases s.len(),
{
    if s.len() == 0 {
        Seq::empty()
    } else if s.len() == 1 {
        json_segment(s[0])
    } else {
        json_segment_list(s.drop_last()) + seq![','] + json_segment(s.last())
    }
}

/// A sequence of segments as a JSON array.
pub open spec fn segments_json(s: Seq<RecognizeResponse>) -> Seq<char> {
    seq!['['] + json_segment_list(s) + seq![']']
}

/// Relies on `String::push`: appends the given character to the string.
#[verifier::external_body]
fn push_char(out: &mut String, c: char)
    ensures
        final(out)@ == old(out)@.push(c),
{
    out.push(c);
}

fn hex_digit_char(d: u32) -> (r: char)
    requires
        d < 16,
    ensures
        r == hex_digit(d as nat),
{
    match d {
        0 => '0',
        1 => '1',
        2 => '2',
        3 => '3',
        4 => '4',
        5 => '5',
        6 => '6',
        7 => '7',
        8 => '8',
        9 => '9',
        10 => 'a',
        11 => 'b',
        12 => 'c',
        13 => 'd',
        14 => 'e',
        _ => 'f',
    }
}

fn append_escaped_char(out: &mut String, c: char)
    ensures
        final(out)@ == old(out)@ + json_escaped_char(c),
{
    let code = c as u32;
    if c == '"' {
        out.append("\\\"");
        proof {
            reveal_strlit("\\\"");
            assert(final(out)@ =~= old(out)@ + json_escaped_char(c));
        }
    } else if c == '\\' {
        out.append("\\\\");
        proof {
            reveal_strlit("\\\\");
            assert(final(out)@ =~= old(out)@ + json_escaped_char(c));
        }
    } else if code == 8 {
        out.append("\\b");
        proof {
            reveal_strlit("\\b");
            assert(final(out)@ =~= old(out)@ + json_escaped_char(c));
        }
    } else if code == 9 {
        out.append("\\t");
        proof {
            reveal_strlit("\\t");
            assert(final(out)@ =~= old(out)@ + json_escaped_char(c));
        }
    } else if code == 10 {
        out.append("\\n");
        proof {
            reveal_strlit("\\n");
            assert(final(out)@ =~= old(out)@ + json_escaped_char(c));
        }
    } else if code == 12 {
        out.append("\\f");
        proof {
            reveal_strlit("\\f");
            assert(final(out)@ =~= old(out)@ + json_escaped_char(c));
        }
    } else if code == 13 {
        out.append("\\r");
        proof {
            reveal_strlit("\\r");
            assert(final(out)@ =~= old(out)@ + json_escaped_char(c));
        }
    } else if code < 32 {
        out.append("\\u00");
        let high = hex_digit_char(code / 16);
        let low = hex_digit_char(code % 16);
        push_char(out, high);
        push_char(out, low);
        proof {
            reveal_strlit("\\u00");
            assert(final(out)@ =~= old(out)@ + json_escaped_char(c));
        }
    } else {
        push_char(out, c);
        proof {
            assert(final(out)@ =~= old(out)@ + json_escaped_char(c));
        }
    }
}

fn append_json_string(out: &mut String, s: &str)
    ensures
        final(out)@ == old(out)@ + json_string(s@),
{
    out.append("\"");
    let n = s.unicode_len();
    let mut i: usize = 0;
    while i < n
        invariant
            i <= n,
            n == s@.len(),
            out@ == old(out)@ + "\""@ + json_escaped(s@.take(i as int)),
        decreases n - i,
    {
        let c = s.get_char(i);
        proof {
            assert(s@.take(i as int + 1).drop_last() =~= s@.take(i as int));
            assert(s@.take(i as int + 1).last() == s@[i as int]);
        }
        append_escaped_char(out, c);
        i = i + 1;
    }
    out.append("\"");
    proof {
        reveal_strlit("\"");
        assert(s@.take(i as int) =~= s@);
        assert(final(out)@ =~= old(out)@ + json_string(s@));
    }
}

/// One segment, serialized.
pub fn segment_to_json(s: &RecognizeResponse) -> (r: String)
    ensures
        r@ == json_segment(*s),
{
    let mut out = "{\"frame_id\":".to_owned();
    let id = i32_to_dec(s.frame_id);
    out.append(id.as_str());
    out.append(",\"frame_start\":");
    let start = i64_to_dec(s.frame_start);
    out.append(start.as_str());
    out.append(",\"frame_end\":");
    let end = i64_to_dec(s.frame_end);
    out.append(end.as_str());
    out.append(",\"text\":");
    append_json_string(&mut out, s.text.as_str());
    out.append("}");
    proof {
        assert(out@ =~= json_segment(*s));
    }
    out
}

/// A whole answer, serialized as a JSON array in segment order.
pub fn segments_to_json(list: &Vec<RecognizeResponse>) -> (r: String)
    ensures
        r@ == segments_json(list@),
{
    let mut out = "[".to_owned();
    let mut i: usize = 0;
    while i < list.len()
        invariant
            i <= list@.len(),
            out@ == "["@ + json_segment_list(list@.take(i as int)),
        decreases list@.len() - i,
    {
        proof {
            assert(list@.take(i as int + 1).drop_last() =~= list@.take(i as int));
            assert(list@.take(i as int + 1).last() == list@[i as int]);
        }
        if i > 0 {
            out.append(",");
            proof {
                reveal_strlit(",");
            }
        }
        let piece = segment_to_json(&list[i]);
        out.append(piece.as_str());
        i = i + 1;
    }
    out.append("]");
    proof {
        reveal_strlit("[");
        reveal_strlit("]");
        assert(list@.take(i as int) =~= list@);
        assert(out@ =~= segments_json(list@));
    }
    out
}

} // verus!
