//! The companion one-way encoding: a small JSON payload (circle name,
//! circle identifier, an emoji-to-identifier reaction map, and channel
//! identifier), percent-encoded and appended as a `data` query parameter to
//! a fixed placeholder address, rendered as a zero-width-space link inside a
//! card description. Consumed by external tooling; there is no decode here.
//! Field names must be reproduced byte for byte.

use vstd::prelude::*;

verus! {

use vstd::string::StrSliceExecFns;
use vstd::string::StringExecFns;
use vstd::string::StringSliceAdditionalSpecFns;
use vstd::utf8::encode_utf8;

use crate::strutil::push_char;

/// A byte that percent-encoding keeps as the character it spells:
/// `0-9 A-Z a-z - . _ ~`.
pub open spec fn unreserved(b: u8) -> bool {
    ||| 0x30 <= b <= 0x39
    ||| 0x41 <= b <= 0x5a
    ||| 0x61 <= b <= 0x7a
    ||| b == 0x2d
    ||| b == 0x2e
    ||| b == 0x5f
    ||| b == 0x7e
}

/// The upper-case hexadecimal digit for a value below sixteen.
pub open spec fn hex_upper(n: u8) -> char {
    if n == 0 { '0' } else if n == 1 { '1' } else if n == 2 { '2' } else if n == 3 { '3' }
    else if n == 4 { '4' } else if n == 5 { '5' } else if n == 6 { '6' } else if n == 7 { '7' }
    else if n == 8 { '8' } else if n == 9 { '9' } else if n == 10 { 'A' } else if n == 11 { 'B' }
    else if n == 12 { 'C' } else if n == 13 { 'D' } else if n == 14 { 'E' } else { 'F' }
}

/// The lower-case hexadecimal digit for a value below sixteen.
pub open spec fn hex_lower(n: u8) -> char {
    if n == 0 { '0' } else if n == 1 { '1' } else if n == 2 { '2' } else if n == 3 { '3' }
    else if n == 4 { '4' } else if n == 5 { '5' } else if n == 6 { '6' } else if n == 7 { '7' }
    else if n == 8 { '8' } else if n == 9 { '9' } else if n == 10 { 'a' } else if n == 11 { 'b' }
    else if n == 12 { 'c' } else if n == 13 { 'd' } else if n == 14 { 'e' } else { 'f' }
}

/// What percent-encoding one byte yields: the byte's own character when it
/// is unreserved, else `%` and two upper-case hexadecimal digits.
pub open spec fn percent_byte(b: u8) -> Seq<char> {
    if unreserved(b) {
        seq![b as char]
    } else {
        seq!['%', hex_upper(b / 16), hex_upper(b % 16)]
    }
}

/// What percent-encoding a byte string yields.
pub open spec fn percent_encoding(bs: Seq<u8>) -> Seq<char>
    decreases bs.len(),
{
    if bs.len() == 0 {
        Seq::empty()
    } else {
        percent_encoding(bs.drop_last()) + percent_byte(bs.last())
    }
}

/// Relies on `urlencoding::encode`: every byte of the UTF-8 text outside
/// `0-9 A-Z a-z - . _ ~` becomes `%` plus two upper-case hexadecimal
/// digits, and every other byte stays as the character it spells.
#[verifier::external_body]
fn percent_encode(s: &str) -> (r: String)
    ensures
        r@ == percent_encoding(s.spec_bytes()),
{
    urlencoding::encode(s).into_owned()
}

/// The JSON escape of one character: quote and backslash are escaped, the
/// named control characters take their short escapes, any other control
/// character takes a `\u00` escape in lower-case hexadecimal, and every
/// other character stands for itself.
pub open spec fn json_escape_char(c: char) -> Seq<char> {
    if c == '"' {
        seq!['\\', '"']
    } else if c == '\\' {
        seq!['\\', '\\']
    } else if c == '\u{8}' {
        seq!['\\', 'b']
    } else if c == '\u{c}' {
        seq!['\\', 'f']
    } else if c == '\n' {
        seq!['\\', 'n']
    } else if c == '\r' {
        seq!['\\', 'r']
    } else if c == '\t' {
        seq!['\\', 't']
    } else if (c as u32) < 32 {
        seq!['\\', 'u', '0', '0', hex_lower((c as u32 / 16) as u8), hex_lower((c as u32 % 16) as u8)]
    } else {
        seq![c]
    }
}

/// The JSON escape of a text, character by character.
pub open spec fn json_escaped(s: Seq<char>) -> Seq<char>
    decreases s.len(),
{
    if s.len() == 0 {
        Seq::empty()
    } else {
        json_escaped(s.drop_last()) + json_escape_char(s.last())
    }
}

/// The JSON text of a string value: quoted and escaped.
pub open spec fn json_string(s: Seq<char>) -> Seq<char> {
    seq!['"'] + json_escaped(s) + seq!['"']
}

/// The JSON entries of the reaction map, in order, comma-separated.
pub open spec fn json_reaction_entries(rs: Seq<(String, String)>) -> Seq<char>
    decreases rs.len(),
{
    if rs.len() == 0 {
        Seq::empty()
    } else if rs.len() == 1 {
        json_string(rs[0].0@) + seq![':'] + json_string(rs[0].1@)
    } else {
        json_reaction_entries(rs.drop_last()) + seq![','] + json_string(rs.last().0@) + seq![':']
            + json_string(rs.last().1@)
    }
}

/// The structured payload embedded in a rendered circle card.
pub struct EncodeData {
    /// The circle's display name.
    pub name: String,
    /// The circle's identifier.
    pub circle: String,
    /// The reaction map: each entry maps an emoji to the circle identifier.
    /// Currently always one entry.
    pub reactions: Vec<(String, String)>,
    /// The circle's channel identifier.
    pub channel: String,
}

/// The payload's JSON text, field names byte for byte.
pub open spec fn payload_json(d: EncodeData) -> Seq<char> {
    "{\"name\":"@ + json_string(d.name@) + ",\"circle\":"@ + json_string(d.circle@)
        + ",\"reactions\":{"@ + json_reaction_entries(d.reactions@) + "},\"channel\":"@
        + json_string(d.channel@) + "}"@
}

/// The rendered description chunk: a zero-width-space link to the fixed
/// placeholder address, carrying the percent-encoded payload as the `data`
/// query parameter.
pub open spec fn card_link(json: Seq<char>) -> Seq<char> {
    "[\u{200B}](http://fake.fake?data="@ + percent_encoding(encode_utf8(json)) + ")"@
}

/// Appends the JSON escape of one character.
fn append_escaped_char(out: &mut String, c: char)
    ensures
        final(out)@ == old(out)@ + json_escape_char(c),
{
    if c == '"' {
        out.append("\\\"");
        proof {
            reveal_strlit("\\\"");
            assert("\\\""@ =~= seq!['\\', '"']);
        }
    } else if c == '\\' {
        out.append("\\\\");
        proof {
            reveal_strlit("\\\\");
            assert("\\\\"@ =~= seq!['\\', '\\']);
        }
    } else if c == '\u{8}' {
        out.append("\\b");
        proof {
            reveal_strlit("\\b");
            assert("\\b"@ =~= seq!['\\', 'b']);
        }
    } else if c == '\u{c}' {
        out.append("\\f");
        proof {
            reveal_strlit("\\f");
            assert("\\f"@ =~= seq!['\\', 'f']);
        }
    } else if c == '\n' {
        out.append("\\n");
        proof {
            reveal_strlit("\\n");
            assert("\\n"@ =~= seq!['\\', 'n']);
        }
    } else if c == '\r' {
        out.append("\\r");
        proof {
            reveal_strlit("\\r");
            assert("\\r"@ =~= seq!['\\', 'r']);
        }
    } else if c == '\t' {
        out.append("\\t");
        proof {
            reveal_strlit("\\t");
            assert("\\t"@ =~= seq!['\\', 't']);
        }
    } else if (c as u32) < 32 {
        let ghost mid = out@;
        out.append("\\u00");
        push_char(out, hex_digit_lower((c as u32 / 16) as u8));
        push_char(out, hex_digit_lower((c as u32 % 16) as u8));
        proof {
            reveal_strlit("\\u00");
            assert("\\u00"@ =~= seq!['\\', 'u', '0', '0']);
            assert(out@ =~= old(out)@ + json_escape_char(c));
        }
    } else {
        push_char(out, c);
        proof {
            assert(out@ =~= old(out)@ + json_escape_char(c));
        }
    }
}

/// The lower-case hexadecimal digit for a value below sixteen.
fn hex_digit_lower(n: u8) -> (c: char)
    requires
        n < 16,
    ensures
        c == hex_lower(n),
{
    match n {
        0 => '0',
        1 => '1',
        2 => '2',
        3 => '3',
        4 => '4',
        5 => '5',
        6 => '6',
        7 => '7',
        8 => '8',
        9 => '9',
        10 => 'a',
        11 => 'b',
        12 => 'c',
        13 => 'd',
        14 => 'e',
        _ => 'f',
    }
}

/// Appends the JSON text of a string value: quoted and escaped.
fn append_json_string(out: &mut String, s: &str)
    ensures
        final(out)@ == old(out)@ + json_string(s@),
{
    push_char(out, '"');
    let n = s.unicode_len();
    let mut i: usize = 0;
    while i < n
        invariant
            i <= n,
            n == s@.len(),
            out@ == old(out)@ + seq!['"'] + json_escaped(s@.take(i as int)),
        decreases n - i,
    {
        let c = s.get_char(i);
        proof {
            assert(s@.take(i as int + 1).drop_last() =~= s@.take(i as int));
            assert(s@.take(i as int + 1).last() == s@[i as int]);
        }
        append_escaped_char(out, c);
        proof {
            assert(out@ =~= old(out)@ + seq!['"'] + json_escaped(s@.take(i as int + 1)));
        }
        i += 1;
    }
    push_char(out, '"');
    proof {
        assert(s@.take(n as int) =~= s@);
        assert(out@ =~= old(out)@ + json_string(s@));
    }
}

impl EncodeData {
    /// The description chunk for a rendered card: the payload's JSON text,
    /// percent-encoded and wrapped as the zero-width link. Pure formatting;
    /// always succeeds.
    pub fn encode(&self) -> (r: String)
        ensures
            r@ == card_link(payload_json(*self)),
    {
        let mut j = String::from_str("{\"name\":");
        append_json_string(&mut j, self.name.as_str());
        j.append(",\"circle\":");
        append_json_string(&mut j, self.circle.as_str());
        j.append(",\"reactions\":{");
        let ghost head = j@;
        let mut i: usize = 0;
        while i < self.reactions.len()
            invariant
                i <= self.reactions@.len(),
                j@ == head + json_reaction_entries(self.reactions@.take(i as int)),
            decreases self.reactions@.len() - i,
        {
            proof {
                assert(self.reactions@.take(i as int + 1).drop_last()
                    =~= self.reactions@.take(i as int));
                assert(self.reactions@.take(i as int + 1).last() == self.reactions@[i as int]);
                reveal_strlit(",");
                assert(","@ =~= seq![',']);
                reveal_strlit(":");
                assert(":"@ =~= seq![':']);
            }
            if i > 0 {
                j.append(",");
            }
            append_json_string(&mut j, self.reactions[i].0.as_str());
            j.append(":");
            append_json_string(&mut j, self.reactions[i].1.as_str());
            proof {
                assert(j@ =~= head + json_reaction_entries(self.reactions@.take(i as int + 1)));
            }
            i += 1;
        }
        j.append("},\"channel\":");
        append_json_string(&mut j, self.channel.as_str());
        j.append("}");
        proof {
            assert(self.reactions@.take(self.reactions@.len() as int) =~= self.reactions@);
            assert(j@ =~= payload_json(*self));
        }
        let enc = percent_encode(j.as_str());
        let mut r = String::from_str("[\u{200B}](http://fake.fake?data=");
        r.append(enc.as_str());
        r.append(")");
        proof {
            assert(r@ =~= card_link(payload_json(*self)));
        }
        r
    }
}

} // verus!
