//! Uniform response dressing: each response kind carries a badge for plain
//! replies, a label for card replies, and a card color. Building the card
//! itself is the embedding program's business; this module decides the text
//! and the color.

use vstd::prelude::*;

verus! {

use vstd::string::StringExecFns;

/// The kind of a response to a member.
#[derive(Debug, Clone, Copy, PartialEq, Eq, Structural)]
pub enum ResponseType {
    Error,
    Invalid,
    Warning,
    Normal,
    Success,
}

/// The badge prefixed to a plain reply of the kind.
pub open spec fn simple_label(t: ResponseType) -> Seq<char> {
    match t {
        ResponseType::Error => "\u{274c}"@,
        ResponseType::Invalid => "\u{1f6ab}"@,
        ResponseType::Warning => "\u{26a0}\u{fe0f}"@,
        ResponseType::Normal => ""@,
        ResponseType::Success => "\u{2705}"@,
    }
}

/// The label prefixed to a card reply of the kind.
pub open spec fn embed_label(t: ResponseType) -> Seq<char> {
    match t {
        ResponseType::Error => "Error"@,
        ResponseType::Invalid => "Invalid"@,
        ResponseType::Warning => "\u{26a0}\u{fe0f}"@,
        ResponseType::Normal => ""@,
        ResponseType::Success => "\u{2705}"@,
    }
}

/// The card color of the kind, as a 24-bit color value.
pub open spec fn color_of(t: ResponseType) -> u32 {
    match t {
        ResponseType::Error => 0x992d22u32,
        ResponseType::Invalid => 0xe74c3cu32,
        ResponseType::Warning => 0xf1c40fu32,
        ResponseType::Normal => 0x607d8bu32,
        ResponseType::Success => 0x1f8b4cu32,
    }
}

/// The dressing of one response kind.
pub struct ResponseData {
    /// The badge for a plain reply.
    pub simple: String,
    /// The label for a card reply.
    pub embed: String,
    /// The card color, as a 24-bit color value.
    pub color: u32,
}

impl ResponseType {
    /// The kind's dressing: badge, label and color.
    pub fn get_data(&self) -> (r: ResponseData)
        ensures
            r.simple@ == simple_label(*self),
            r.embed@ == embed_label(*self),
            r.color == color_of(*self),
    {
        match self {
            ResponseType::Error => ResponseData {
                simple: "\u{274c}".to_owned(),
                embed: "Error".to_owned(),
                color: 0x992d22,
            },
            ResponseType::Invalid => ResponseData {
                simple: "\u{1f6ab}".to_owned(),
                embed: "Invalid".to_owned(),
                color: 0xe74c3c,
            },
            ResponseType::Warning => ResponseData {
                simple: "\u{26a0}\u{fe0f}".to_owned(),
                embed: "\u{26a0}\u{fe0f}".to_owned(),
                color: 0xf1c40f,
            },
            ResponseType::Normal => ResponseData {
                simple: "".to_owned(),
                embed: "".to_owned(),
                color: 0x607d8b,
            },
            ResponseType::Success => ResponseData {
                simple: "\u{2705}".to_owned(),
                embed: "\u{2705}".to_owned(),
                color: 0x1f8b4c,
            },
        }
    }
}

/// How a response is delivered: as a plain reply or as a card.
#[derive(Debug, Clone, Copy, PartialEq, Eq, Structural)]
pub enum ResponseFormat {
    Simple(ResponseType),
    Embed(ResponseType),
}

/// Builds the description text of dressed responses.
#[derive(Debug, Clone, Copy, PartialEq, Eq, Structural)]
pub struct ResponseUtil {
    /// The delivery the builder was made for.
    pub format: ResponseFormat,
}

/// The description of a card reply: the kind's label, a separator, and the
/// message.
pub open spec fn dressed(label: Seq<char>, msg: Seq<char>) -> Seq<char> {
    label + " | "@ + msg
}

impl ResponseUtil {
    /// A builder for the given delivery.
    pub fn new(format: ResponseFormat) -> (r: Self)
        ensures
            r.format == format,
    {
        Self { format }
    }

    /// The description text of a card: the badge text, a separator, the
    /// message.
    fn embed(msg: &str, emoji: &str) -> (r: String)
        ensures
            r@ == dressed(emoji@, msg@),
    {
        let mut s = String::from_str(emoji);
        s.append(" | ");
        s.append(msg);
        proof {
            assert(s@ =~= dressed(emoji@, msg@));
        }
        s
    }

    /// The description text of a card reply of the given kind; a missing
    /// kind falls back to the normal one.
    pub fn build(&self, msg: &str, _type: Option<ResponseType>) -> (r: String)
        ensures
            ({
                let t = match _type {
                    Some(t) => t,
                    None => ResponseType::Normal,
                };
                r@ == dressed(embed_label(t), msg@)
            }),
    {
        let t = match _type {
            Some(t) => t,
            None => ResponseType::Normal,
        };
        let data = t.get_data();
        ResponseUtil::embed(msg, data.embed.as_str())
    }
}

} // verus!
