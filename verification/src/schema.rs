//! The records that the directory works with, with their mathematical views.

use vstd::prelude::*;

verus! {

use vstd::string::StringExecFns;

/// The abstract value of a [`Circle`]: every field as a mathematical value.
#[verifier::ext_equal]
pub ghost struct CircleView {
    pub id: Seq<char>,
    pub name: Seq<char>,
    pub description: Seq<char>,
    pub image_url: Seq<char>,
    pub emoji: Seq<char>,
    pub created_on: int,
    pub channel: Seq<char>,
    pub owner: Seq<char>,
    pub sub_channels: Seq<Seq<char>>,
}

/// A community interest group, backed by one externally created role and one
/// text channel.
#[derive(Debug, Clone, PartialEq, Eq)]
pub struct Circle {
    /// Unique identifier; equals the identifier of the role that backs the
    /// circle, and is the primary key of the cache and of the persisted
    /// collection.
    pub id: String,
    /// Display name.
    pub name: String,
    /// Display description.
    pub description: String,
    /// Display image address; may be empty or not a URL.
    pub image_url: String,
    /// Display emoji; checked against the pictographic pattern at creation,
    /// not re-checked by the cache.
    pub emoji: String,
    /// Milliseconds since the Unix epoch; set once at creation and immutable
    /// thereafter.
    pub created_on: i64,
    /// Identifier of the text channel associated with the circle.
    pub channel: String,
    /// Identifier of the member who administers the circle.
    pub owner: String,
    /// Auxiliary channel identifiers, append-only.
    pub sub_channels: Vec<String>,
}

impl View for Circle {
    type V = CircleView;

    open spec fn view(&self) -> CircleView {
        CircleView {
            id: self.id@,
            name: self.name@,
            description: self.description@,
            image_url: self.image_url@,
            emoji: self.emoji@,
            created_on: self.created_on as int,
            channel: self.channel@,
            owner: self.owner@,
            sub_channels: self.sub_channels.deep_view(),
        }
    }
}

impl Circle {
    /// The name of the role backing the circle, as the chat server spells
    /// it: the emoji, a space, the display name.
    pub fn role_name(&self) -> (r: String)
        ensures
            r@ == self.emoji@ + " "@ + self.name@,
    {
        let mut s = self.emoji.clone();
        s.append(" ");
        s.append(self.name.as_str());
        proof {
            assert(s@ =~= self.emoji@ + " "@ + self.name@);
        }
        s
    }

    /// An exact copy: the copy has the same abstract value as the original.
    pub fn duplicate(&self) -> (c: Circle)
        ensures
            c@ == self@,
    {
        let mut subs: Vec<String> = Vec::new();
        let mut i: usize = 0;
        while i < self.sub_channels.len()
            invariant
                i <= self.sub_channels@.len(),
                subs@.len() == i,
                forall|j: int| 0 <= j < i ==> subs@[j] == self.sub_channels@[j],
            decreases self.sub_channels@.len() - i,
        {
            subs.push(self.sub_channels[i].clone());
            i += 1;
        }
        proof {
            assert(subs@ =~= self.sub_channels@);
            assert(subs.deep_view() =~= self.sub_channels.deep_view());
        }
        Circle {
            id: self.id.clone(),
            name: self.name.clone(),
            description: self.description.clone(),
            image_url: self.image_url.clone(),
            emoji: self.emoji.clone(),
            created_on: self.created_on,
            channel: self.channel.clone(),
            owner: self.owner.clone(),
            sub_channels: subs,
        }
    }
}

/// A member's cope-score record.
#[derive(Default, Debug, Clone, PartialEq, Eq)]
pub struct Coper {
    /// The member's identifier; primary key of the persisted collection.
    pub id: String,
    /// How often the member has coped.
    pub score: i64,
}

/// The increment decision for a cope score: the caller looks the record up
/// in the persistent store and passes what it found; an existing record's
/// score rises by one, an absent record starts at one. The caller then
/// writes the returned record back.
pub fn coper_increment(existing: Option<Coper>, coper_id: &str) -> (c: Coper)
    requires
        existing matches Some(prev) ==> prev.score < i64::MAX,
    ensures
        match existing {
            Some(prev) => c.id@ == prev.id@ && c.score == prev.score + 1,
            None => c.id@ == coper_id@ && c.score == 1,
        },
{
    match existing {
        Some(prev) => Coper { id: prev.id, score: prev.score + 1 },
        None => Coper { id: coper_id.to_owned(), score: 1 },
    }
}

/// A moderated member record.
#[derive(Debug, Clone, PartialEq, Eq)]
pub struct Member {
    /// The member's identifier.
    pub id: String,
    /// How many strikes the member has received.
    pub strikes: i64,
    /// Milliseconds since the Unix epoch of the latest strike.
    pub last_strike: i64,
    /// The member's notification preferences.
    pub preferences: Preferences,
}

/// A member's notification preferences.
#[derive(Default, Debug, Clone, Copy, PartialEq, Eq, Structural)]
pub struct Preferences {
    /// Whether the member subscribed to notifications.
    pub subscribed: bool,
}

/// The kinds of moderation response a stored response text can answer.
#[derive(Debug, Clone, Copy, PartialEq, Eq, Structural)]
pub enum ResponsesType {
    Strike,
    Kick,
    Ban,
    Mute,
    Caretaker,
}

impl ResponsesType {
    /// The kind's name, as the persisted collection spells it.
    pub fn text(&self) -> (r: String)
        ensures
            match self {
                ResponsesType::Strike => r@ == "strike"@,
                ResponsesType::Kick => r@ == "kick"@,
                ResponsesType::Ban => r@ == "ban"@,
                ResponsesType::Mute => r@ == "mute"@,
                ResponsesType::Caretaker => r@ == "caretaker"@,
            },
    {
        match self {
            ResponsesType::Strike => "strike".to_owned(),
            ResponsesType::Kick => "kick".to_owned(),
            ResponsesType::Ban => "ban".to_owned(),
            ResponsesType::Mute => "mute".to_owned(),
            ResponsesType::Caretaker => "caretaker".to_owned(),
        }
    }
}

/// A stored moderation response text.
#[derive(Default, Debug, Clone, PartialEq, Eq, Hash)]
pub struct Response {
    /// Which kind of response the text answers.
    pub type_field: String,
    /// The response text itself.
    pub message: String,
}

} // verus!
