//! The emoji check made at circle creation: a circle's display emoji must
//! hold a pictographic symbol. The cache does not re-check it.

use vstd::prelude::*;

verus! {

use crate::errors::DirectoryError;
use crate::schema::Circle;
use crate::schema::CircleView;

/// Whether the text holds a pictographic symbol. A function of the text
/// alone; what it holds is defined by the Unicode `Extended_Pictographic`
/// property.
pub uninterp spec fn has_pictographic(s: Seq<char>) -> bool;

/// Relies on `regex::Regex::is_match` with the fixed
/// `\p{Extended_Pictographic}` pattern: whether the text holds a
/// pictographic symbol depends on the text alone. The pattern is a valid
/// constant, so compiling it never fails.
#[verifier::external_body]
fn pictographic_match(s: &str) -> (r: bool)
    ensures
        r == has_pictographic(s@),
{
    match regex::Regex::new("\\p{Extended_Pictographic}") {
        Ok(re) => re.is_match(s),
        Err(_) => false,
    }
}

/// Whether the text passes the pictographic-symbol check.
pub fn test_emoji(emoji: &str) -> (r: bool)
    ensures
        r == has_pictographic(emoji@),
{
    pictographic_match(emoji)
}

/// Accepts exactly the texts that hold a pictographic symbol; any other
/// text fails with `ValidationFailure`.
pub fn validate_emoji(emoji: &str) -> (r: Result<(), DirectoryError>)
    ensures
        r is Ok <==> has_pictographic(emoji@),
        r is Err ==> r == Err::<(), DirectoryError>(DirectoryError::ValidationFailure),
{
    if test_emoji(emoji) {
        Ok(())
    } else {
        Err(DirectoryError::ValidationFailure)
    }
}

/// The decision part of circle creation: the emoji is checked against the
/// pictographic pattern, and on success the record is assembled, keyed by
/// the created role's identifier, with no auxiliary channels yet. The role,
/// the channel and the persisted document are the caller's to create.
pub fn build_circle(
    name: &str,
    description: &str,
    emoji: &str,
    image_url: &str,
    owner: &str,
    channel: &str,
    role_id: &str,
    created_on: i64,
) -> (r: Result<Circle, DirectoryError>)
    ensures
        r is Ok <==> has_pictographic(emoji@),
        r matches Ok(c) ==> c@ == (CircleView {
            id: role_id@,
            name: name@,
            description: description@,
            image_url: image_url@,
            emoji: emoji@,
            created_on: created_on as int,
            channel: channel@,
            owner: owner@,
            sub_channels: Seq::empty(),
        }),
        r is Err ==> r == Err::<Circle, DirectoryError>(DirectoryError::ValidationFailure),
{
    if !test_emoji(emoji) {
        return Err(DirectoryError::ValidationFailure);
    }
    let c = Circle {
        id: role_id.to_owned(),
        name: name.to_owned(),
        description: description.to_owned(),
        image_url: image_url.to_owned(),
        emoji: emoji.to_owned(),
        created_on,
        channel: channel.to_owned(),
        owner: owner.to_owned(),
        sub_channels: Vec::new(),
    };
    proof {
        assert(c@ =~= (CircleView {
            id: role_id@,
            name: name@,
            description: description@,
            image_url: image_url@,
            emoji: emoji@,
            created_on: created_on as int,
            channel: channel@,
            owner: owner@,
            sub_channels: Seq::empty(),
        }));
    }
    Ok(c)
}

} // verus!
