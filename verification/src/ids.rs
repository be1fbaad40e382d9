//! Matrix identifiers given by the user.
use matrix_sdk::ruma::{IdParseError, RoomId, UserId};
use vstd::prelude::*;

verus! {

/// The reason `ruma` gives for refusing an identifier.
#[verifier::external_type_specification]
#[verifier::external_body]
pub struct ExIdParseError(IdParseError);

/// A text that is not the identifier it should be.
pub struct InvalidId {
    /// The text as it was given.
    pub given: String,
    /// Why it was refused.
    pub reason: IdParseError,
}

/// Whether `ruma` takes the text for the identifier of a user.
pub uninterp spec fn is_user_id(text: Seq<char>) -> bool;

/// Whether the text is the identifier of a room: it starts with an exclamation mark and holds no
/// NUL.
pub open spec fn is_room_id(text: Seq<char>) -> bool {
    text.len() > 0 && text[0] == '!' && !text.contains('\0')
}

/// Whether the text has the form of an identifier of a user: it starts with an at sign and holds a
/// colon.
pub open spec fn has_user_form(text: Seq<char>) -> bool {
    text.len() > 0 && text[0] == '@' && text.contains(':')
}

/// Calls `ruma`'s `UserId::parse`.
///
/// What is claimed is that its verdict follows from the text alone, that an identifier it accepts
/// is the text itself, and that it accepts only what starts with an at sign and holds a colon.
#[verifier::external_body]
pub(crate) fn parse_user_id(text: &str) -> (id: Result<String, IdParseError>)
    ensures
        id is Ok <==> is_user_id(text@),
        id matches Ok(user) ==> user@ == text@,
        id is Ok ==> has_user_form(text@),
{
    UserId::parse(text).map(|user| user.to_string())
}

/// Calls `ruma`'s `RoomId::parse`, as `matrix_sdk` builds it: without a limit on the length.
///
/// What is claimed is which texts it accepts, and that an identifier it accepts is the text
/// itself.
#[verifier::external_body]
pub(crate) fn parse_room_id(text: &str) -> (id: Result<String, IdParseError>)
    ensures
        id is Ok <==> is_room_id(text@),
        id matches Ok(room) ==> room@ == text@,
{
    RoomId::parse(text).map(|room| room.to_string())
}

/// Whether `reason` is one that `ruma` may give for refusing the text as the identifier of a user.
pub closed spec fn refuses_user(text: Seq<char>, reason: IdParseError) -> bool {
    exists|given: &str|
        given@ == text && #[trigger] call_ensures(
            parse_user_id,
            (given,),
            Err::<String, IdParseError>(reason),
        )
}

/// Whether `reason` is one that `ruma` may give for refusing the text as the identifier of a room.
pub closed spec fn refuses_room(text: Seq<char>, reason: IdParseError) -> bool {
    exists|given: &str|
        given@ == text && #[trigger] call_ensures(
            parse_room_id,
            (given,),
            Err::<String, IdParseError>(reason),
        )
}

/// What comes of a text that was parsed as an identifier: the identifier, or the text with the
/// reason why it was refused.
pub fn parsed_id(text: &str, parsed: Result<String, IdParseError>) -> (id: Result<
    String,
    InvalidId,
>)
    ensures
        match (parsed, id) {
            (Ok(accepted), Ok(id)) => id == accepted,
            (Err(reason), Err(error)) => error.given@ == text@ && error.reason == reason,
            _ => false,
        },
{
    match parsed {
        Ok(accepted) => Ok(accepted),
        Err(reason) => Err(InvalidId { given: text.to_owned(), reason }),
    }
}

/// The identifier of a user, from its text.
pub fn user_id(text: &str) -> (id: Result<String, InvalidId>)
    ensures
        match id {
            Ok(user) => is_user_id(text@) && has_user_form(text@) && user@ == text@,
            Err(error) => !is_user_id(text@) && error.given@ == text@ && refuses_user(
                text@,
                error.reason,
            ),
        },
{
    let parsed = parse_user_id(text);
    parsed_id(text, parsed)
}

/// The rooms to watch: only the one that was asked for, or all of them (`None`) where none was.
pub fn rooms_to_watch(room: &Option<String>) -> (rooms: Result<Option<Vec<String>>, InvalidId>)
    ensures
        match (*room, rooms) {
            (None, Ok(rooms)) => rooms is None,
            (None, Err(_)) => false,
            (Some(asked), Ok(rooms)) => {
                &&& is_room_id(asked@)
                &&& rooms matches Some(list)
                &&& list@.len() == 1
                &&& list@[0]@ == asked@
            },
            (Some(asked), Err(error)) => !is_room_id(asked@) && error.given@ == asked@
                && refuses_room(asked@, error.reason),
        },
{
    match room {
        Some(asked) => {
            let parsed = parse_room_id(asked.as_str());
            match parsed_id(asked.as_str(), parsed) {
                Ok(id) => {
                    let mut rooms: Vec<String> = Vec::new();
                    rooms.push(id);
                    Ok(Some(rooms))
                },
                Err(error) => Err(error),
            }
        },
        None => Ok(None),
    }
}

/// A reason for refusing an identifier was given for that very text.
pub(crate) proof fn law_refusal_is_of_the_text(text: Seq<char>, reason: IdParseError)
    ensures
        refuses_user(text, reason) ==> exists|given: &str|
            given@ == text && #[trigger] call_ensures(
                parse_user_id,
                (given,),
                Err::<String, IdParseError>(reason),
            ),
        refuses_room(text, reason) ==> exists|given: &str|
            given@ == text && #[trigger] call_ensures(
                parse_room_id,
                (given,),
                Err::<String, IdParseError>(reason),
            ),
{
}

/// The identifier of a room starts with an exclamation mark and holds no NUL, and any such text is
/// one; that of a user starts with an at sign and holds a colon.
pub proof fn law_identifiers_have_their_sigil(text: Seq<char>)
    ensures
        is_room_id(text) <==> text.len() > 0 && text[0] == '!' && forall|i: int|
            0 <= i < text.len() ==> #[trigger] text[i] != '\0',
        has_user_form(text) <==> text.len() > 0 && text[0] == '@' && exists|i: int|
            0 < i < text.len() && #[trigger] text[i] == ':',
{
    if text.len() > 0 && text[0] == '@' && text.contains(':') {
        let i = choose|i: int| 0 <= i < text.len() && text[i] == ':';
        assert(0 < i);
    }
}

} // verus!
