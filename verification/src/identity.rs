use vstd::prelude::*;

verus! {

// The protocol engine's identifier grammars (URLs, user identities, room and
// event identifiers) are not restated here. Each gets a name for the set of
// strings its parser accepts; acceptance depends on the characters alone.

/// The strings `url::Url::parse` accepts.
pub uninterp spec fn url_accepted(s: Seq<char>) -> bool;

/// The user identity strings the protocol engine's parser accepts.
pub uninterp spec fn mxid_accepted(s: Seq<char>) -> bool;

/// The room identifier strings the protocol engine's parser accepts.
pub uninterp spec fn room_id_accepted(s: Seq<char>) -> bool;

/// The event identifier strings the protocol engine's parser accepts.
pub uninterp spec fn event_id_accepted(s: Seq<char>) -> bool;

/// Relies on `url::Url::parse`: whether a home server address parses is a
/// function of the address string alone.
#[verifier::external_body]
pub(crate) fn url_parses(s: &str) -> (r: bool)
    ensures
        r == url_accepted(s@),
{
    url::Url::parse(s).is_ok()
}

/// Relies on `matrix_sdk::ruma::UserId::parse`: whether a user identity
/// parses is a function of the identity string alone.
#[verifier::external_body]
pub(crate) fn mxid_parses(s: &str) -> (r: bool)
    ensures
        r == mxid_accepted(s@),
{
    matrix_sdk::ruma::UserId::parse(s).is_ok()
}

/// Relies on `matrix_sdk::ruma::RoomId::parse`: whether a room identifier
/// parses is a function of the identifier string alone.
#[verifier::external_body]
pub(crate) fn room_id_parses(s: &str) -> (r: bool)
    ensures
        r == room_id_accepted(s@),
{
    matrix_sdk::ruma::RoomId::parse(s).is_ok()
}

/// Relies on `matrix_sdk::ruma::EventId::parse`: whether an event identifier
/// parses is a function of the identifier string alone.
#[verifier::external_body]
pub(crate) fn event_id_parses(s: &str) -> (r: bool)
    ensures
        r == event_id_accepted(s@),
{
    matrix_sdk::ruma::EventId::parse(s).is_ok()
}

} // verus!
