use vstd::prelude::*;

use crate::text::{join, owned};

verus! {

/// The channel on which the engine publishes a session's game events.
pub open spec fn game_channel_text(code: Seq<char>) -> Seq<char> {
    "wedding_quest:game:"@ + code
}

/// The channel that reaches a session's clients.
pub open spec fn session_channel_text(code: Seq<char>) -> Seq<char> {
    "wedding_quest:session:"@ + code
}

/// `s` without `prefix`, where it starts with it.
pub open spec fn strip(s: Seq<char>, prefix: Seq<char>) -> Option<Seq<char>> {
    if prefix.len() <= s.len() && s.take(prefix.len() as int) == prefix {
        Some(s.skip(prefix.len() as int))
    } else {
        None
    }
}

/// The session whose game channel `channel` is: none unless it names a non-empty code.
pub open spec fn session_of_game_channel(channel: Seq<char>) -> Option<Seq<char>> {
    match strip(channel, "wedding_quest:game:"@) {
        Some(code) => if code.len() > 0 {
            Some(code)
        } else {
            None
        },
        None => None,
    }
}

/// The room a session-channel message goes to: the session code, or the whole
/// channel name where it lacks the prefix.
pub open spec fn room_of_channel(channel: Seq<char>) -> Seq<char> {
    match strip(channel, "wedding_quest:session:"@) {
        Some(code) => code,
        None => channel,
    }
}

/// The engine's game channel of a session names that session, unless its code is empty.
pub proof fn lemma_game_channel_names_session(code: Seq<char>)
    ensures
        session_of_game_channel(game_channel_text(code)) == if code.len() > 0 {
            Some(code)
        } else {
            None::<Seq<char>>
        },
{
    let p = "wedding_quest:game:"@;
    assert((p + code).take(p.len() as int) =~= p);
    assert((p + code).skip(p.len() as int) =~= code);
}

/// A message on a session's channel goes to that session's room.
pub proof fn lemma_session_channel_reaches_room(code: Seq<char>)
    ensures
        room_of_channel(session_channel_text(code)) == code,
{
    let p = "wedding_quest:session:"@;
    assert((p + code).take(p.len() as int) =~= p);
    assert((p + code).skip(p.len() as int) =~= code);
}

pub fn game_channel(session_code: &str) -> (r: String)
    ensures
        r@ == game_channel_text(session_code@),
{
    join("wedding_quest:game:", session_code)
}

pub fn session_channel(session_code: &str) -> (r: String)
    ensures
        r@ == session_channel_text(session_code@),
{
    join("wedding_quest:session:", session_code)
}

/// `s` without `prefix`, where it starts with it.
pub fn strip_prefix(s: &str, prefix: &str) -> (r: Option<String>)
    ensures
        match r {
            Some(t) => strip(s@, prefix@) == Some(t@),
            None => strip(s@, prefix@) is None,
        },
{
    let n = s.unicode_len();
    let m = prefix.unicode_len();
    if m > n {
        return None;
    }
    let mut i: usize = 0;
    while i < m
        invariant
            i <= m <= n,
            n == s@.len(),
            m == prefix@.len(),
            forall|j: int| 0 <= j < i ==> s@[j] == prefix@[j],
        decreases m - i,
    {
        if s.get_char(i) != prefix.get_char(i) {
            assert(s@.take(m as int)[i as int] != prefix@[i as int]);
            return None;
        }
        i = i + 1;
    }
    assert(s@.take(m as int) =~= prefix@);
    let rest = s.substring_char(m, n);
    assert(rest@ =~= s@.skip(m as int));
    Some(owned(rest))
}

/// The session code of a game channel; none for a channel of another kind or an empty code.
pub fn session_code_from_game_channel(channel: &str) -> (r: Option<String>)
    ensures
        match r {
            Some(code) => session_of_game_channel(channel@) == Some(code@),
            None => session_of_game_channel(channel@) is None,
        },
{
    match strip_prefix(channel, "wedding_quest:game:") {
        Some(code) => if code.as_str().unicode_len() > 0 {
            Some(code)
        } else {
            None
        },
        None => None,
    }
}

/// The room a message on a session channel is broadcast to.
pub fn room_key_from_channel(channel: &str) -> (r: String)
    ensures
        r@ == room_of_channel(channel@),
{
    match strip_prefix(channel, "wedding_quest:session:") {
        Some(code) => code,
        None => owned(channel),
    }
}

} // verus!
