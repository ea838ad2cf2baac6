use vstd::prelude::*;

use crate::platform::{clock_micros, fresh_uuid};

verus! {

/// Aggregate score of a player within a session. Identifiers are UUID values;
/// `updated_at` is in microseconds since the Unix epoch.
#[derive(Debug)]
pub struct PlayerScore {
    pub id: u128,
    pub session_code: String,
    pub player_id: u128,
    pub player_name: String,
    pub total_score: i32,
    pub rounds_played: i32,
    pub last_round_score: i32,
    pub updated_at: i64,
}

impl PlayerScore {
    /// A player's first score record: nothing earned yet. It gets a fresh random id
    /// and the current time.
    pub fn new(session_code: String, player_id: u128, player_name: String) -> (s: PlayerScore)
        ensures
            s.session_code == session_code,
            s.player_id == player_id,
            s.player_name == player_name,
            s.total_score == 0,
            s.rounds_played == 0,
            s.last_round_score == 0,
    {
        PlayerScore {
            id: fresh_uuid(),
            session_code,
            player_id,
            player_name,
            total_score: 0,
            rounds_played: 0,
            last_round_score: 0,
            updated_at: clock_micros(),
        }
    }

    /// Adds a round's points: the total grows by them, one more round is played,
    /// and they are the last round's score. The update time is the current time.
    pub fn apply_round_score(&mut self, round_points: i32)
        requires
            i32::MIN <= old(self).total_score + round_points <= i32::MAX,
            old(self).rounds_played < i32::MAX,
        ensures
            final(self).total_score == old(self).total_score + round_points,
            final(self).rounds_played == old(self).rounds_played + 1,
            final(self).last_round_score == round_points,
            final(self).id == old(self).id,
            final(self).session_code == old(self).session_code,
            final(self).player_id == old(self).player_id,
            final(self).player_name == old(self).player_name,
    {
        self.total_score = self.total_score + round_points;
        self.rounds_played = self.rounds_played + 1;
        self.last_round_score = round_points;
        self.updated_at = clock_micros();
    }
}

} // verus!
