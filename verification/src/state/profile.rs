//! Versioned player profile save data.

use vstd::prelude::*;

verus! {

/// The player's name and match totals.
#[derive(Clone, Debug)]
pub struct ProfileSave {
    pub version: u32,
    pub player_name: String,
    pub total_matches_played: u32,
    pub total_wins: u32,
}

impl Default for ProfileSave {
    fn default() -> (r: Self)
        ensures
            r.version == 1,
            r.player_name@ == "Player"@,
            r.total_matches_played == 0,
            r.total_wins == 0,
    {
        ProfileSave { version: 1, player_name: "Player".to_owned(), total_matches_played: 0, total_wins: 0 }
    }
}

} // verus!
