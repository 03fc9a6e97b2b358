//! What happens when a fighter runs out of health: its killer is awarded
//! a point (or loses one for killing itself), and the victim respawns
//! with full health.
use vstd::prelude::*;

use super::health::Health;
use super::player::PlayerId;

verus! {

/// Health a fighter respawns with.
pub const RESPAWN_HP: i32 = 100;

/// A player's score, found by the player's index in the game's list of
/// players.
#[derive(Debug, Eq, PartialEq, Clone, Copy, Structural)]
pub struct PlayerScore {
    pub id: PlayerId,
    pub points: i32,
}

/// The scores after the fighter of player `victim` died, last damaged by
/// `killer`: the killer gains a point, or loses one if it killed itself.
/// Nothing changes when nobody damaged the victim, or when the victim or
/// the killer has left the game.
pub open spec fn scores_after_death(
    players: Seq<PlayerScore>,
    victim: PlayerId,
    killer: Option<PlayerId>,
) -> Seq<PlayerScore> {
    match killer {
        Some(k) => {
            if victim.0 < players.len() && k.0 < players.len() {
                let killer_score = players[k.0 as int];
                let delta: int = if killer_score.id == players[victim.0 as int].id { -1 } else { 1 };
                players.update(
                    k.0 as int,
                    PlayerScore { id: killer_score.id, points: (killer_score.points + delta) as i32 },
                )
            } else {
                players
            }
        },
        None => players,
    }
}

/// Awards points for the death of player `victim`'s fighter, whose
/// `health` has run out, and restores its health so it can respawn.
///
/// Finding a new place for the fighter is up to the caller.
pub fn resolve_death(players: &mut Vec<PlayerScore>, victim: PlayerId, health: &mut Health)
    requires
        old(health).hp <= 0,
        forall|i: int| 0 <= i < old(players).len() ==> i32::MIN < #[trigger] old(players)[i].points < i32::MAX,
    ensures
        final(health).hp == RESPAWN_HP,
        final(health).last_damaged_by_player_id == old(health).last_damaged_by_player_id,
        final(players)@ == scores_after_death(old(players)@, victim, old(health).last_damaged_by_player_id),
{
    if let Some(last_damaged_by_player_id) = health.last_damaged_by_player_id {
        // Victim might have left the game.
        let victim_index = victim.0 as usize;
        if victim_index < players.len() {
            let victim_id = players[victim_index].id;
            // There might not have been a killer (environmental damage),
            // or they might have left the game.
            let killer_index = last_damaged_by_player_id.0 as usize;
            if killer_index < players.len() {
                let mut killer = players[killer_index];
                if killer.id.0 == victim_id.0 {
                    // Oops. Lost points for a self-kill.
                    killer.points = killer.points - 1;
                } else {
                    // Yay, you win a point for killing someone!
                    killer.points = killer.points + 1;
                }
                players.set(killer_index, killer);
            }
        }
    }
    // Re-spawn the player.
    health.hp = RESPAWN_HP;
}

} // verus!
