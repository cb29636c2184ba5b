//! ScoreReconciler: which persisted team each in-game slot stands for.
use vstd::prelude::*;
use crate::error::Error;
use crate::identity::{parse_steam2, spec_parse_steam2};

verus! {

/// Scores credited to the persisted teams of a series.
#[derive(Clone, Copy, Debug, PartialEq, Eq, Structural)]
pub struct AttributedScores {
    pub team_one_score: u32,
    pub team_two_score: u32,
}

/// Scores map straight through when slot one is team one, and are swapped otherwise.
pub open spec fn spec_attribute(
    slot_one_score: u32,
    slot_two_score: u32,
    slot_one_is_team_one: bool,
) -> AttributedScores {
    if slot_one_is_team_one {
        AttributedScores { team_one_score: slot_one_score, team_two_score: slot_two_score }
    } else {
        AttributedScores { team_one_score: slot_two_score, team_two_score: slot_one_score }
    }
}

/// The account whose membership decides attribution: the first listed
/// slot-one player, who must be present and readable.
pub open spec fn spec_probe_account(slot_one_roster: Seq<String>) -> Result<u64, Error> {
    if slot_one_roster.len() == 0 {
        Err(Error::AttributionFailed)
    } else {
        match spec_parse_steam2(slot_one_roster[0]@) {
            Some(a) => Ok(a),
            None => Err(Error::AttributionFailed),
        }
    }
}

/// Decides which persisted team each in-game slot stands for.
pub struct ScoreReconciler;

impl ScoreReconciler {
    /// Credits the slot scores to the persisted teams, given whether slot one
    /// is team one. The decision is taken afresh on every call.
    pub fn attribute(slot_one_score: u32, slot_two_score: u32, slot_one_is_team_one: bool) -> (r:
        AttributedScores)
        ensures
            r == spec_attribute(slot_one_score, slot_two_score, slot_one_is_team_one),
    {
        if slot_one_is_team_one {
            AttributedScores { team_one_score: slot_one_score, team_two_score: slot_two_score }
        } else {
            AttributedScores { team_one_score: slot_two_score, team_two_score: slot_one_score }
        }
    }

    /// Resolves the first slot-one player to a stable account identifier.
    pub fn probe_account(slot_one_roster: &Vec<String>) -> (r: Result<u64, Error>)
        ensures
            r == spec_probe_account(slot_one_roster@),
            r matches Ok(a) ==> a <= i64::MAX,
    {
        if slot_one_roster.len() == 0 {
            return Err(Error::AttributionFailed);
        }
        match parse_steam2(slot_one_roster[0].as_str()) {
            Some(a) => Ok(a),
            None => Err(Error::AttributionFailed),
        }
    }

    /// Credits the slot scores given the account identifiers on team one's
    /// roster: unswapped exactly when the first slot-one player is among them.
    pub fn attribute_by_roster(
        slot_one_score: u32,
        slot_two_score: u32,
        slot_one_roster: &Vec<String>,
        team_one_roster: &Vec<u64>,
    ) -> (r: Result<AttributedScores, Error>)
        ensures
            match spec_probe_account(slot_one_roster@) {
                Ok(a) => r == Ok::<AttributedScores, Error>(
                    spec_attribute(slot_one_score, slot_two_score, team_one_roster@.contains(a)),
                ),
                Err(e) => r == Err::<AttributedScores, Error>(e),
            },
    {
        let account = match Self::probe_account(slot_one_roster) {
            Ok(a) => a,
            Err(e) => return Err(e),
        };
        let mut found = false;
        let mut i: usize = 0;
        while i < team_one_roster.len()
            invariant
                0 <= i <= team_one_roster.len(),
                found == team_one_roster@.take(i as int).contains(account),
            decreases team_one_roster.len() - i,
        {
            proof {
                let t = team_one_roster@.take(i as int + 1);
                assert(t =~= team_one_roster@.take(i as int).push(team_one_roster@[i as int]));
                assert(t.contains(account) == (team_one_roster@.take(i as int).contains(account)
                    || team_one_roster@[i as int] == account)) by {
                    if t.contains(account) {
                        let k = choose|k: int| 0 <= k < t.len() && t[k] == account;
                        if k < i {
                            assert(team_one_roster@.take(i as int)[k] == account);
                        }
                    }
                    if team_one_roster@.take(i as int).contains(account) {
                        let k = choose|k: int|
                            0 <= k < i && team_one_roster@.take(i as int)[k] == account;
                        assert(t[k] == account);
                    }
                    if team_one_roster@[i as int] == account {
                        assert(t[i as int] == account);
                    }
                }
            }
            if team_one_roster[i] == account {
                found = true;
            }
            i = i + 1;
        }
        assert(team_one_roster@.take(team_one_roster.len() as int) =~= team_one_roster@);
        Ok(Self::attribute(slot_one_score, slot_two_score, found))
    }
}

/// The store keeps scores as signed 32-bit integers.
pub open spec fn fits_store(s: AttributedScores) -> bool {
    s.team_one_score <= i32::MAX && s.team_two_score <= i32::MAX
}

/// Converts attributed scores to the store's integer type; a score past
/// `i32::MAX` makes the event invalid.
pub fn store_scores(s: AttributedScores) -> (r: Result<(i32, i32), Error>)
    ensures
        fits_store(s) ==> r == Ok::<(i32, i32), Error>(
            (s.team_one_score as i32, s.team_two_score as i32),
        ),
        !fits_store(s) ==> r == Err::<(i32, i32), Error>(Error::InvalidEvent),
{
    if s.team_one_score > 0x7FFF_FFFF || s.team_two_score > 0x7FFF_FFFF {
        Err(Error::InvalidEvent)
    } else {
        Ok((s.team_one_score as i32, s.team_two_score as i32))
    }
}

} // verus!
