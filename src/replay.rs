//! A model of the store as round-end handlers see it, and what delivering
//! an event to a handler does to it.
use vstd::prelude::*;
use crate::lifecycle::{spec_round_end_start, spec_round_end_step, spec_slot_scores, RoundEnd};
use crate::models::{DatHostMatch, MatchId, MatchSeries};
use crate::reconcile::{fits_store, spec_attribute, spec_probe_account};
use crate::protocol::{Next, Request, Response};

verus! {

/// What the store and the host answer to the lookups of a round-end
/// handler. None of the handler's writes changes these answers.
pub struct StoreReads {
    /// Series bound to each server, by server identifier.
    pub series_by_server: Map<Seq<char>, MatchSeries>,
    /// The map each server is configured for, by server identifier.
    pub server_maps: Map<Seq<char>, String>,
    /// Matches by series and map name.
    pub matches: Map<(i32, Seq<char>), MatchId>,
    /// (series, team, account) triples of roster membership.
    pub members: Set<(i32, i32, i64)>,
}

/// A store as round-end handlers see it: the answers to their lookups, and
/// the score pair of each match.
pub struct ScoreStore {
    pub reads: StoreReads,
    pub scores: Map<MatchId, (i32, i32)>,
}

/// The answer to a call of a round-end handler.
pub open spec fn answer(reads: StoreReads, req: Request) -> Response {
    match req {
        Request::FindSeries { server } => Response::Series(
            if reads.series_by_server.contains_key(server.0@) {
                Some(reads.series_by_server[server.0@])
            } else {
                None
            },
        ),
        Request::GetServerMap { server } => if reads.server_maps.contains_key(server.0@) {
            Response::MapName(reads.server_maps[server.0@])
        } else {
            Response::Failed
        },
        Request::FindMatch { series, map } => Response::Match(
            if reads.matches.contains_key((series.0, map@)) {
                Some(reads.matches[(series.0, map@)])
            } else {
                None
            },
        ),
        Request::IsPlayerOnTeam { series, team, account } => Response::Membership(
            reads.members.contains((series.0, team.0, account)),
        ),
        Request::UpdateScores { .. } => Response::Done,
        _ => Response::Failed,
    }
}

/// The score writes a handler makes, in order, from its pending call on,
/// for at most `fuel` calls.
pub open spec fn score_writes(s: RoundEnd, req: Request, reads: StoreReads, fuel: nat) -> Seq<
    (MatchId, (i32, i32)),
>
    decreases fuel,
{
    if fuel == 0 {
        Seq::empty()
    } else {
        let written = match req {
            Request::UpdateScores { match_id, team_one_score, team_two_score } => seq![
                (match_id, (team_one_score, team_two_score)),
            ],
            _ => Seq::empty(),
        };
        let (s2, n) = spec_round_end_step(s, answer(reads, req));
        match n {
            Next::Call(req2) => written + score_writes(s2, req2, reads, (fuel - 1) as nat),
            _ => written,
        }
    }
}

/// A round-end handler makes at most this many calls.
pub const ROUND_END_CALLS: u64 = 5;

/// The score writes of one delivery of a round-end event.
pub open spec fn round_end_writes(event: DatHostMatch, reads: StoreReads) -> Seq<
    (MatchId, (i32, i32)),
> {
    let (s, req) = spec_round_end_start(event);
    score_writes(s, req, reads, ROUND_END_CALLS as nat)
}

/// Score pairs after a sequence of overwrites.
pub open spec fn overwrite(
    scores: Map<MatchId, (i32, i32)>,
    writes: Seq<(MatchId, (i32, i32))>,
) -> Map<MatchId, (i32, i32)>
    decreases writes.len(),
{
    if writes.len() == 0 {
        scores
    } else {
        overwrite(scores, writes.drop_last()).insert(writes.last().0, writes.last().1)
    }
}

/// The store after one delivery of a round-end event, run to its end.
pub open spec fn deliver_round_end(event: DatHostMatch, store: ScoreStore) -> ScoreStore {
    ScoreStore {
        reads: store.reads,
        scores: overwrite(store.scores, round_end_writes(event, store.reads)),
    }
}

/// The last value written for a key, if any.
pub open spec fn last_write(writes: Seq<(MatchId, (i32, i32))>, k: MatchId) -> Option<(i32, i32)>
    decreases writes.len(),
{
    if writes.len() == 0 {
        None
    } else if writes.last().0 == k {
        Some(writes.last().1)
    } else {
        last_write(writes.drop_last(), k)
    }
}

proof fn lemma_overwrite_lookup(
    scores: Map<MatchId, (i32, i32)>,
    writes: Seq<(MatchId, (i32, i32))>,
    k: MatchId,
)
    ensures
        overwrite(scores, writes).contains_key(k) == (last_write(writes, k) is Some
            || scores.contains_key(k)),
        overwrite(scores, writes).contains_key(k) ==> overwrite(scores, writes)[k] == match last_write(writes, k) {
            Some(v) => v,
            None => scores[k],
        },
    decreases writes.len(),
{
    if writes.len() > 0 {
        lemma_overwrite_lookup(scores, writes.drop_last(), k);
    }
}

proof fn lemma_overwrite_twice(scores: Map<MatchId, (i32, i32)>, writes: Seq<(MatchId, (i32, i32))>)
    ensures
        overwrite(overwrite(scores, writes), writes) == overwrite(scores, writes),
{
    let once = overwrite(scores, writes);
    let twice = overwrite(once, writes);
    assert forall|k: MatchId| #[trigger] twice.contains_key(k) == once.contains_key(k) by {
        lemma_overwrite_lookup(scores, writes, k);
        lemma_overwrite_lookup(once, writes, k);
    }
    assert forall|k: MatchId| twice.contains_key(k) implies #[trigger] twice[k] == once[k] by {
        lemma_overwrite_lookup(scores, writes, k);
        lemma_overwrite_lookup(once, writes, k);
    }
    assert(twice =~= once);
}

/// Replaying an identical round-end event leaves the store as a single
/// delivery does: the second delivery writes the same score pairs, and
/// writing them again changes nothing.
pub proof fn lemma_round_end_replay(event: DatHostMatch, store: ScoreStore)
    ensures
        round_end_writes(event, deliver_round_end(event, store).reads) == round_end_writes(
            event,
            store.reads,
        ),
        deliver_round_end(event, deliver_round_end(event, store)) == deliver_round_end(
            event,
            store,
        ),
{
    lemma_overwrite_twice(store.scores, round_end_writes(event, store.reads));
}

/// When the event names its map, the store knows its server and match, the
/// event carries both scores within the store's range, and its first
/// slot-one player can be read, a round-end delivery makes exactly one
/// write: the slot scores credited straight through when that player is on
/// team one's roster, and swapped otherwise.
pub proof fn lemma_round_end_writes_attributed(event: DatHostMatch, reads: StoreReads)
    requires
        event.map is Some,
        reads.series_by_server.contains_key(event.server_id.0@),
        reads.matches.contains_key(
            (reads.series_by_server[event.server_id.0@].id, event.map->Some_0@),
        ),
        spec_slot_scores(event) is Some,
        spec_probe_account(event.team1_steam_ids@) is Ok,
        fits_store(
            spec_attribute(spec_slot_scores(event)->Some_0.0, spec_slot_scores(event)->Some_0.1, true),
        ),
    ensures
        ({
            let series = reads.series_by_server[event.server_id.0@];
            let match_id = reads.matches[(series.id, event.map->Some_0@)];
            let account = spec_probe_account(event.team1_steam_ids@)->Ok_0 as i64;
            let on_team_one = reads.members.contains((series.id, series.team_one, account));
            let (slot_one, slot_two) = spec_slot_scores(event)->Some_0;
            let scores = spec_attribute(slot_one, slot_two, on_team_one);
            round_end_writes(event, reads) == seq![
                (match_id, (scores.team_one_score as i32, scores.team_two_score as i32)),
            ]
        }),
{
    reveal_with_fuel(score_writes, 6);
    let (s0, r0) = spec_round_end_start(event);
    let (s1, n1) = spec_round_end_step(s0, answer(reads, r0));
    let r1 = n1->Call_0;
    let (s2, n2) = spec_round_end_step(s1, answer(reads, r1));
    let r2 = n2->Call_0;
    let (s3, n3) = spec_round_end_step(s2, answer(reads, r2));
    let r3 = n3->Call_0;
    let (s4, n4) = spec_round_end_step(s3, answer(reads, r3));
    assert(n4 is Finished);
}

} // verus!
