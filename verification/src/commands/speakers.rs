//! Speaker lookups behind the speaker commands.

use vstd::prelude::*;

use crate::db::speakers::SpeakerWithStats;

verus! {

/// Index of the first speaker in `local[from..]` with registry id `id`.
pub open spec fn first_with_id(local: Seq<SpeakerWithStats>, id: i64, from: int) -> Option<int>
    decreases local.len() - from,
{
    if from < 0 || from >= local.len() {
        None
    } else if local[from].speech_swift_id == id {
        Some(from)
    } else {
        first_with_id(local, id, from + 1)
    }
}

/// For each similar speaker reported by the audio-server (in order), the
/// pair (its position, the position of the first local speaker with that
/// registry id); speakers not found locally are left out.
pub open spec fn similar_matches(record_ids: Seq<i64>, local: Seq<SpeakerWithStats>) -> Seq<(usize, usize)>
    decreases record_ids.len(),
{
    if record_ids.len() == 0 {
        Seq::empty()
    } else {
        let prev = similar_matches(record_ids.drop_last(), local);
        match first_with_id(local, record_ids.last(), 0) {
            Some(j) => prev.push(((record_ids.len() - 1) as usize, j as usize)),
            None => prev,
        }
    }
}

fn find_speaker(local: &[SpeakerWithStats], id: i64) -> (r: Option<usize>)
    ensures
        r matches Some(j) ==> first_with_id(local@, id, 0) == Some(j as int),
        r is None ==> first_with_id(local@, id, 0) is None,
{
    let mut j: usize = 0;
    while j < local.len()
        invariant
            j <= local@.len(),
            first_with_id(local@, id, 0) == first_with_id(local@, id, j as int),
        decreases local@.len() - j,
    {
        if local[j].speech_swift_id == id {
            return Some(j);
        }
        j = j + 1;
    }
    None
}

/// Cross-reference the registry ids of similar speakers with the local
/// speakers, keeping the audio-server's order and dropping ids that are not
/// known locally.
pub fn similar_speaker_matches(record_ids: &[i64], local: &[SpeakerWithStats]) -> (pairs: Vec<(usize, usize)>)
    ensures
        pairs@ == similar_matches(record_ids@, local@),
{
    let mut pairs: Vec<(usize, usize)> = Vec::new();
    let mut i: usize = 0;
    while i < record_ids.len()
        invariant
            i <= record_ids@.len(),
            pairs@ == similar_matches(record_ids@.take(i as int), local@),
        decreases record_ids@.len() - i,
    {
        assert(record_ids@.take(i + 1).drop_last() =~= record_ids@.take(i as int));
        match find_speaker(local, record_ids[i]) {
            Some(j) => pairs.push((i, j)),
            None => {},
        }
        i = i + 1;
    }
    assert(record_ids@.take(record_ids@.len() as int) =~= record_ids@);
    pairs
}

} // verus!
