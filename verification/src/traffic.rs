//! The log of requests made to the model providers, newest first and
//! bounded in length.
use vstd::prelude::*;
use crate::clock::{new_id, spec_id_of};
use crate::text::{clip, clipped};

verus! {

/// Most entries kept in the log.
pub const MAX_TRAFFIC: usize = 40;

/// One request and its outcome.
pub struct TrafficEntry {
    pub id: String,
    pub at_ms: u64,
    pub provider: String,
    pub model: String,
    pub profile_name: String,
    pub elapsed_ms: u64,
    pub source: String,
    pub system_prompt: String,
    pub user_message: String,
    pub response: String,
    pub error: String,
}

/// An identical copy of an entry.
pub fn copy_entry(e: &TrafficEntry) -> (r: TrafficEntry)
    ensures
        r == *e,
{
    TrafficEntry {
        id: e.id.clone(),
        at_ms: e.at_ms,
        provider: e.provider.clone(),
        model: e.model.clone(),
        profile_name: e.profile_name.clone(),
        elapsed_ms: e.elapsed_ms,
        source: e.source.clone(),
        system_prompt: e.system_prompt.clone(),
        user_message: e.user_message.clone(),
        response: e.response.clone(),
        error: e.error.clone(),
    }
}

/// How an entry is stored: the texts clipped (source to 8000 characters,
/// prompts and response to 12000, error to 2000), the rest as given, except
/// the id, which is fresh.
pub open spec fn stored_as(stored: TrafficEntry, e: TrafficEntry) -> bool {
    &&& stored.at_ms == e.at_ms
    &&& stored.provider == e.provider
    &&& stored.model == e.model
    &&& stored.profile_name == e.profile_name
    &&& stored.elapsed_ms == e.elapsed_ms
    &&& stored.source@ == clipped(e.source@, 8000)
    &&& stored.system_prompt@ == clipped(e.system_prompt@, 12000)
    &&& stored.user_message@ == clipped(e.user_message@, 12000)
    &&& stored.response@ == clipped(e.response@, 12000)
    &&& stored.error@ == clipped(e.error@, 2000)
}

/// Puts an entry first in the log and keeps at most 40 entries.
pub fn record_traffic(traffic: &mut Vec<TrafficEntry>, entry: TrafficEntry)
    ensures
        final(traffic)@.len() == if old(traffic)@.len() + 1 <= MAX_TRAFFIC {
            old(traffic)@.len() + 1
        } else {
            MAX_TRAFFIC as nat
        },
        final(traffic)@.len() <= MAX_TRAFFIC,
        stored_as(final(traffic)@[0], entry),
        exists|n: Option<u128>| final(traffic)@[0].id@ == spec_id_of(n),
        forall|i: int| 1 <= i < final(traffic)@.len() ==> #[trigger] final(traffic)@[i] == old(traffic)@[i - 1],
{
    let stored = TrafficEntry {
        id: new_id(),
        at_ms: entry.at_ms,
        provider: entry.provider,
        model: entry.model,
        profile_name: entry.profile_name,
        elapsed_ms: entry.elapsed_ms,
        source: clip(entry.source.as_str(), 8000),
        system_prompt: clip(entry.system_prompt.as_str(), 12000),
        user_message: clip(entry.user_message.as_str(), 12000),
        response: clip(entry.response.as_str(), 12000),
        error: clip(entry.error.as_str(), 2000),
    };
    traffic.insert(0, stored);
    traffic.truncate(MAX_TRAFFIC);
}

/// A copy of the log.
pub fn get_traffic(traffic: &Vec<TrafficEntry>) -> (r: Vec<TrafficEntry>)
    ensures
        r@ == traffic@,
{
    let mut r: Vec<TrafficEntry> = Vec::new();
    let mut i: usize = 0;
    while i < traffic.len()
        invariant
            i <= traffic@.len(),
            r@ == traffic@.take(i as int),
        decreases traffic@.len() - i,
    {
        r.push(copy_entry(&traffic[i]));
        assert(r@ =~= traffic@.take(i + 1));
        i = i + 1;
    }
    assert(traffic@.take(i as int) =~= traffic@);
    r
}

/// Empties the log.
pub fn clear_traffic(traffic: &mut Vec<TrafficEntry>)
    ensures
        final(traffic)@.len() == 0,
{
    traffic.clear();
}

} // verus!
