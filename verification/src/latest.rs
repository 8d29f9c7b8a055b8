use std::collections::HashMap;

use vstd::prelude::*;

use crate::message::Message;
use crate::zid::ZId;

verus! {

/// The record of one write made by `record_latest`: the map before and
/// after it. Only `record_latest` makes one.
pub struct LatestWrite {
    before: Ghost<Map<u128, Message>>,
    after: Ghost<Map<u128, Message>>,
}

impl LatestWrite {
    /// The map before the write.
    pub closed spec fn before(&self) -> Map<u128, Message> {
        self.before@
    }

    /// The map after the write.
    pub closed spec fn after(&self) -> Map<u128, Message> {
        self.after@
    }
}

/// Records `message` as the latest message of the peer `zid` in `latest`:
/// any earlier message of that peer is replaced, those of the other peers
/// stay as they were. Gives back the record of that write.
pub fn record_latest(latest: &mut HashMap<u128, Message>, zid: ZId, message: Message) -> (w: LatestWrite)
    ensures
        final(latest)@ == old(latest)@.insert(zid.value(), message),
        w.before() == old(latest)@,
        w.after() == final(latest)@,
        w.before().dom().finite(),
        w.after().dom().finite(),
{
    broadcast use vstd::std_specs::hash::group_hash_axioms;

    let ghost before = latest@;
    latest.insert(zid.as_u128(), message);
    let ghost after = latest@;
    LatestWrite { before: Ghost(before), after: Ghost(after) }
}

} // verus!
