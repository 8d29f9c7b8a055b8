use vstd::prelude::*;

use crate::message::{Message, MessagePacket};
use crate::store::{AtomicMessagesStore, PoisonedLockError, StoreReport};
use crate::zid::ZId;

verus! {

/// What the network shares with the callback that receives messages: the
/// store of the latest message of each peer and the serializer of packets.
pub struct NetworkContext<S> {
    messages: AtomicMessagesStore,
    serializer: S,
}

impl<S> NetworkContext<S> {
    pub closed spec fn spec_serializer(&self) -> S {
        self.serializer
    }

    /// A context with an empty store.
    pub fn new(serializer: S) -> (r: Self)
        ensures
            r.spec_serializer() == serializer,
            r.spec_messages().initial_messages() == Map::<u128, Message>::empty(),
    {
        NetworkContext { messages: AtomicMessagesStore::new(), serializer }
    }

    /// The serializer of packets.
    pub fn serializer(&self) -> (r: &S)
        ensures
            *r == self.spec_serializer(),
    {
        &self.serializer
    }

    pub closed spec fn spec_messages(&self) -> AtomicMessagesStore {
        self.messages
    }

    /// The store of the latest message of each peer.
    pub fn messages(&self) -> (r: &AtomicMessagesStore)
        ensures
            *r == self.spec_messages(),
    {
        &self.messages
    }

    /// Handles a packet that arrived and was deserialized: its payload,
    /// stamped with the current time, becomes the latest message of its
    /// sender, the session identifier carried inside the packet. Fails only
    /// if the store's lock is poisoned, and then writes nothing. Gives back
    /// the report of the store's write: it names this context's store, and
    /// only `AtomicMessagesStore::store` can make one.
    pub fn receive(&self, packet: MessagePacket) -> (r: (Result<(), PoisonedLockError>, StoreReport))
        ensures
            r.1.store() == self.spec_messages(),
            r.0 is Ok ==> r.1.wrote(),
            r.0 is Ok ==> exists|m: Message|
                #![trigger r.1.before().insert(packet.spec_sender().value(), m)]
                m.spec_payload() == packet.spec_payload() && r.1.after() == r.1.before().insert(
                    packet.spec_sender().value(),
                    m,
                ),
            r.0 is Ok ==> r.1.after().contains_key(packet.spec_sender().value()),
            r.0 is Ok ==> r.1.after()[packet.spec_sender().value()].spec_payload()
                == packet.spec_payload(),
            r.0 is Ok ==> forall|k: u128|
                k != packet.spec_sender().value() ==> #[trigger] r.1.after().contains_key(k)
                    == r.1.before().contains_key(k) && r.1.after()[k] == r.1.before()[k],
            r.0 is Ok ==> r.1.before().dom().finite(),
            r.0 is Err ==> !r.1.wrote(),
    {
        let zid = packet.sender();
        let message = Message::from(packet);
        self.messages.store(zid, message)
    }
}

/// What a successful `receive` records, over two packets received in a row
/// (the second taking the map the first left): the key written is always
/// the sender carried inside the packet; of two packets from the same sender
/// only the later payload stays, under that sender, and no peer is added by
/// the second; of two packets from different senders both payloads stay.
pub proof fn consecutive_receives(
    first: StoreReport,
    second: StoreReport,
    packet1: MessagePacket,
    packet2: MessagePacket,
)
    requires
        exists|m: Message|
            m.spec_payload() == packet1.spec_payload() && first.after() == first.before().insert(
                packet1.spec_sender().value(),
                m,
            ),
        exists|m: Message|
            m.spec_payload() == packet2.spec_payload() && second.after()
                == second.before().insert(packet2.spec_sender().value(), m),
        second.before() == first.after(),
        first.before().dom().finite(),
    ensures
        second.after()[packet2.spec_sender().value()].spec_payload() == packet2.spec_payload(),
        packet1.spec_sender().value() == packet2.spec_sender().value() ==> second.after().dom()
            == first.after().dom(),
        packet1.spec_sender().value() != packet2.spec_sender().value() ==> second.after()[packet1.spec_sender().value()].spec_payload()
            == packet1.spec_payload(),
        forall|k: u128|
            k != packet1.spec_sender().value() && k != packet2.spec_sender().value()
                ==> (#[trigger] second.after().contains_key(k) == first.before().contains_key(k)),
{
    let m1 = choose|m: Message|
        m.spec_payload() == packet1.spec_payload() && first.after() == first.before().insert(
            packet1.spec_sender().value(),
            m,
        );
    let m2 = choose|m: Message|
        m.spec_payload() == packet2.spec_payload() && second.after() == second.before().insert(
            packet2.spec_sender().value(),
            m,
        );
    if packet1.spec_sender().value() == packet2.spec_sender().value() {
        assert(second.after().dom() =~= first.after().dom());
    }
}

/// Publishes this session's messages: every packet it sends carries the
/// session identifier as its sender. `P` is the handle of the declared
/// Zenoh publisher.
pub struct MessagePublisher<P> {
    zid: ZId,
    publisher: P,
}

impl<P> MessagePublisher<P> {
    pub closed spec fn spec_zid(&self) -> ZId {
        self.zid
    }

    pub closed spec fn spec_publisher(&self) -> P {
        self.publisher
    }

    /// The publisher of session `zid` that publishes through `publisher`.
    pub fn new(zid: ZId, publisher: P) -> (r: Self)
        ensures
            r.spec_zid() == zid,
            r.spec_publisher() == publisher,
    {
        MessagePublisher { zid, publisher }
    }

    /// The identifier of the publishing session.
    pub fn zid(&self) -> (r: ZId)
        ensures
            r == self.spec_zid(),
    {
        self.zid
    }

    /// The Zenoh publisher handle.
    pub fn publisher(&self) -> (r: &P)
        ensures
            *r == self.spec_publisher(),
    {
        &self.publisher
    }

    /// The packet that publishing `payload` sends.
    pub fn packet(&self, payload: Vec<u8>) -> (r: MessagePacket)
        ensures
            r.spec_payload() == payload@,
            r.spec_sender() == self.spec_zid(),
    {
        MessagePacket::new(payload, self.zid)
    }
}

} // verus!
