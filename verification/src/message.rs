use std::time::SystemTime;

use vstd::prelude::*;
use vstd::std_specs::convert::FromSpecImpl;

use crate::zid::{ZId, ZenohError};

verus! {

#[verifier::external_type_specification]
#[verifier::external_body]
pub struct ExSystemTime(SystemTime);

/// Calls `std::time::SystemTime::now`. The result depends on the system
/// clock, so nothing is claimed of it.
#[verifier::external_body]
fn system_time_now() -> (r: SystemTime) {
    SystemTime::now()
}

/// What goes over the wire: the payload together with the identifier of
/// the session that sent it (the source-info API of Zenoh samples is
/// unstable, so the sender travels inside the payload).
#[derive(Clone)]
pub struct MessagePacket {
    payload: Vec<u8>,
    sender: ZId,
}

impl MessagePacket {
    pub closed spec fn spec_payload(&self) -> Seq<u8> {
        self.payload@
    }

    pub closed spec fn spec_sender(&self) -> ZId {
        self.sender
    }

    pub fn new(payload: Vec<u8>, sender: ZId) -> (r: Self)
        ensures
            r.spec_payload() == payload@,
            r.spec_sender() == sender,
    {
        MessagePacket { payload, sender }
    }

    pub fn payload(&self) -> (r: &[u8])
        ensures
            r@ == self.spec_payload(),
    {
        self.payload.as_slice()
    }

    pub fn sender(&self) -> (r: ZId)
        ensures
            r == self.spec_sender(),
    {
        self.sender
    }

    /// Takes the packet apart into its payload and its sender.
    pub fn into_parts(self) -> (r: (Vec<u8>, ZId))
        ensures
            r.0@ == self.spec_payload(),
            r.1 == self.spec_sender(),
    {
        (self.payload, self.sender)
    }
}

/// A message received from a peer, stamped with the time of its arrival.
pub struct Message {
    payload: Vec<u8>,
    timestamp: SystemTime,
}

impl Message {
    pub closed spec fn spec_payload(&self) -> Seq<u8> {
        self.payload@
    }

    pub closed spec fn spec_timestamp(&self) -> SystemTime {
        self.timestamp
    }

    /// A message with the given payload, stamped with `timestamp`.
    pub fn stamped(payload: Vec<u8>, timestamp: SystemTime) -> (r: Self)
        ensures
            r.spec_payload() == payload@,
            r.spec_timestamp() == timestamp,
    {
        Message { payload, timestamp }
    }

    /// A message with the given payload, stamped with the current time (the
    /// reading of the system clock, of which nothing is claimed).
    pub fn new(payload: Vec<u8>) -> (r: Self)
        ensures
            r.spec_payload() == payload@,
    {
        let timestamp = system_time_now();
        Message::stamped(payload, timestamp)
    }

    pub fn payload(&self) -> (r: &[u8])
        ensures
            r@ == self.spec_payload(),
    {
        self.payload.as_slice()
    }

    pub fn timestamp(&self) -> (r: SystemTime)
        ensures
            r == self.spec_timestamp(),
    {
        self.timestamp
    }
}

impl From<&MessagePacket> for Message {
    /// A message carrying a copy of the packet's payload, stamped now.
    fn from(value: &MessagePacket) -> (r: Message)
        ensures
            r.spec_payload() == value.spec_payload(),
    {
        let payload = value.payload.clone();
        assert(payload@ =~= value.payload@);
        Message::new(payload)
    }
}

impl FromSpecImpl<&MessagePacket> for Message {
    /// The timestamp comes from the clock, so no function of the packet
    /// alone gives the result.
    open spec fn obeys_from_spec() -> bool {
        false
    }

    closed spec fn from_spec(v: &MessagePacket) -> Message {
        arbitrary()
    }
}

impl From<MessagePacket> for Message {
    /// A message carrying the packet's payload, stamped now.
    fn from(value: MessagePacket) -> (r: Message)
        ensures
            r.spec_payload() == value.spec_payload(),
    {
        Message::new(value.payload)
    }
}

impl FromSpecImpl<MessagePacket> for Message {
    /// The timestamp comes from the clock, so no function of the packet
    /// alone gives the result.
    open spec fn obeys_from_spec() -> bool {
        false
    }

    closed spec fn from_spec(v: MessagePacket) -> Message {
        arbitrary()
    }
}

/// Why publishing a message failed.
#[derive(Debug)]
pub enum PutError<SerializationError> {
    /// The packet could not be serialized.
    Serialization(SerializationError),
    /// Zenoh refused the payload or the publication.
    Zenoh(ZenohError),
}

} // verus!
