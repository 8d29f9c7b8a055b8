use std::collections::HashMap;

use esp_zenoh_network::entities::{EntityGlobalId, EntityId};
use esp_zenoh_network::matching::MatchingStatus;
use esp_zenoh_network::message::{Message, MessagePacket, PutError};
use esp_zenoh_network::network::{MessagePublisher, NetworkContext};
use esp_zenoh_network::platform::InitOptions;
use esp_zenoh_network::query::Query;
use esp_zenoh_network::store::{record_latest, AtomicMessagesStore, PoisonedLockError};
use esp_zenoh_network::zid::{ZId, ZenohError, ZenohResult};

#[test]
fn init_options_enable_logger_by_default() {
    assert!(InitOptions::default().enable_logger);
}

#[test]
fn zid_keeps_its_value() {
    let zid = ZId::new(0x0123_4567_89ab_cdef_0011_2233_4455_6677);
    assert_eq!(zid.as_u128(), 0x0123_4567_89ab_cdef_0011_2233_4455_6677);
    assert_eq!(zid, ZId::new(0x0123_4567_89ab_cdef_0011_2233_4455_6677));
    assert_ne!(zid, ZId::new(1));
}

#[test]
fn zenoh_error_keeps_its_code() {
    assert_eq!(ZenohError::new(-3).code(), -3);
    let r: ZenohResult<u8> = Err(ZenohError::new(-1));
    assert_eq!(r, Err(ZenohError::new(-1)));
}

#[test]
fn entity_id_round_trips_through_u32() {
    let id = EntityId::from(42u32);
    assert_eq!(id.value(), 42);
    let raw: u32 = id.into();
    assert_eq!(raw, 42);
    assert_eq!(EntityId::from(u32::from(id)), id);
    assert_eq!(EntityId::from(u32::MAX).value(), u32::MAX);
}

#[test]
fn entity_global_id_gives_back_its_parts() {
    let zid = ZId::new(99);
    let gid = EntityGlobalId::new(&zid, EntityId::from(7u32)).unwrap();
    assert_eq!(gid.zid(), zid);
    assert_eq!(gid.entity_id(), EntityId::from(7u32));
    assert_eq!(gid, EntityGlobalId::new(&ZId::new(99), EntityId::from(7u32)).unwrap());
    assert_ne!(gid, EntityGlobalId::new(&ZId::new(98), EntityId::from(7u32)).unwrap());
}

#[test]
fn matching_status_reports_matching() {
    assert!(MatchingStatus::new(true).is_matching());
    assert!(!MatchingStatus::new(false).is_matching());
}

#[test]
fn packet_gives_back_payload_and_sender() {
    let packet = MessagePacket::new(vec![1, 2, 3], ZId::new(5));
    assert_eq!(packet.payload(), &[1, 2, 3]);
    assert_eq!(packet.sender(), ZId::new(5));
    let copy = packet.clone();
    let (payload, sender) = copy.into_parts();
    assert_eq!(payload, vec![1, 2, 3]);
    assert_eq!(sender, ZId::new(5));
}

#[test]
fn empty_packet() {
    let packet = MessagePacket::new(Vec::new(), ZId::new(0));
    assert!(packet.payload().is_empty());
    assert_eq!(Message::from(&packet).payload(), &[] as &[u8]);
}

#[test]
fn message_from_packet_keeps_payload() {
    let packet = MessagePacket::new(vec![9, 8], ZId::new(1));
    let by_ref = Message::from(&packet);
    assert_eq!(by_ref.payload(), &[9, 8]);
    let by_value: Message = packet.into();
    assert_eq!(by_value.payload(), &[9, 8]);
}

#[test]
fn message_is_stamped_with_the_current_time() {
    let before = std::time::SystemTime::now();
    let message = Message::new(vec![4]);
    let after = std::time::SystemTime::now();
    assert_eq!(message.payload(), &[4]);
    assert!(before <= message.timestamp() && message.timestamp() <= after);
}

#[test]
fn stamped_message_keeps_payload_and_time() {
    let time = std::time::SystemTime::UNIX_EPOCH + std::time::Duration::from_secs(1_700_000_000);
    let message = Message::stamped(vec![7, 7], time);
    assert_eq!(message.payload(), &[7, 7]);
    assert_eq!(message.timestamp(), time);
}

#[test]
fn record_latest_replaces_only_the_same_peer() {
    let mut latest: HashMap<u128, Message> = HashMap::new();
    record_latest(&mut latest, ZId::new(1), Message::new(vec![1]));
    record_latest(&mut latest, ZId::new(2), Message::new(vec![2]));
    record_latest(&mut latest, ZId::new(1), Message::new(vec![3]));
    assert_eq!(latest.len(), 2);
    assert_eq!(latest[&1].payload(), &[3]);
    assert_eq!(latest[&2].payload(), &[2]);
}

#[test]
fn store_accepts_messages() {
    let store = AtomicMessagesStore::new();
    assert_eq!(store.store(ZId::new(1), Message::new(vec![1])).0, Ok(()));
    assert_eq!(store.store(ZId::new(1), Message::new(vec![2])).0, Ok(()));
    let err: Result<(), PoisonedLockError> = Err(PoisonedLockError);
    assert_ne!(store.store(ZId::new(2), Message::new(vec![])).0, err);
}

#[test]
fn context_receives_packets() {
    let context = NetworkContext::new(17u8);
    assert_eq!(*context.serializer(), 17);
    assert_eq!(context.receive(MessagePacket::new(vec![1], ZId::new(3))).0, Ok(()));
    assert_eq!(context.messages().store(ZId::new(3), Message::new(vec![2])).0, Ok(()));
}

#[test]
fn publisher_stamps_packets_with_its_zid() {
    let publisher = MessagePublisher::new(ZId::new(11), "handle");
    assert_eq!(publisher.zid(), ZId::new(11));
    assert_eq!(*publisher.publisher(), "handle");
    let packet = publisher.packet(vec![5, 6]);
    assert_eq!(packet.sender(), ZId::new(11));
    assert_eq!(packet.payload(), &[5, 6]);
}

#[test]
fn put_error_variants() {
    let e: PutError<String> = PutError::Serialization("bad".to_string());
    assert!(matches!(e, PutError::Serialization(ref s) if s == "bad"));
    let e: PutError<String> = PutError::Zenoh(ZenohError::new(-7));
    assert!(matches!(e, PutError::Zenoh(z) if z.code() == -7));
}

#[test]
fn query_gives_back_its_parts() {
    let q = Query::new(
        "demo/**".to_string(),
        "a=1".to_string(),
        vec![1, 2],
        "zenoh/bytes".to_string(),
        Some(vec![3]),
    );
    assert_eq!(q.keyexpr(), "demo/**");
    assert_eq!(q.params(), "a=1");
    assert_eq!(q.payload(), &[1, 2]);
    assert_eq!(q.encoding(), "zenoh/bytes");
    assert_eq!(q.attachment(), Some(&[3u8][..]));
    let q = Query::new(String::new(), String::new(), Vec::new(), String::new(), None);
    assert_eq!(q.attachment(), None);
}
