use parity_codec::{Compact, Decode, Encode};
use stargate::message::{get_unix_ts, unix_ts_from, Message, PayloadIds, PayloadMsg};

fn payload(id: u64, data: Vec<u8>) -> Message {
    Message::Payload(PayloadMsg { id, data })
}

#[test]
fn an_acknowledgement_is_a_zero_and_eight_bytes() {
    let bytes = Message::new_ack(0x0102_0304_0506_0708).into_bytes();
    assert_eq!(bytes, vec![0, 8, 7, 6, 5, 4, 3, 2, 1]);
}

#[test]
fn a_payload_is_a_one_the_identifier_and_the_data() {
    let bytes = payload(258, vec![0xaa, 0xbb, 0xcc]).into_bytes();
    assert_eq!(bytes, vec![1, 2, 1, 0, 0, 0, 0, 0, 0, 3 << 2, 0xaa, 0xbb, 0xcc]);
}

#[test]
fn the_bytes_are_those_of_the_codec() {
    let id: u64 = 0xdead_beef_0000_0001;
    for len in [0usize, 1, 63, 64, 65, 16383, 16384, 70_000] {
        let data: Vec<u8> = (0..len).map(|i| (i % 251) as u8).collect();
        let expected = ([1u8], id, data.clone()).encode();
        assert_eq!(payload(id, data).into_bytes(), expected);
    }
    assert_eq!(Message::new_ack(id).into_bytes(), ([0u8], id).encode());
}

#[test]
fn the_length_takes_the_compact_form() {
    let lengths = [(63usize, 1usize), (64, 2), (16383, 2), (16384, 4)];
    for (len, width) in lengths {
        let bytes = payload(0, vec![7u8; len]).into_bytes();
        assert_eq!(bytes.len(), 9 + width + len);
        let mut input = &bytes[9..];
        assert_eq!(Compact::<u32>::decode(&mut input), Some(Compact(len as u32)));
    }
}

#[test]
fn what_was_encoded_is_decoded() {
    for len in [0usize, 1, 63, 64, 300, 16384, 70_000] {
        let data: Vec<u8> = (0..len).map(|i| (i % 7) as u8).collect();
        let message = payload(len as u64, data);
        assert_eq!(Message::from_bytes(&message.clone().into_bytes()), Ok(message));
    }
    let ack = Message::new_ack(u64::MAX);
    assert_eq!(Message::from_bytes(&ack.clone().into_bytes()), Ok(ack));
}

#[test]
fn what_follows_a_message_is_not_looked_at() {
    let message = payload(5, vec![1, 2, 3]);
    let mut bytes = message.clone().into_bytes();
    bytes.extend_from_slice(&[9, 9, 9]);
    assert_eq!(Message::from_bytes(&bytes), Ok(message));
}

#[test]
fn malformed_bytes_are_refused() {
    assert_eq!(Message::from_bytes(&[]), Err(()));
    assert_eq!(Message::from_bytes(&[2, 0, 0, 0, 0, 0, 0, 0, 0]), Err(()));
    assert_eq!(Message::from_bytes(&[0, 1, 2, 3]), Err(()));
    assert_eq!(Message::from_bytes(&[1, 0, 0, 0, 0, 0, 0, 0, 0]), Err(()));
    // the data is shorter than its length says
    assert_eq!(Message::from_bytes(&[1, 0, 0, 0, 0, 0, 0, 0, 0, 3 << 2, 1, 2]), Err(()));
    // a length in the two byte form, cut after the first byte
    assert_eq!(Message::from_bytes(&[1, 0, 0, 0, 0, 0, 0, 0, 0, 1]), Err(()));
    // a length beyond 32 bits
    assert_eq!(
        Message::from_bytes(&[1, 0, 0, 0, 0, 0, 0, 0, 0, 7, 0, 0, 0, 0, 0, 0, 0, 0, 0]),
        Err(())
    );
}

#[test]
fn a_length_need_not_take_its_shortest_form() {
    // the length 3 in the four byte form
    let bytes = [1, 9, 0, 0, 0, 0, 0, 0, 0, (3 << 2) | 2, 0, 0, 0, 4, 5, 6];
    assert_eq!(Message::from_bytes(&bytes), Ok(payload(9, vec![4, 5, 6])));
    // and in the form of four plain bytes
    let bytes = [1, 9, 0, 0, 0, 0, 0, 0, 0, 3, 3, 0, 0, 0, 4, 5, 6];
    assert_eq!(Message::from_bytes(&bytes), Ok(payload(9, vec![4, 5, 6])));
}

#[test]
fn a_new_payload_carries_its_identifier() {
    let before = get_unix_ts();
    let (message, id) = Message::new_payload(vec![1, 2, 3]);
    let after = get_unix_ts();
    assert_eq!(message, payload(id, vec![1, 2, 3]));
    assert!(before <= id && id <= after);
    // some time after the year 2020
    assert!(id > 1_577_836_800_000);
    let (message, id) = Message::new_payload_with_id(vec![4], 77);
    assert_eq!((message, id), (payload(77, vec![4]), 77));
    assert_eq!(Message::new_ack(77), Message::ACK(77));
}

#[test]
fn a_counter_gives_each_identifier_once() {
    let mut ids = PayloadIds::starting_at(u64::MAX - 2);
    assert_eq!(ids.new_payload(vec![1]), Some((payload(u64::MAX - 2, vec![1]), u64::MAX - 2)));
    assert_eq!(ids.new_payload(vec![2]), Some((payload(u64::MAX - 1, vec![2]), u64::MAX - 1)));
    assert_eq!(ids.new_payload(vec![3]), None);
    assert_eq!(ids.new_payload(vec![4]), None);
}

#[test]
fn a_timestamp_is_the_low_sixty_four_bits_of_the_milliseconds() {
    assert_eq!(unix_ts_from(None), 0);
    assert_eq!(unix_ts_from(Some(0)), 0);
    assert_eq!(unix_ts_from(Some(1_700_000_000_123)), 1_700_000_000_123);
    assert_eq!(unix_ts_from(Some(u64::MAX as u128)), u64::MAX);
    assert_eq!(unix_ts_from(Some(u64::MAX as u128 + 1)), 0);
    assert_eq!(unix_ts_from(Some((7u128 << 64) + 42)), 42);
    assert_eq!(unix_ts_from(Some(u128::MAX)), u64::MAX);
}
