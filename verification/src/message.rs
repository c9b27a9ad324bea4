//! The envelope in which the two parties of a channel send each other
//! requests: a payload with an identifier, or the acknowledgement of one,
//! and the bytes either takes on the wire.

use vstd::prelude::*;
use vstd::bytes::{
    lemma_auto_spec_u64_to_from_le_bytes, spec_u64_from_le_bytes, spec_u64_to_le_bytes,
};
use vstd::slice::slice_subrange;
use crate::bytes::{bytes_eq, copy_bytes};
use std::time::{Duration, SystemTime};

verus! {

/// A message between the two parties of a channel.
#[derive(Debug)]
pub enum Message {
    /// The payload with this identifier has arrived.
    ACK(u64),
    /// A request, under the identifier by which it will be acknowledged.
    Payload(PayloadMsg),
}

/// A request and the identifier it travels under.
#[derive(Debug)]
pub struct PayloadMsg {
    pub id: u64,
    pub data: Vec<u8>,
}

/// What a [`Message`] denotes.
pub enum MessageModel {
    ACK(u64),
    Payload { id: u64, data: Seq<u8> },
}

impl View for PayloadMsg {
    type V = MessageModel;

    open spec fn view(&self) -> MessageModel {
        MessageModel::Payload { id: self.id, data: self.data@ }
    }
}

impl View for Message {
    type V = MessageModel;

    open spec fn view(&self) -> MessageModel {
        match self {
            Message::ACK(id) => MessageModel::ACK(*id),
            Message::Payload(payload) => payload@,
        }
    }
}

impl Clone for PayloadMsg {
    fn clone(&self) -> (copy: Self)
        ensures
            copy@ == self@,
    {
        PayloadMsg { id: self.id, data: copy_bytes(&self.data) }
    }
}

impl PartialEq for PayloadMsg {
    fn eq(&self, other: &Self) -> (same: bool) {
        self.id == other.id && bytes_eq(&self.data, &other.data)
    }
}

impl Eq for PayloadMsg {}

impl vstd::std_specs::cmp::PartialEqSpecImpl for PayloadMsg {
    open spec fn obeys_eq_spec() -> bool {
        true
    }

    open spec fn eq_spec(&self, other: &Self) -> bool {
        self@ == other@
    }
}

impl Clone for Message {
    fn clone(&self) -> (copy: Self)
        ensures
            copy@ == self@,
    {
        match self {
            Message::ACK(id) => Message::ACK(*id),
            Message::Payload(payload) => Message::Payload(payload.clone()),
        }
    }
}

impl PartialEq for Message {
    fn eq(&self, other: &Self) -> (same: bool) {
        match (self, other) {
            (Message::ACK(a), Message::ACK(b)) => *a == *b,
            (Message::Payload(a), Message::Payload(b)) => a == b,
            _ => false,
        }
    }
}

impl Eq for Message {}

impl vstd::std_specs::cmp::PartialEqSpecImpl for Message {
    open spec fn obeys_eq_spec() -> bool {
        true
    }

    open spec fn eq_spec(&self, other: &Self) -> bool {
        self@ == other@
    }
}

/// The `n` lowest bytes of `x`, least significant first.
pub open spec fn le_bytes(x: nat, n: nat) -> Seq<u8>
    decreases n,
{
    if n == 0 {
        Seq::empty()
    } else {
        seq![(x % 256) as u8] + le_bytes(x / 256, (n - 1) as nat)
    }
}

/// The number whose bytes, least significant first, are the first `n` of `s`.
pub open spec fn le_value(s: Seq<u8>, n: nat) -> nat
    decreases n,
{
    if n == 0 {
        0
    } else {
        s[0] as nat + 256 * le_value(s.skip(1), (n - 1) as nat)
    }
}

/// The compact form of a length: one byte below 2^6, two below 2^14, four
/// below 2^30, each holding four times the length and, in its two lowest
/// bits, which of the forms it is; from 2^30 on the byte 3 and the four bytes
/// of the length.
pub open spec fn compact_len_bytes(n: nat) -> Seq<u8> {
    if n < 64 {
        le_bytes(4 * n, 1)
    } else if n < 16384 {
        le_bytes(4 * n + 1, 2)
    } else if n < 0x4000_0000 {
        le_bytes(4 * n + 2, 4)
    } else {
        seq![3u8] + le_bytes(n, 4)
    }
}

/// The length that `s` begins with in compact form, and the number of bytes
/// that form takes, if `s` begins with one.
pub open spec fn parse_compact_len(s: Seq<u8>) -> Option<(nat, nat)> {
    if s.len() == 0 {
        None
    } else if s[0] % 4 == 0 {
        Some(((s[0] / 4) as nat, 1))
    } else if s[0] % 4 == 1 {
        if s.len() < 2 {
            None
        } else {
            Some((le_value(s, 2) / 4, 2))
        }
    } else if s[0] % 4 == 2 {
        if s.len() < 4 {
            None
        } else {
            Some((le_value(s, 4) / 4, 4))
        }
    } else {
        if s[0] / 4 != 0 || s.len() < 5 {
            None
        } else {
            Some((le_value(s.skip(1), 4), 5))
        }
    }
}

/// A byte string on the wire: its length in compact form, then its bytes.
pub open spec fn byte_string_bytes(data: Seq<u8>) -> Seq<u8> {
    compact_len_bytes(data.len()) + data
}

/// The byte string that `s` begins with, and the number of bytes it takes
/// on the wire, if `s` begins with one.
pub open spec fn parse_byte_string(s: Seq<u8>) -> Option<(Seq<u8>, nat)> {
    match parse_compact_len(s) {
        Some((n, used)) => if s.len() - used >= n {
            Some((s.subrange(used as int, (used + n) as int), used + n))
        } else {
            None
        },
        None => None,
    }
}

/// A message on the wire: a byte that tells the kind, 0 for an
/// acknowledgement and 1 for a payload; the eight bytes of the identifier,
/// least significant first; and, for a payload, its data as a byte string.
pub open spec fn message_bytes(m: MessageModel) -> Seq<u8> {
    match m {
        MessageModel::ACK(id) => seq![0u8] + spec_u64_to_le_bytes(id),
        MessageModel::Payload { id, data } => seq![1u8] + spec_u64_to_le_bytes(id)
            + byte_string_bytes(data),
    }
}

/// The message that `s` begins with, if it begins with one. What follows
/// the message in `s` is not looked at.
pub open spec fn parse_message(s: Seq<u8>) -> Option<MessageModel> {
    if s.len() < 9 {
        None
    } else if s[0] == 0 {
        Some(MessageModel::ACK(spec_u64_from_le_bytes(s.subrange(1, 9))))
    } else if s[0] == 1 {
        match parse_byte_string(s.skip(9)) {
            Some((data, _)) => Some(
                MessageModel::Payload { id: spec_u64_from_le_bytes(s.subrange(1, 9)), data },
            ),
            None => None,
        }
    } else {
        None
    }
}

/// `std::time::SystemTime`: a point in time as the system clock tells it.
/// Nothing inside it is looked at.
#[verifier::external_type_specification]
#[verifier::external_body]
pub struct ExSystemTime(std::time::SystemTime);

/// `std::time::SystemTime::now`: the time of the system clock. Nothing is
/// claimed of it.
pub assume_specification[ std::time::SystemTime::now ]() -> (now: SystemTime)
;

/// `std::time::Duration::as_millis`: a span of time in whole milliseconds.
/// Nothing is claimed of it.
pub assume_specification[ std::time::Duration::as_millis ](span: &Duration) -> (millis: u128)
;

/// `std::time::SystemTime::duration_since`, from `UNIX_EPOCH`: the time from
/// the epoch to `now`, or nothing where `now` lies before the epoch.
#[verifier::external_body]
fn since_unix_epoch(now: &SystemTime) -> (elapsed: Option<Duration>) {
    now.duration_since(std::time::UNIX_EPOCH).ok()
}

/// `parity_codec::Encode::encode` of a `u64`: its eight bytes, least
/// significant first.
#[verifier::external_body]
fn encode_u64(value: u64) -> (out: Vec<u8>)
    ensures
        out@ == spec_u64_to_le_bytes(value),
{
    parity_codec::Encode::encode(&value)
}

/// `parity_codec::Encode::encode` of a `Vec<u8>`: its length in compact form,
/// then its bytes. The call panics on more than `u32::MAX` bytes.
#[verifier::external_body]
fn encode_byte_string(data: &Vec<u8>) -> (out: Vec<u8>)
    requires
        data@.len() <= u32::MAX,
    ensures
        out@ == byte_string_bytes(data@),
{
    parity_codec::Encode::encode(data)
}

/// `parity_codec::Decode::decode` of a `u64` from a slice: the number whose
/// bytes, least significant first, are the first eight of `input`, and what
/// follows them; nothing where `input` is shorter.
#[verifier::external_body]
fn decode_u64<'a>(input: &'a [u8]) -> (decoded: Option<(u64, &'a [u8])>)
    ensures
        decoded is Some <==> input@.len() >= 8,
        decoded matches Some((value, rest)) ==> value == spec_u64_from_le_bytes(
            input@.subrange(0, 8),
        ) && rest@ == input@.skip(8),
{
    let mut rest = input;
    match <u64 as parity_codec::Decode>::decode(&mut rest) {
        Some(value) => Some((value, rest)),
        None => None,
    }
}

/// `parity_codec::Decode::decode` of a `Vec<u8>` from a slice: the byte
/// string that `input` begins with, and what follows it; nothing where the
/// length is not in compact form or `input` holds fewer bytes than it says.
#[verifier::external_body]
fn decode_byte_string<'a>(input: &'a [u8]) -> (decoded: Option<(Vec<u8>, &'a [u8])>)
    ensures
        match parse_byte_string(input@) {
            Some((data, used)) => decoded matches Some((bytes, rest)) && bytes@ == data
                && rest@ == input@.skip(used as int),
            None => decoded is None,
        },
{
    let mut rest = input;
    match <Vec<u8> as parity_codec::Decode>::decode(&mut rest) {
        Some(data) => Some((data, rest)),
        None => None,
    }
}

/// The timestamp for a clock that stands `elapsed` milliseconds after the
/// epoch: the lowest 64 bits of that number; 0 where the clock stands before
/// the epoch, and there is no such number.
pub open spec fn unix_ts_of(elapsed: Option<u128>) -> u64 {
    match elapsed {
        Some(millis) => (millis % 0x1_0000_0000_0000_0000) as u64,
        None => 0,
    }
}

/// The timestamp for a clock that stands `elapsed` milliseconds after the
/// epoch, or before the epoch where `elapsed` is nothing.
pub fn unix_ts_from(elapsed: Option<u128>) -> (ts: u64)
    ensures
        ts == unix_ts_of(elapsed),
{
    match elapsed {
        Some(millis) => {
            assert(millis as u64 == millis % 0x1_0000_0000_0000_0000) by (bit_vector);
            #[verifier::truncate]
            (millis as u64)
        },
        None => 0,
    }
}

/// The time of the system clock in milliseconds since the epoch, cut to 64
/// bits; 0 where the clock stands before the epoch.
pub fn get_unix_ts() -> u64 {
    let start = SystemTime::now();
    let elapsed = match since_unix_epoch(&start) {
        Some(since_the_epoch) => Some(since_the_epoch.as_millis()),
        None => None,
    };
    unix_ts_from(elapsed)
}

/// A source of identifiers for the payloads of one sender: each one is
/// given out once, in rising order.
#[derive(Debug)]
pub struct PayloadIds {
    next: u64,
}

impl PayloadIds {
    /// The identifier that is given out next.
    pub closed spec fn next_id(&self) -> u64 {
        self.next
    }

    /// A source that starts at `first`.
    pub fn starting_at(first: u64) -> (ids: Self)
        ensures
            ids.next_id() == first,
    {
        PayloadIds { next: first }
    }

    /// The payload `data` under the next identifier, and that identifier;
    /// nothing where the identifiers are used up, which leaves the source as
    /// it is.
    pub fn new_payload(&mut self, data: Vec<u8>) -> (made: Option<(Message, u64)>)
        ensures
            match made {
                Some((message, id)) => {
                    &&& old(self).next_id() < u64::MAX
                    &&& id == old(self).next_id()
                    &&& final(self).next_id() == id + 1
                    &&& message@ == (MessageModel::Payload { id, data: data@ })
                },
                None => old(self).next_id() == u64::MAX && final(self).next_id() == u64::MAX,
            },
    {
        if self.next == u64::MAX {
            return None;
        }
        let message_id = self.next;
        self.next = self.next + 1;
        Some(Message::new_payload_with_id(data, message_id))
    }
}

impl Message {
    /// The acknowledgement of the payload with the identifier `message_id`.
    pub fn new_ack(message_id: u64) -> (message: Message)
        ensures
            message@ == MessageModel::ACK(message_id),
    {
        Message::ACK(message_id)
    }

    /// The payload `data` under an identifier taken from the system clock,
    /// and that identifier. Two payloads made within one millisecond share it.
    pub fn new_payload(data: Vec<u8>) -> (made: (Message, u64))
        ensures
            made.0@ == (MessageModel::Payload { id: made.1, data: data@ }),
    {
        let message_id = get_unix_ts();
        Self::new_payload_with_id(data, message_id)
    }

    /// The payload `data` under the identifier `message_id`, and that
    /// identifier.
    pub fn new_payload_with_id(data: Vec<u8>, message_id: u64) -> (made: (Message, u64))
        ensures
            made.0@ == (MessageModel::Payload { id: message_id, data: data@ }),
            made.1 == message_id,
    {
        (Message::Payload(PayloadMsg { id: message_id, data }), message_id)
    }

    /// The bytes of the message on the wire.
    pub fn into_bytes(self) -> (bytes: Vec<u8>)
        requires
            self@ matches MessageModel::Payload { data, .. } ==> data.len() <= u32::MAX,
        ensures
            bytes@ == message_bytes(self@),
    {
        match self {
            Message::ACK(id) => {
                let mut bytes: Vec<u8> = vec![0u8];
                let mut id_bytes = encode_u64(id);
                bytes.append(&mut id_bytes);
                bytes
            },
            Message::Payload(payload) => {
                let mut bytes: Vec<u8> = vec![1u8];
                let mut id_bytes = encode_u64(payload.id);
                bytes.append(&mut id_bytes);
                let mut data_bytes = encode_byte_string(&payload.data);
                bytes.append(&mut data_bytes);
                bytes
            },
        }
    }

    /// The message that `bytes` begins with; fails where it begins with none.
    pub fn from_bytes(bytes: &[u8]) -> (message: Result<Message, ()>)
        ensures
            match parse_message(bytes@) {
                Some(m) => message is Ok && message->Ok_0@ == m,
                None => message is Err,
            },
    {
        if bytes.len() == 0 {
            return Err(());
        }
        let kind = bytes[0];
        let body = slice_subrange(bytes, 1, bytes.len());
        if kind > 1 {
            return Err(());
        }
        match decode_u64(body) {
            None => Err(()),
            Some((id, rest)) => {
                assert(body@.subrange(0, 8) =~= bytes@.subrange(1, 9));
                assert(rest@ =~= bytes@.skip(9));
                if kind == 0 {
                    Ok(Message::ACK(id))
                } else {
                    match decode_byte_string(rest) {
                        Some((data, _)) => Ok(Message::Payload(PayloadMsg { id, data })),
                        None => Err(()),
                    }
                }
            },
        }
    }
}


/// The number of values that `n` bytes tell apart.
pub open spec fn radix(n: nat) -> nat
    decreases n,
{
    if n == 0 {
        1
    } else {
        256 * radix((n - 1) as nat)
    }
}

/// The `n` lowest bytes of a number below `radix(n)`, whatever follows
/// them, are read back as that number.
pub proof fn lemma_le_round_trip(x: nat, n: nat, tail: Seq<u8>)
    requires
        x < radix(n),
    ensures
        le_bytes(x, n).len() == n,
        le_value(le_bytes(x, n) + tail, n) == x,
        n > 0 ==> (le_bytes(x, n) + tail)[0] == (x % 256) as u8,
    decreases n,
{
    if n > 0 {
        let rest = le_bytes(x / 256, (n - 1) as nat);
        let s = le_bytes(x, n) + tail;
        lemma_le_round_trip(x / 256, (n - 1) as nat, tail);
        assert(s.skip(1) =~= rest + tail);
        assert(s[0] == (x % 256) as u8);
    }
}

/// A length in compact form, whatever follows it, is read back as that
/// length, and as taking the bytes that the form has.
pub proof fn lemma_compact_len_round_trip(n: nat, tail: Seq<u8>)
    requires
        n <= u32::MAX,
    ensures
        parse_compact_len(compact_len_bytes(n) + tail) == Some((n, compact_len_bytes(n).len())),
{
    let s = compact_len_bytes(n) + tail;
    reveal_with_fuel(radix, 5);
    if n < 64 {
        lemma_le_round_trip(4 * n, 1, tail);
        assert((4 * n) % 256 % 4 == 0);
    } else if n < 16384 {
        lemma_le_round_trip(4 * n + 1, 2, tail);
        assert((4 * n + 1) % 256 % 4 == 1);
    } else if n < 0x4000_0000 {
        lemma_le_round_trip(4 * n + 2, 4, tail);
        assert((4 * n + 2) % 256 % 4 == 2);
    } else {
        lemma_le_round_trip(n, 4, tail);
        assert(s[0] == 3u8);
        assert(s.skip(1) =~= le_bytes(n, 4) + tail);
    }
}

/// A byte string on the wire, whatever follows it, is read back as that
/// byte string.
pub proof fn lemma_byte_string_round_trip(data: Seq<u8>, tail: Seq<u8>)
    requires
        data.len() <= u32::MAX,
    ensures
        parse_byte_string(byte_string_bytes(data) + tail) == Some(
            (data, byte_string_bytes(data).len()),
        ),
{
    let prefix = compact_len_bytes(data.len());
    let s = byte_string_bytes(data) + tail;
    assert(s =~= prefix + (data + tail));
    lemma_compact_len_round_trip(data.len(), data + tail);
    assert(s.subrange(prefix.len() as int, (prefix.len() + data.len()) as int) =~= data);
}

/// A message on the wire, whatever follows it, is read back as that message.
pub proof fn lemma_message_round_trip(m: MessageModel, tail: Seq<u8>)
    requires
        m matches MessageModel::Payload { data, .. } ==> data.len() <= u32::MAX,
    ensures
        parse_message(message_bytes(m) + tail) == Some(m),
{
    lemma_auto_spec_u64_to_from_le_bytes();
    let s = message_bytes(m) + tail;
    match m {
        MessageModel::ACK(id) => {
            assert(s.subrange(1, 9) =~= spec_u64_to_le_bytes(id));
        },
        MessageModel::Payload { id, data } => {
            assert(s.subrange(1, 9) =~= spec_u64_to_le_bytes(id));
            assert(s.skip(9) =~= byte_string_bytes(data) + tail);
            lemma_byte_string_round_trip(data, tail);
        },
    }
}

} // verus!
