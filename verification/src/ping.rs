//! ICMPv4 echo: the Internet checksum, the echo request that is sent, the echo
//! reply that is accepted, and the table that matches replies with the requests
//! that wait for them.

use crate::addr::Ipv4;
use crate::time::{Span, Timestamp};
use byteorder::{BigEndian, ByteOrder};
use std::collections::HashMap;
use vstd::prelude::*;
use vstd::std_specs::hash::*;

verus! {

broadcast use vstd::std_specs::hash::group_hash_axioms;

/// ICMP type of an echo request.
pub const ECHO_REQUEST_TYPE: u8 = 8;

/// ICMP code of an echo request.
pub const ECHO_REQUEST_CODE: u8 = 0;

/// ICMP type of an echo reply.
pub const ECHO_REPLY_TYPE: u8 = 0;

/// ICMP code of an echo reply.
pub const ECHO_REPLY_CODE: u8 = 0;

/// What the byte at index `i` of a packet contributes per unit to the sum of the
/// packet's big-endian 16-bit words: it is the high byte of its word when `i` is
/// even and the low byte when `i` is odd.
pub open spec fn byte_weight(i: int) -> nat {
    if i % 2 == 0 {
        256
    } else {
        1
    }
}

/// The sum of the big-endian 16-bit words of `bytes`. A last byte without a
/// partner counts as the high byte of a word whose low byte is zero.
pub open spec fn word_sum(bytes: Seq<u8>) -> nat
    decreases bytes.len(),
{
    if bytes.len() == 0 {
        0
    } else {
        word_sum(bytes.drop_last()) + bytes.last() as nat * byte_weight(bytes.len() - 1)
    }
}

/// `sum` with every carry out of the low 16 bits added back in, until none is left.
pub open spec fn fold16(sum: nat) -> nat
    decreases sum,
{
    if sum < 0x1_0000 {
        sum
    } else {
        fold16(sum % 0x1_0000 + sum / 0x1_0000)
    }
}

/// The Internet checksum that belongs to a word sum: the one's complement of the
/// folded sum.
pub open spec fn complement16(sum: nat) -> nat {
    (0xffff - fold16(sum)) as nat
}

/// The running sum after the words of `bytes` were added to `start`, as a 32-bit
/// counter that wraps.
pub open spec fn running_sum(start: u32, bytes: Seq<u8>) -> nat {
    (start as nat + word_sum(bytes)) % 0x1_0000_0000
}

/// `bytes` with the checksum of `running_sum(start, bytes)` stored big-endian in
/// bytes 2 and 3.
pub open spec fn stamped(start: u32, bytes: Seq<u8>) -> Seq<u8> {
    let c = complement16(running_sum(start, bytes));
    bytes.update(2, (c / 256) as u8).update(3, (c % 256) as u8)
}

/// Folding keeps a sum within 16 bits, keeps its residue modulo 0xffff, and gives
/// zero only for zero.
pub proof fn lemma_fold16(sum: nat)
    ensures
        fold16(sum) <= 0xffff,
        fold16(sum) % 0xffff == sum % 0xffff,
        sum > 0 ==> fold16(sum) > 0,
    decreases sum,
{
    if sum >= 0x1_0000 {
        let next = sum % 0x1_0000 + sum / 0x1_0000;
        lemma_fold16(next);
        assert(next == sum - 0xffff * (sum / 0x1_0000));
    }
}

/// Every byte adds at most 255 * 256 to the word sum.
pub proof fn lemma_word_sum_bound(bytes: Seq<u8>)
    ensures
        word_sum(bytes) <= 65280 * bytes.len(),
    decreases bytes.len(),
{
    if bytes.len() > 0 {
        lemma_word_sum_bound(bytes.drop_last());
    }
}

/// Replacing one byte changes the word sum by the difference of the two bytes,
/// weighted by the byte's place in its word.
pub proof fn lemma_word_sum_update(bytes: Seq<u8>, i: int, v: u8)
    requires
        0 <= i < bytes.len(),
    ensures
        word_sum(bytes.update(i, v)) + bytes[i] as nat * byte_weight(i) == word_sum(bytes)
            + v as nat * byte_weight(i),
    decreases bytes.len(),
{
    let changed = bytes.update(i, v);
    if i == bytes.len() - 1 {
        assert(changed.drop_last() =~= bytes.drop_last());
    } else {
        lemma_word_sum_update(bytes.drop_last(), i, v);
        assert(changed.drop_last() =~= bytes.drop_last().update(i, v));
    }
}

/// Whether the checksum field of `bytes` is clear. The checksum is computed over
/// the whole packet, its own field included, so the field must not disturb the
/// sum: it holds zero, or it holds 0xffff, the other zero of one's-complement
/// arithmetic, in a packet whose words add up to more than that.
pub open spec fn checksum_field_clear(bytes: Seq<u8>) -> bool {
    ||| bytes[2] == 0 && bytes[3] == 0
    ||| bytes[2] == 0xff && bytes[3] == 0xff && word_sum(bytes) > 0xffff
}

/// A packet of 4 to 1500 bytes verifies once the checksum is written, starting
/// from a sum of zero, exactly if its checksum field was clear: the folded sum of
/// its words, checksum included, is then 0xffff, and otherwise it is not.
pub proof fn lemma_checksum_round_trip(bytes: Seq<u8>)
    requires
        4 <= bytes.len() <= 1500,
    ensures
        fold16(word_sum(stamped(0, bytes))) == 0xffff <==> checksum_field_clear(bytes),
{
    let s = word_sum(bytes);
    lemma_word_sum_bound(bytes);
    assert(running_sum(0, bytes) == s);
    lemma_fold16(s);
    let c = complement16(s);
    let hi = (c / 256) as u8;
    let lo = (c % 256) as u8;
    let first = bytes.update(2, hi);
    lemma_word_sum_update(bytes, 2, hi);
    lemma_word_sum_update(first, 3, lo);
    let field = bytes[2] as nat * 256 + bytes[3] as nat;
    let total = word_sum(stamped(0, bytes));
    assert(total + field == s + c);
    // The field is part of the sum.
    let cleared = bytes.update(2, 0);
    lemma_word_sum_update(bytes, 2, 0);
    lemma_word_sum_update(cleared, 3, 0);
    assert(s >= field);
    lemma_fold16(total);
    // Folding keeps the residue modulo 0xffff, and the sum less its folding has
    // none, so the total has the residue of what the field leaves of 0xffff.
    assert((s - fold16(s)) % 0xffff == 0);
    assert(total == (s - fold16(s)) + (0xffff - field));
    if field == 0 {
        assert(total % 0xffff == 0 && total > 0);
    } else if field == 0xffff {
        assert(total == s - fold16(s));
        if s > 0xffff {
            assert(total % 0xffff == 0 && total > 0);
        } else {
            assert(total == 0);
        }
    } else {
        assert(0 < 0xffff - field < 0xffff);
        assert(total % 0xffff == 0xffff - field);
        assert(fold16(total) % 0xffff != 0);
    }
}

/// Adds the big-endian 16-bit words of `buffer` to `sum`, wrapping at 32 bits.
pub fn checksum(buffer: &[u8], sum: &mut u32)
    ensures
        *final(sum) == running_sum(*old(sum), buffer@),
{
    let n = buffer.len();
    let mut i: usize = 0;
    while i < n
        invariant
            n == buffer@.len(),
            i <= n,
            i % 2 == 0 || i == n,
            *sum == running_sum(*old(sum), buffer@.take(i as int)),
        decreases n - i,
    {
        let ghost before = buffer@.take(i as int);
        let high: u16 = buffer[i] as u16;
        let mut part: u16 = high * 256;
        if i + 1 < n {
            part = part + buffer[i + 1] as u16;
            proof {
                let mid = buffer@.take(i + 1);
                let after = buffer@.take(i + 2);
                assert(mid.drop_last() =~= before);
                assert(after.drop_last() =~= mid);
                assert(mid.last() == buffer@[i as int]);
                assert(after.last() == buffer@[i + 1]);
                assert(byte_weight(mid.len() - 1) == 256);
                assert(byte_weight(after.len() - 1) == 1);
                assert(word_sum(mid) == word_sum(before) + high * 256);
                assert(word_sum(after) == word_sum(before) + part);
            }
            i = i + 2;
        } else {
            proof {
                let after = buffer@.take(i + 1);
                assert(after.drop_last() =~= before);
                assert(after.last() == buffer@[i as int]);
                assert(byte_weight(after.len() - 1) == 256);
                assert(word_sum(after) == word_sum(before) + part);
            }
            i = i + 1;
        }
        *sum = sum.wrapping_add(part as u32);
    }
    assert(buffer@.take(n as int) =~= buffer@);
}

/// Folds the carries of `sum` into its low 16 bits and returns the one's
/// complement of the result.
pub fn finish_checksum(sum: &mut u32) -> (check: u16)
    ensures
        *final(sum) == fold16(*old(sum) as nat),
        check == complement16(*old(sum) as nat),
{
    while (*sum >> 16) > 0
        invariant
            fold16(*sum as nat) == fold16(*old(sum) as nat),
        decreases *sum,
    {
        let s: u32 = *sum;
        assert(s >> 16 == s / 0x1_0000 && s & 0xffff == s % 0x1_0000) by (bit_vector);
        *sum = (s & 0xffff) + (s >> 16);
    }
    let s: u32 = *sum;
    assert(s >> 16 == s / 0x1_0000) by (bit_vector);
    assert((!s) as u16 == 0xffff - s) by (bit_vector)
        requires
            s < 0x1_0000,
    ;
    !s as u16
}

/// Computes the checksum of `buffer` on top of `sum` and stores it big-endian in
/// bytes 2 and 3.
pub fn write_checksum(buffer: &mut [u8], sum: &mut u32)
    requires
        old(buffer)@.len() >= 4,
    ensures
        final(buffer)@ == stamped(*old(sum), old(buffer)@),
        *final(sum) == fold16(running_sum(*old(sum), old(buffer)@)),
{
    checksum(buffer, sum);
    let check = finish_checksum(sum);
    assert(check >> 8 == check / 256 && check & 0xff == check % 256) by (bit_vector);
    buffer[2] = (check >> 8) as u8;
    buffer[3] = (check & 0xff) as u8;
}

/// The 16-bit number whose big-endian bytes are `high`, `low`.
pub open spec fn be16(high: u8, low: u8) -> u16 {
    (high as nat * 256 + low as nat) as u16
}

/// Reads a big-endian `u16` at `at` with `byteorder::BigEndian::read_u16`, which
/// takes the first two bytes of the slice it is given as the high and the low
/// byte of the result.
#[verifier::external_body]
fn read_u16_be(buf: &[u8], at: usize) -> (n: u16)
    requires
        at + 2 <= buf@.len(),
    ensures
        n == be16(buf@[at as int], buf@[at + 1]),
{
    BigEndian::read_u16(&buf[at..])
}

/// Writes `n` big-endian at `at` with `byteorder::BigEndian::write_u16`, which
/// stores the high byte and then the low byte in the first two bytes of the slice
/// it is given and touches nothing else.
#[verifier::external_body]
fn write_u16_be(buf: &mut Vec<u8>, at: usize, n: u16)
    requires
        at + 2 <= old(buf)@.len(),
    ensures
        final(buf)@ == old(buf)@.update(at as int, (n / 256) as u8).update(
            at + 1,
            (n % 256) as u8,
        ),
{
    BigEndian::write_u16(&mut buf[at..], n)
}

/// A 16-bit number from `rand::random`, which draws it from the thread's random
/// number generator: nothing is known of the value.
#[verifier::external_body]
fn random_u16() -> u16 {
    rand::random()
}

/// The echo request for `id` and `seq` before its checksum is filled in.
pub open spec fn echo_request_body(id: u16, seq: u16) -> Seq<u8> {
    seq![
        ECHO_REQUEST_TYPE,
        ECHO_REQUEST_CODE,
        0,
        0,
        (id / 256) as u8,
        (id % 256) as u8,
        (seq / 256) as u8,
        (seq % 256) as u8,
    ]
}

/// The ICMPv4 echo request for `id` and `seq`: type 8, code 0, checksum,
/// identifier, sequence number, no payload.
pub open spec fn echo_request(id: u16, seq: u16) -> Seq<u8> {
    stamped(0, echo_request_body(id, seq))
}

/// Every echo request has the wire format, carries its identifier and sequence
/// number big-endian, and verifies: the folded sum of its words is 0xffff.
pub proof fn lemma_echo_request_verifies(id: u16, seq: u16)
    ensures
        echo_request(id, seq).len() == 8,
        echo_request(id, seq)[0] == ECHO_REQUEST_TYPE,
        echo_request(id, seq)[1] == ECHO_REQUEST_CODE,
        be16(echo_request(id, seq)[4], echo_request(id, seq)[5]) == id,
        be16(echo_request(id, seq)[6], echo_request(id, seq)[7]) == seq,
        fold16(word_sum(echo_request(id, seq))) == 0xffff,
{
    lemma_checksum_round_trip(echo_request_body(id, seq));
}

/// Builds the echo request that carries `id` and `seq`.
pub fn echo_request_v4(id: u16, seq: u16) -> (packet: Vec<u8>)
    ensures
        packet@ == echo_request(id, seq),
{
    let mut packet: Vec<u8> = Vec::new();
    packet.push(ECHO_REQUEST_TYPE);
    packet.push(ECHO_REQUEST_CODE);
    packet.push(0);
    packet.push(0);
    packet.push(0);
    packet.push(0);
    packet.push(0);
    packet.push(0);
    write_u16_be(&mut packet, 4, id);
    write_u16_be(&mut packet, 6, seq);
    assert(packet@ =~= echo_request_body(id, seq));
    let mut sum: u32 = 0;
    write_checksum(packet.as_mut_slice(), &mut sum);
    packet
}

/// The length of the IPv4 header that the first byte of a datagram announces: its
/// low four bits, in 32-bit words.
pub open spec fn ipv4_header_len(first: u8) -> int {
    (first % 16) * 4
}

/// Identifier and sequence number of the echo reply in `packet`, a datagram as a
/// raw socket delivers it. The ICMP message starts behind the IPv4 header, has
/// type 0 and code 0 and ends with its eight bytes; its checksum is not looked at.
pub open spec fn echo_reply(packet: Seq<u8>) -> Option<(u16, u16)> {
    if packet.len() == 0 {
        None
    } else {
        let at = ipv4_header_len(packet[0]);
        if packet.len() == at + 8 && packet[at] == ECHO_REPLY_TYPE && packet[at + 1]
            == ECHO_REPLY_CODE {
            Some((be16(packet[at + 4], packet[at + 5]), be16(packet[at + 6], packet[at + 7])))
        } else {
            None
        }
    }
}

/// Parses a received datagram as an echo reply and returns its identifier and
/// sequence number; anything else gives `None`.
pub fn parse_ping_v4(packet: &[u8]) -> (reply: Option<(u16, u16)>)
    ensures
        reply == echo_reply(packet@),
{
    if packet.len() == 0 {
        return None;
    }
    let first: u8 = packet[0];
    assert(first & 0xf == first % 16) by (bit_vector);
    let at: usize = ((first & 0xf) * 4) as usize;
    if packet.len() < at + 2 {
        return None;
    }
    if packet[at] != ECHO_REPLY_TYPE {
        return None;
    }
    if packet[at + 1] != ECHO_REPLY_CODE {
        return None;
    }
    if packet.len() < at + 8 {
        return None;
    }
    let id = read_u16_be(packet, at + 4);
    let seq = read_u16_be(packet, at + 6);
    if packet.len() != at + 8 {
        return None;
    }
    Some((id, seq))
}

/// A request that waits for its reply.
pub struct Pending<W> {
    /// The address that was pinged.
    pub ip: Ipv4,
    /// When the request was handed over for sending.
    pub sent: Timestamp,
    /// Whatever the caller needs to wake the one that waits.
    pub waiter: W,
}

/// An echo request to put on the wire.
#[derive(Clone, Copy, Debug, PartialEq, Eq, Structural)]
pub struct EchoRequest {
    pub ip: Ipv4,
    pub id: u16,
    pub seq: u16,
}

/// The state of the echo client: its identifier, the sequence number of the next
/// request, and the requests that wait for a reply, by sequence number.
pub struct PingClient<W> {
    id: u16,
    seq: u16,
    pending: HashMap<u16, Pending<W>>,
}

impl<W> PingClient<W> {
    /// The identifier that every request of this client carries.
    pub closed spec fn id(&self) -> u16 {
        self.id
    }

    /// The sequence number that the next request will carry.
    pub closed spec fn seq(&self) -> u16 {
        self.seq
    }

    /// The requests that wait for a reply, by sequence number.
    pub closed spec fn pending(&self) -> Map<u16, Pending<W>> {
        self.pending@
    }

    /// A client with the given identifier and first sequence number and nothing
    /// pending.
    pub fn new(id: u16, seq: u16) -> (client: Self)
        ensures
            client.id() == id,
            client.seq() == seq,
            client.pending() == Map::<u16, Pending<W>>::empty(),
    {
        PingClient { id, seq, pending: HashMap::new() }
    }

    /// A client with a random identifier and a random first sequence number and
    /// nothing pending.
    pub fn random() -> (client: Self)
        ensures
            client.pending() == Map::<u16, Pending<W>>::empty(),
    {
        let seq = random_u16();
        let id = random_u16();
        PingClient::new(id, seq)
    }

    /// The identifier that every request of this client carries.
    pub fn identifier(&self) -> (id: u16)
        ensures
            id == self.id(),
    {
        self.id
    }

    /// The sequence number that the next request will carry.
    pub fn next_sequence(&self) -> (seq: u16)
        ensures
            seq == self.seq(),
    {
        self.seq
    }

    /// How many requests wait for a reply.
    pub fn waiting(&self) -> (n: usize)
        ensures
            n == self.pending().len(),
    {
        self.pending.len()
    }

    /// Registers a request for `ip` made at `now` on behalf of `waiter` under the
    /// next sequence number, which then advances by one and wraps after 65535. A
    /// request that still waited under that number is forgotten. Returns what to
    /// send.
    pub fn request(&mut self, ip: Ipv4, now: Timestamp, waiter: W) -> (out: EchoRequest)
        ensures
            out == (EchoRequest { ip, id: old(self).id(), seq: old(self).seq() }),
            final(self).id() == old(self).id(),
            final(self).seq() == (old(self).seq() + 1) % 0x1_0000,
            final(self).pending() == old(self).pending().insert(
                old(self).seq(),
                Pending { ip, sent: now, waiter },
            ),
    {
        let seq = self.seq;
        self.pending.insert(seq, Pending { ip, sent: now, waiter });
        self.seq = seq.wrapping_add(1);
        EchoRequest { ip, id: self.id, seq }
    }

    /// Whether the reply `(from, reply_id, seq)` completes a waiting request: it
    /// carries this client's identifier, a request waits under `seq`, and that
    /// request went to `from`.
    pub open spec fn completes(&self, from: Ipv4, reply_id: u16, seq: u16) -> bool {
        &&& reply_id == self.id()
        &&& self.pending().contains_key(seq)
        &&& self.pending()[seq].ip == from
    }

    /// Takes in an echo reply that arrived at `time` from `from`. A reply that
    /// completes a waiting request takes that request out of the table and returns
    /// its waiter with the time the round trip took. Any other reply, be it of a
    /// foreign identifier, of a sequence number under which nothing waits, or from
    /// an address other than the one the request went to, changes nothing: the
    /// request goes on waiting for its reply.
    pub fn reply(&mut self, from: Ipv4, reply_id: u16, seq: u16, time: Timestamp) -> (done: Option<
        (W, Span),
    >)
        ensures
            final(self).id() == old(self).id(),
            final(self).seq() == old(self).seq(),
            final(self).pending() == if old(self).completes(from, reply_id, seq) {
                old(self).pending().remove(seq)
            } else {
                old(self).pending()
            },
            done == if old(self).completes(from, reply_id, seq) {
                Some(
                    (
                        old(self).pending()[seq].waiter,
                        time.elapsed_since(old(self).pending()[seq].sent),
                    ),
                )
            } else {
                None
            },
    {
        if self.id != reply_id {
            return None;
        }
        let matches = match self.pending.get(&seq) {
            Some(request) => request.ip == from,
            None => false,
        };
        if !matches {
            return None;
        }
        match self.pending.remove(&seq) {
            Some(request) => {
                let took = time.saturating_since(request.sent);
                Some((request.waiter, took))
            },
            None => None,
        }
    }
}

} // verus!
