use oracle::addr::Ipv4;
use oracle::ping::{
    checksum, echo_request_v4, finish_checksum, parse_ping_v4, write_checksum, EchoRequest,
    PingClient,
};
use oracle::time::{Span, Timestamp};

fn folded_sum(bytes: &[u8]) -> u32 {
    let mut sum = 0u32;
    checksum(bytes, &mut sum);
    finish_checksum(&mut sum);
    sum
}

#[test]
fn checksum_adds_big_endian_words() {
    let mut sum = 0u32;
    checksum(&[0x08, 0x00, 0x00, 0x00, 0x00, 0x01, 0x00, 0x02], &mut sum);
    assert_eq!(sum, 0x0803);
}

#[test]
fn checksum_counts_a_single_last_byte_as_a_high_byte() {
    let mut sum = 0u32;
    checksum(&[0x01, 0x02, 0x03], &mut sum);
    assert_eq!(sum, 0x0102 + 0x0300);
}

#[test]
fn checksum_of_nothing_keeps_the_sum() {
    let mut sum = 77u32;
    checksum(&[], &mut sum);
    assert_eq!(sum, 77);
}

#[test]
fn checksum_continues_a_running_sum_and_wraps() {
    let mut sum = 0xffff_ffffu32;
    checksum(&[0x00, 0x02], &mut sum);
    assert_eq!(sum, 1);
}

#[test]
fn finish_checksum_folds_carries_and_complements() {
    let mut sum = 0x1_ffffu32;
    let check = finish_checksum(&mut sum);
    assert_eq!(sum, 1);
    assert_eq!(check, 0xfffe);
}

#[test]
fn finish_checksum_of_zero_is_all_ones() {
    let mut sum = 0u32;
    let check = finish_checksum(&mut sum);
    assert_eq!(sum, 0);
    assert_eq!(check, 0xffff);
}

#[test]
fn finish_checksum_leaves_a_small_sum() {
    let mut sum = 0x0803u32;
    let check = finish_checksum(&mut sum);
    assert_eq!(sum, 0x0803);
    assert_eq!(check, 0xf7fc);
}

#[test]
fn write_checksum_fills_bytes_two_and_three() {
    let mut packet = [0x08u8, 0x00, 0x00, 0x00, 0x00, 0x01, 0x00, 0x02];
    let mut sum = 0u32;
    write_checksum(&mut packet, &mut sum);
    assert_eq!(packet, [0x08, 0x00, 0xf7, 0xfc, 0x00, 0x01, 0x00, 0x02]);
    assert_eq!(sum, 0x0803);
}

#[test]
fn written_checksum_verifies_for_every_length() {
    for len in 4..=1500usize {
        let mut packet: Vec<u8> = (0..len).map(|i| (i * 31 + len * 7 + 5) as u8).collect();
        packet[2] = 0;
        packet[3] = 0;
        let mut sum = 0u32;
        write_checksum(&mut packet, &mut sum);
        assert_eq!(folded_sum(&packet), 0xffff, "length {}", len);
    }
}

#[test]
fn written_checksum_verifies_for_extreme_bytes() {
    for byte in [0x00u8, 0xff] {
        let mut packet = vec![byte; 1500];
        packet[2] = 0;
        packet[3] = 0;
        let mut sum = 0u32;
        write_checksum(&mut packet, &mut sum);
        assert_eq!(folded_sum(&packet), 0xffff);
    }
}

#[test]
fn checksum_over_a_used_field_need_not_verify() {
    let mut packet = [0x00u8, 0x00, 0x00, 0x01];
    let mut sum = 0u32;
    write_checksum(&mut packet, &mut sum);
    assert_eq!(packet, [0x00, 0x00, 0xff, 0xfe]);
    assert_eq!(folded_sum(&packet), 0xfffe);
}

#[test]
fn echo_request_has_the_wire_format() {
    assert_eq!(echo_request_v4(1, 2), vec![0x08, 0x00, 0xf7, 0xfc, 0x00, 0x01, 0x00, 0x02]);
}

#[test]
fn echo_request_stores_identifier_and_sequence_big_endian() {
    let packet = echo_request_v4(0x1234, 0x5678);
    assert_eq!(packet.len(), 8);
    assert_eq!(&packet[0..2], &[8, 0]);
    assert_eq!(&packet[4..8], &[0x12, 0x34, 0x56, 0x78]);
    assert_eq!(folded_sum(&packet), 0xffff);
}

fn reply_with_header(header_words: u8, id: u16, seq: u16) -> Vec<u8> {
    let mut packet = vec![0u8; header_words as usize * 4];
    packet[0] = 0x40 | header_words;
    packet.extend_from_slice(&[0, 0, 0xaa, 0xbb]);
    packet.extend_from_slice(&id.to_be_bytes());
    packet.extend_from_slice(&seq.to_be_bytes());
    packet
}

#[test]
fn parse_accepts_a_reply_behind_a_plain_header() {
    let packet = reply_with_header(5, 0x1234, 0x5678);
    assert_eq!(packet.len(), 28);
    assert_eq!(parse_ping_v4(&packet), Some((0x1234, 0x5678)));
}

#[test]
fn parse_accepts_a_reply_behind_a_header_with_options() {
    let packet = reply_with_header(15, 0xfffe, 0x0001);
    assert_eq!(packet.len(), 68);
    assert_eq!(parse_ping_v4(&packet), Some((0xfffe, 0x0001)));
}

#[test]
fn parse_ignores_the_checksum() {
    let mut packet = reply_with_header(5, 7, 9);
    packet[22] = 0;
    packet[23] = 0;
    assert_eq!(parse_ping_v4(&packet), Some((7, 9)));
}

#[test]
fn parse_accepts_a_bare_reply_whose_first_nibble_is_zero() {
    assert_eq!(parse_ping_v4(&[0, 0, 1, 2, 0, 3, 0, 4]), Some((3, 4)));
}

#[test]
fn parse_rejects_an_empty_datagram() {
    assert_eq!(parse_ping_v4(&[]), None);
}

#[test]
fn parse_rejects_an_echo_request() {
    let mut packet = reply_with_header(5, 1, 2);
    packet[20] = 8;
    assert_eq!(parse_ping_v4(&packet), None);
}

#[test]
fn parse_rejects_a_code_other_than_zero() {
    let mut packet = reply_with_header(5, 1, 2);
    packet[21] = 1;
    assert_eq!(parse_ping_v4(&packet), None);
}

#[test]
fn parse_rejects_a_reply_with_payload() {
    let mut packet = reply_with_header(5, 1, 2);
    packet.push(0);
    assert_eq!(parse_ping_v4(&packet), None);
}

#[test]
fn parse_rejects_a_truncated_reply() {
    let packet = reply_with_header(5, 1, 2);
    for len in 0..packet.len() {
        assert_eq!(parse_ping_v4(&packet[..len]), None, "length {}", len);
    }
}

#[test]
fn parse_rejects_a_header_that_runs_past_the_end() {
    let mut packet = reply_with_header(5, 1, 2);
    packet[0] = 0x4f;
    assert_eq!(parse_ping_v4(&packet), None);
}

#[test]
fn parse_reads_back_what_the_request_builder_wrote() {
    let mut packet = vec![0u8; 20];
    packet[0] = 0x45;
    let mut icmp = echo_request_v4(0xbeef, 0x0102);
    icmp[0] = 0;
    packet.extend_from_slice(&icmp);
    assert_eq!(parse_ping_v4(&packet), Some((0xbeef, 0x0102)));
}

const A: Ipv4 = Ipv4 { a: 192, b: 0, c: 2, d: 1 };
const B: Ipv4 = Ipv4 { a: 192, b: 0, c: 2, d: 2 };

#[test]
fn request_hands_out_consecutive_sequence_numbers() {
    let mut client: PingClient<&str> = PingClient::new(7, 100);
    assert_eq!(client.identifier(), 7);
    assert_eq!(client.next_sequence(), 100);
    let first = client.request(A, Timestamp::new(1, 0), "first");
    let second = client.request(B, Timestamp::new(2, 0), "second");
    assert_eq!(first, EchoRequest { ip: A, id: 7, seq: 100 });
    assert_eq!(second, EchoRequest { ip: B, id: 7, seq: 101 });
    assert_eq!(client.next_sequence(), 102);
    assert_eq!(client.waiting(), 2);
}

#[test]
fn sequence_number_wraps_after_the_last() {
    let mut client: PingClient<u8> = PingClient::new(1, 0xffff);
    let request = client.request(A, Timestamp::new(0, 0), 0);
    assert_eq!(request.seq, 0xffff);
    assert_eq!(client.next_sequence(), 0);
}

#[test]
fn matching_reply_completes_the_request_with_the_round_trip_time() {
    let mut client: PingClient<&str> = PingClient::new(7, 100);
    client.request(A, Timestamp::new(10, 500), "waiter");
    let done = client.reply(A, 7, 100, Timestamp::new(10, 2_000_500));
    assert_eq!(done, Some(("waiter", Span { nanos: 2_000_000 })));
    assert_eq!(client.waiting(), 0);
    assert_eq!(client.reply(A, 7, 100, Timestamp::new(11, 0)), None);
}

#[test]
fn reply_that_seems_to_precede_its_request_took_no_time() {
    let mut client: PingClient<u8> = PingClient::new(7, 1);
    client.request(A, Timestamp::new(10, 0), 9);
    assert_eq!(client.reply(A, 7, 1, Timestamp::new(9, 0)), Some((9, Span { nanos: 0 })));
}

#[test]
fn reply_with_a_foreign_identifier_changes_nothing() {
    let mut client: PingClient<u8> = PingClient::new(7, 1);
    client.request(A, Timestamp::new(10, 0), 9);
    assert_eq!(client.reply(A, 8, 1, Timestamp::new(11, 0)), None);
    assert_eq!(client.waiting(), 1);
    assert_eq!(client.reply(A, 7, 1, Timestamp::new(12, 0)), Some((9, Span::from_secs(2))));
}

#[test]
fn reply_from_another_address_is_not_delivered_and_the_request_goes_on_waiting() {
    let mut client: PingClient<u8> = PingClient::new(7, 1);
    client.request(A, Timestamp::new(10, 0), 9);
    assert_eq!(client.reply(B, 7, 1, Timestamp::new(11, 0)), None);
    assert_eq!(client.waiting(), 1);
    assert_eq!(client.reply(B, 7, 1, Timestamp::new(11, 5)), None);
    assert_eq!(client.waiting(), 1);
    assert_eq!(client.reply(A, 7, 1, Timestamp::new(12, 0)), Some((9, Span::from_secs(2))));
    assert_eq!(client.waiting(), 0);
}

#[test]
fn reply_for_an_unknown_sequence_number_is_dropped() {
    let mut client: PingClient<u8> = PingClient::new(7, 1);
    client.request(A, Timestamp::new(10, 0), 9);
    assert_eq!(client.reply(A, 7, 2, Timestamp::new(11, 0)), None);
    assert_eq!(client.waiting(), 1);
}

#[test]
fn replies_are_matched_by_sequence_number_in_any_order() {
    let mut client: PingClient<&str> = PingClient::new(3, 10);
    client.request(A, Timestamp::new(1, 0), "a");
    client.request(B, Timestamp::new(2, 0), "b");
    assert_eq!(client.reply(B, 3, 11, Timestamp::new(3, 0)), Some(("b", Span::from_secs(1))));
    assert_eq!(client.reply(A, 3, 10, Timestamp::new(3, 0)), Some(("a", Span::from_secs(2))));
}

#[test]
fn random_client_starts_with_nothing_pending() {
    let mut client: PingClient<u8> = PingClient::random();
    assert_eq!(client.waiting(), 0);
    let id = client.identifier();
    let seq = client.next_sequence();
    let request = client.request(A, Timestamp::new(0, 0), 1);
    assert_eq!(request, EchoRequest { ip: A, id, seq });
    assert_eq!(client.reply(A, id, seq, Timestamp::new(1, 0)), Some((1, Span::from_secs(1))));
}

#[test]
fn checksum_over_a_field_of_all_ones_verifies_if_the_rest_adds_up() {
    let mut packet = [0x12u8, 0x34, 0xff, 0xff, 0x00, 0x01];
    let mut sum = 0u32;
    write_checksum(&mut packet, &mut sum);
    assert_eq!(folded_sum(&packet), 0xffff);
    let mut packet = [0x00u8, 0x00, 0xff, 0xff, 0x00, 0x00];
    let mut sum = 0u32;
    write_checksum(&mut packet, &mut sum);
    assert_eq!(packet, [0x00, 0x00, 0x00, 0x00, 0x00, 0x00]);
    assert_eq!(folded_sum(&packet), 0);
}
