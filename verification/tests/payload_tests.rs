use shm_ipc::layout::ShmHeader;
use shm_ipc::pattern::{fill_pattern, xor_into};
use shm_ipc::payload::{copy_in, copy_out};

#[test]
fn copy_in_that_straddles_the_end_lands_at_5_6_7_0_1_2() {
    let mut buffer = vec![0u8; 8];
    let data = [11u8, 12, 13, 14, 15, 16];
    copy_in(&mut buffer, 5, &data, 6);
    assert_eq!(buffer, vec![14, 15, 16, 0, 0, 11, 12, 13]);
}

#[test]
fn copy_in_without_wrap_is_one_piece() {
    let mut buffer = vec![9u8; 8];
    let data = [1u8, 2, 3];
    copy_in(&mut buffer, 2, &data, 3);
    assert_eq!(buffer, vec![9, 9, 1, 2, 3, 9, 9, 9]);
}

#[test]
fn copy_in_takes_only_the_first_n_bytes() {
    let mut buffer = vec![0u8; 4];
    let data = [1u8, 2, 3, 4];
    copy_in(&mut buffer, 3, &data, 2);
    assert_eq!(buffer, vec![2, 0, 0, 1]);
    copy_in(&mut buffer, 1, &data, 0);
    assert_eq!(buffer, vec![2, 0, 0, 1]);
}

#[test]
fn copy_in_can_fill_the_whole_buffer() {
    let mut buffer = vec![0u8; 4];
    let data = [1u8, 2, 3, 4];
    copy_in(&mut buffer, 2, &data, 4);
    assert_eq!(buffer, vec![3, 4, 1, 2]);
}

#[test]
fn copy_out_that_straddles_the_end_reads_5_6_7_0_1_2() {
    let buffer = vec![14u8, 15, 16, 0, 0, 11, 12, 13];
    let mut sink = vec![1u8];
    copy_out(&buffer, 5, 6, &mut sink);
    assert_eq!(sink, vec![1, 11, 12, 13, 14, 15, 16]);
}

#[test]
fn copy_out_without_wrap_is_one_piece() {
    let buffer = vec![0u8, 1, 2, 3, 4, 5, 6, 7];
    let mut sink = Vec::new();
    copy_out(&buffer, 2, 3, &mut sink);
    assert_eq!(sink, vec![2, 3, 4]);
    copy_out(&buffer, 7, 0, &mut sink);
    assert_eq!(sink, vec![2, 3, 4]);
}

#[test]
fn a_wrapping_write_reads_back_like_a_straight_one() {
    let data = [21u8, 22, 23, 24, 25, 26];
    let mut wrapping = vec![0u8; 8];
    let mut straight = vec![0u8; 8];
    copy_in(&mut wrapping, 5, &data, 6);
    copy_in(&mut straight, 1, &data, 6);
    let mut from_wrapping = Vec::new();
    let mut from_straight = Vec::new();
    copy_out(&wrapping, 5, 6, &mut from_wrapping);
    copy_out(&straight, 1, 6, &mut from_straight);
    assert_eq!(from_wrapping, data.to_vec());
    assert_eq!(from_straight, data.to_vec());
}

#[test]
fn push_stores_what_space_limit_and_chunk_allow() {
    let mut buffer = vec![0u8; 8];
    let mut header = ShmHeader::new();
    let chunk = [1u8, 2, 3, 4, 5, 6];
    assert_eq!(header.push(&mut buffer, &chunk, 100), 6);
    assert_eq!(header.end_index, 6);
    assert_eq!(header.start_index, 0);
    assert_eq!(header.push(&mut buffer, &chunk, 100), 2);
    assert_eq!(header.end_index, 8);
    assert_eq!(buffer, vec![1, 2, 3, 4, 5, 6, 1, 2]);
    assert_eq!(header.push(&mut buffer, &chunk, 100), 0);
    assert_eq!(header.end_index, 8);
    let mut other = ShmHeader::new();
    let mut area = vec![0u8; 8];
    assert_eq!(other.push(&mut area, &chunk, 4), 4);
    assert_eq!(other.end_index, 4);
    assert_eq!(other.push(&mut area, &chunk, 0), 0);
    assert_eq!(other.push(&mut area, &[], 9), 0);
    assert_eq!(area, vec![1, 2, 3, 4, 0, 0, 0, 0]);
}

#[test]
fn pop_takes_what_is_there_and_the_limit_allows() {
    let mut buffer = vec![0u8; 8];
    let mut header = ShmHeader::new();
    header.push(&mut buffer, &[1, 2, 3, 4, 5], 100);
    let mut sink = Vec::new();
    assert_eq!(header.pop(&buffer, &mut sink, 2), 2);
    assert_eq!(sink, vec![1, 2]);
    assert_eq!(header.start_index, 2);
    assert_eq!(header.end_index, 5);
    assert_eq!(header.pop(&buffer, &mut sink, 100), 3);
    assert_eq!(sink, vec![1, 2, 3, 4, 5]);
    assert_eq!(header.start_index, 5);
    assert_eq!(header.pop(&buffer, &mut sink, 100), 0);
    assert_eq!(sink, vec![1, 2, 3, 4, 5]);
}

#[test]
fn push_from_cursor_5_with_6_bytes_lands_at_5_6_7_0_1_2() {
    let mut buffer = vec![0u8; 8];
    let mut header = ShmHeader { start_index: 5, end_index: 5, transfer_started: 1 };
    let n = header.push(&mut buffer, &[31, 32, 33, 34, 35, 36], 6);
    assert_eq!(n, 6);
    assert_eq!(header.end_index, 11);
    assert_eq!(buffer[5], 31);
    assert_eq!(buffer[6], 32);
    assert_eq!(buffer[7], 33);
    assert_eq!(buffer[0], 34);
    assert_eq!(buffer[1], 35);
    assert_eq!(buffer[2], 36);
    assert_eq!(buffer[3], 0);
    assert_eq!(buffer[4], 0);
    let mut sink = Vec::new();
    assert_eq!(header.pop(&buffer, &mut sink, 6), 6);
    assert_eq!(sink, vec![31, 32, 33, 34, 35, 36]);
    assert_eq!(header.start_index, 11);
    assert_eq!(header.transfer_started, 1);
}

#[test]
fn push_and_pop_work_across_the_wrap_of_the_cursors() {
    let mut buffer = vec![0u8; 8];
    let start = u64::MAX - 2;
    let mut header = ShmHeader { start_index: start, end_index: start, transfer_started: 1 };
    assert!(header.is_consistent(8));
    let mut sink = Vec::new();
    let mut sent = Vec::new();
    for round in 0..10u8 {
        let chunk = [round, round.wrapping_mul(3), 200 - round];
        let n = header.push(&mut buffer, &chunk, 3);
        assert_eq!(n, 3);
        sent.extend_from_slice(&chunk);
        assert!(header.is_consistent(8));
        if round % 2 == 1 {
            assert_eq!(header.pop(&buffer, &mut sink, 6), 6);
        }
    }
    assert_eq!(sink, sent);
    assert_eq!(header.end_index, 27);
    assert_eq!(header.start_index, 27);
}

#[test]
fn the_pattern_counts_1_to_255_and_starts_again() {
    let chunk = fill_pattern(600);
    assert_eq!(chunk.len(), 600);
    assert_eq!(chunk[0], 1);
    assert_eq!(chunk[1], 2);
    assert_eq!(chunk[253], 254);
    assert_eq!(chunk[254], 255);
    assert_eq!(chunk[255], 1);
    assert_eq!(chunk[509], 255);
    assert_eq!(chunk[510], 1);
    for (i, byte) in chunk.iter().enumerate() {
        assert_eq!(*byte as usize, (i % 255) + 1);
    }
    assert!(fill_pattern(0).is_empty());
    assert_eq!(fill_pattern(1), vec![1]);
}

#[test]
fn xor_into_folds_all_bytes() {
    assert_eq!(xor_into(0, &[]), 0);
    assert_eq!(xor_into(0x5a, &[]), 0x5a);
    assert_eq!(xor_into(0, &[0x0f]), 0x0f);
    assert_eq!(xor_into(0, &[0x0f, 0xf0]), 0xff);
    assert_eq!(xor_into(0xff, &[0x0f, 0xf0]), 0x00);
    assert_eq!(xor_into(0, &[1, 2, 3]), 0);
    assert_eq!(xor_into(0, &[1, 2, 4]), 7);
}

#[test]
fn xor_of_the_pieces_is_xor_of_the_whole() {
    let stream = fill_pattern(1000);
    let whole = xor_into(0, &stream);
    let mut running = 0u8;
    for piece in stream.chunks(7) {
        running = xor_into(running, piece);
    }
    assert_eq!(running, whole);
    let expected = stream.iter().fold(0u8, |acc, b| acc ^ b);
    assert_eq!(whole, expected);
}
