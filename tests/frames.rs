use draped_lines::copy_queue::{BufferHandle, CopyQueue, PendingCopy};
use draped_lines::layout::{
    buffer_size, capacity_fits, encode_header, encode_words, write_frame, DrapedLineUniform,
    ENTRY_SIZE, HEADER_SIZE, ONE_BITS,
};
use draped_lines::node::{
    draped_lines_node_system, BufferPair, DrapedLinesNode, FrameStep, DRAPED_LINES,
};

fn bits(v: [f32; 4]) -> [u32; 4] {
    [v[0].to_bits(), v[1].to_bits(), v[2].to_bits(), v[3].to_bits()]
}

fn line(p0: [f32; 3], p1: [f32; 3], width: f32, color: [f32; 4], dir: [f32; 3]) -> DrapedLineUniform {
    DrapedLineUniform::new(
        bits([p0[0], p0[1], p0[2], 1.0]),
        bits([p1[0], p1[1], p1[2], 1.0]),
        width.to_bits(),
        bits(color),
        bits([dir[0], dir[1], dir[2], 0.0]),
    )
}

fn marker(x: f32) -> DrapedLineUniform {
    line([x, 0.0, 0.0], [x, 1.0, 0.0], 1.0, [1.0, 1.0, 1.0, 1.0], [0.0, -1.0, 0.0])
}

fn header_count(region: &[u8]) -> u32 {
    u32::from_le_bytes([region[0], region[1], region[2], region[3]])
}

fn read_f32s(bytes: &[u8]) -> Vec<f32> {
    bytes
        .chunks_exact(4)
        .map(|c| f32::from_le_bytes([c[0], c[1], c[2], c[3]]))
        .collect()
}

fn entry(region: &[u8], i: usize) -> &[u8] {
    &region[HEADER_SIZE + i * ENTRY_SIZE..HEADER_SIZE + (i + 1) * ENTRY_SIZE]
}

#[test]
fn layout_sizes() {
    assert_eq!(HEADER_SIZE, 16);
    assert_eq!(ENTRY_SIZE, 80);
    assert_eq!(buffer_size(0), 16);
    assert_eq!(buffer_size(50), 4016);
    assert_eq!(ONE_BITS, 1.0f32.to_bits());
}

#[test]
fn capacity_limit() {
    assert!(capacity_fits(0));
    assert!(capacity_fits(50));
    assert!(capacity_fits(53_687_090));
    assert!(!capacity_fits(53_687_091));
    assert!(!capacity_fits(usize::MAX));
}

#[test]
fn header_bytes_are_little_endian_and_padded() {
    assert_eq!(encode_header(1), vec![1, 0, 0, 0, 0, 0, 0, 0, 0, 0, 0, 0, 0, 0, 0, 0]);
    let h = encode_header(0x0102_0304);
    assert_eq!(&h[0..4], &[4, 3, 2, 1]);
    assert!(h[4..].iter().all(|b| *b == 0));
}

#[test]
fn words_encode_in_order() {
    assert_eq!(encode_words(&vec![0xaabb_ccdd, 7]), vec![0xdd, 0xcc, 0xbb, 0xaa, 7, 0, 0, 0]);
    assert!(encode_words(&vec![]).is_empty());
}

#[test]
fn uniform_slots_and_padding() {
    let u = line([1.0, 2.0, 3.0], [4.0, 5.0, 6.0], 2.5, [0.1, 0.2, 0.3, 0.4], [0.0, 0.0, 1.0]);
    let b = u.to_bytes();
    assert_eq!(b.len(), 80);
    let f = read_f32s(&b);
    assert_eq!(&f[0..4], &[1.0, 2.0, 3.0, 1.0]);
    assert_eq!(&f[4..8], &[4.0, 5.0, 6.0, 1.0]);
    assert_eq!(&f[8..12], &[2.5, 0.0, 0.0, 0.0]);
    assert_eq!(&f[12..16], &[0.1, 0.2, 0.3, 0.4]);
    assert_eq!(&f[16..20], &[0.0, 0.0, 1.0, 0.0]);
    assert_eq!(u.width, [2.5f32.to_bits(), 0, 0, 0]);
}

#[test]
fn scenario_one_line_capacity_two() {
    let red = [1.0, 0.0, 0.0, 1.0];
    let lines = vec![line([0.0, 0.0, 0.0], [1.0, 0.0, 0.0], 2.0, red, [0.0, -1.0, 0.0])];
    let mut region = vec![0u8; 16 + 2 * 80];
    let count = write_frame(&mut region, 2, &lines);
    assert_eq!(count, 1);
    assert_eq!(header_count(&region), 1);
    assert!(region[4..16].iter().all(|b| *b == 0));
    let f = read_f32s(entry(&region, 0));
    assert_eq!(&f[0..4], &[0.0, 0.0, 0.0, 1.0]);
    assert_eq!(&f[4..8], &[1.0, 0.0, 0.0, 1.0]);
    assert_eq!(&f[8..12], &[2.0, 0.0, 0.0, 0.0]);
    assert_eq!(&f[12..16], &red);
    assert_eq!(&f[16..20], &[0.0, -1.0, 0.0, 0.0]);
}

#[test]
fn scenario_three_lines_capacity_one() {
    let lines = vec![marker(1.0), marker(2.0), marker(3.0)];
    let mut region = vec![0u8; 16 + 80];
    let count = write_frame(&mut region, 1, &lines);
    assert_eq!(count, 1);
    assert_eq!(header_count(&region), 1);
    assert_eq!(region.len(), 96);
    assert_eq!(entry(&region, 0), &lines[0].to_bytes()[..]);
}

#[test]
fn header_counts_every_line_within_capacity() {
    for n in 0..=4usize {
        let lines: Vec<DrapedLineUniform> = (0..n).map(|i| marker(i as f32)).collect();
        let mut region = vec![0xeeu8; 16 + 4 * 80];
        let count = write_frame(&mut region, 4, &lines);
        assert_eq!(count, n);
        assert_eq!(header_count(&region), n as u32);
        for i in 0..n {
            assert_eq!(entry(&region, i), &lines[i].to_bytes()[..]);
        }
        for i in n..4 {
            assert!(entry(&region, i).iter().all(|b| *b == 0xee));
        }
    }
}

#[test]
fn overflow_truncates_to_capacity() {
    let lines: Vec<DrapedLineUniform> = (0..7).map(|i| marker(i as f32)).collect();
    let mut region = vec![0u8; 16 + 3 * 80];
    assert_eq!(write_frame(&mut region, 3, &lines), 3);
    assert_eq!(header_count(&region), 3);
    for i in 0..3 {
        assert_eq!(entry(&region, i), &lines[i].to_bytes()[..]);
    }
}

#[test]
fn stale_entries_are_kept() {
    let mut region = vec![0u8; 16 + 3 * 80];
    let first = vec![marker(1.0), marker(2.0), marker(3.0)];
    write_frame(&mut region, 3, &first);
    let second = vec![marker(9.0)];
    assert_eq!(write_frame(&mut region, 3, &second), 1);
    assert_eq!(header_count(&region), 1);
    assert_eq!(entry(&region, 0), &second[0].to_bytes()[..]);
    assert_eq!(entry(&region, 1), &first[1].to_bytes()[..]);
    assert_eq!(entry(&region, 2), &first[2].to_bytes()[..]);
}

#[test]
fn empty_write_clears_count() {
    let mut region = vec![0u8; 16 + 2 * 80];
    write_frame(&mut region, 2, &vec![marker(1.0), marker(2.0)]);
    let before = region.clone();
    assert_eq!(write_frame(&mut region, 2, &vec![]), 0);
    assert_eq!(header_count(&region), 0);
    assert_eq!(&region[16..], &before[16..]);
}

#[test]
fn copy_queue_is_fifo() {
    let mut q = CopyQueue::new();
    let a = PendingCopy {
        source: BufferHandle { id: 1 },
        source_offset: 0,
        destination: BufferHandle { id: 2 },
        destination_offset: 0,
        size: 96,
    };
    let b = PendingCopy { size: 176, ..a };
    q.enqueue(a);
    q.enqueue(b);
    assert_eq!(q.len(), 2);
    assert_eq!(q.drain(), vec![a, b]);
    assert_eq!(q.len(), 0);
    assert!(q.drain().is_empty());
}

fn pair(device: u128, staging: u128) -> BufferPair {
    BufferPair { device: BufferHandle { id: device }, staging: BufferHandle { id: staging } }
}

fn full_copy(p: BufferPair, size: u64) -> PendingCopy {
    PendingCopy {
        source: p.staging,
        source_offset: 0,
        destination: p.device,
        destination_offset: 0,
        size,
    }
}

#[test]
fn node_frames_keep_their_buffers() {
    assert_eq!(DRAPED_LINES, "DrapedLines");
    let mut node = DrapedLinesNode::new(2);
    assert_eq!(node.capacity(), 2);
    assert_eq!(node.buffers(), None);
    assert_eq!(node.begin_frame(0), FrameStep::Allocate { size: 176 });
    let p = pair(10, 11);

    let mut region = vec![0u8; 176];
    assert_eq!(draped_lines_node_system(&mut node, Some(p), &mut region, &vec![]), 0);
    assert_eq!(node.buffers(), Some(p));
    assert_eq!(header_count(&region), 0);
    assert_eq!(node.pending_len(), 1);
    assert_eq!(node.update(), vec![full_copy(p, 176)]);
    assert_eq!(node.pending_len(), 0);

    assert_eq!(node.begin_frame(3), FrameStep::Write { staging: p.staging, size: 176 });
    let lines = vec![marker(1.0), marker(2.0), marker(3.0)];
    assert_eq!(draped_lines_node_system(&mut node, None, &mut region, &lines), 2);
    assert_eq!(header_count(&region), 2);
    assert_eq!(node.update(), vec![full_copy(p, 176)]);
    assert_eq!(node.buffers(), Some(p));

    assert_eq!(node.begin_frame(0), FrameStep::Skip);
    let before = region.clone();
    assert_eq!(draped_lines_node_system(&mut node, None, &mut region, &vec![]), 0);
    assert_eq!(region, before);
    assert_eq!(header_count(&region), 2);
    assert_eq!(node.pending_len(), 0);
    assert_eq!(node.buffers(), Some(p));
}

#[test]
fn skipped_frame_leaves_unmapped_region_alone() {
    let mut node = DrapedLinesNode::new(1);
    let mut region = vec![0u8; 96];
    draped_lines_node_system(&mut node, Some(pair(1, 2)), &mut region, &vec![marker(1.0)]);
    node.update();
    let mut unmapped: Vec<u8> = Vec::new();
    assert_eq!(draped_lines_node_system(&mut node, None, &mut unmapped, &vec![]), 0);
    assert!(unmapped.is_empty());
    assert_eq!(node.pending_len(), 0);
}

#[test]
fn node_scenario_one_line_capacity_two() {
    let mut node = DrapedLinesNode::new(2);
    let p = pair(1, 2);
    let red = [1.0, 0.0, 0.0, 1.0];
    let lines = vec![line([0.0, 0.0, 0.0], [1.0, 0.0, 0.0], 2.0, red, [0.0, -1.0, 0.0])];
    let mut region = vec![0u8; 176];
    assert_eq!(draped_lines_node_system(&mut node, Some(p), &mut region, &lines), 1);
    assert_eq!(header_count(&region), 1);
    let f = read_f32s(entry(&region, 0));
    assert_eq!(&f[0..4], &[0.0, 0.0, 0.0, 1.0]);
    assert_eq!(&f[4..8], &[1.0, 0.0, 0.0, 1.0]);
    assert_eq!(&f[8..12], &[2.0, 0.0, 0.0, 0.0]);
    assert_eq!(&f[12..16], &red);
    assert_eq!(&f[16..20], &[0.0, -1.0, 0.0, 0.0]);
    assert_eq!(node.update(), vec![full_copy(p, 176)]);
}

#[test]
fn node_scenario_three_lines_capacity_one() {
    let mut node = DrapedLinesNode::new(1);
    assert_eq!(node.begin_frame(3), FrameStep::Allocate { size: 96 });
    let p = pair(1, 2);
    let lines = vec![marker(1.0), marker(2.0), marker(3.0)];
    let mut region = vec![0u8; 96];
    assert_eq!(draped_lines_node_system(&mut node, Some(p), &mut region, &lines), 1);
    assert_eq!(header_count(&region), 1);
    assert_eq!(entry(&region, 0), &lines[0].to_bytes()[..]);
    assert_eq!(node.update(), vec![full_copy(p, 96)]);
}

#[test]
fn copies_drain_in_order_of_frames() {
    let mut node = DrapedLinesNode::new(1);
    let mut region = vec![0u8; 96];
    draped_lines_node_system(&mut node, Some(pair(1, 2)), &mut region, &vec![marker(1.0)]);
    draped_lines_node_system(&mut node, None, &mut region, &vec![marker(2.0)]);
    let copies = node.update();
    assert_eq!(copies.len(), 2);
    assert!(copies.iter().all(|c| c.size == 96 && c.source.id == 2 && c.destination.id == 1));
    assert_eq!(header_count(&region), 1);
    assert_eq!(entry(&region, 0), &marker(2.0).to_bytes()[..]);
}
