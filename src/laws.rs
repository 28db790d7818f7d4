//! Properties of whole frames, stated over the layout and the node's steps.
use crate::layout::{
    entry_start, frame_image, header_bytes, region_size, valid_capacity, written_count,
    word_bytes, DrapedLineUniform, COLOR_OFFSET, ENTRY_SIZE, HEADER_SIZE, PLANE_DIR_OFFSET,
    POINT0_OFFSET, POINT1_OFFSET, SLOT_SIZE, WIDTH_OFFSET,
};
use crate::node::{frame_step, BufferPair, FrameStep};
use vstd::prelude::*;

verus! {

/// The count a consumer reads from the first four bytes of the buffer.
pub open spec fn header_count(region: Seq<u8>) -> nat {
    (region[0] + 256 * region[1] + 65536 * region[2] + 16777216 * region[3]) as nat
}

/// The bytes of entry `i` of a buffer.
pub open spec fn entry_bytes(region: Seq<u8>, i: nat) -> Seq<u8> {
    region.subrange(entry_start(i) as int, entry_start(i) + ENTRY_SIZE)
}

/// The bytes of the slot at `offset` in an entry.
pub open spec fn slot_bytes(entry: Seq<u8>, offset: nat) -> Seq<u8> {
    entry.subrange(offset as int, offset + SLOT_SIZE)
}

proof fn lemma_slot(u: DrapedLineUniform, offset: nat, field: Seq<u32>)
    requires
        offset % 16 == 0,
        offset + 16 <= 80,
        field.len() == 4,
        forall|t: int| 0 <= t < 4 ==> u.words()[offset / 4 + t] == field[t],
    ensures
        slot_bytes(u.bytes(), offset) == word_bytes(field),
{
    let s = slot_bytes(u.bytes(), offset);
    assert forall|t: int| 0 <= t < 16 implies s[t] == word_bytes(field)[t] by {
        assert((offset + t) / 4 == offset / 4 + t / 4);
        assert((offset + t) % 4 == t % 4);
    }
    assert(s =~= word_bytes(field));
}

/// Every field of an entry stands in its own 16-byte slot at its fixed
/// offset, and the slots fill the entry exactly.
pub proof fn lemma_field_offsets(u: DrapedLineUniform)
    ensures
        u.bytes().len() == ENTRY_SIZE,
        ENTRY_SIZE == 5 * SLOT_SIZE,
        HEADER_SIZE == SLOT_SIZE,
        slot_bytes(u.bytes(), POINT0_OFFSET as nat) == word_bytes(u.point0@),
        slot_bytes(u.bytes(), POINT1_OFFSET as nat) == word_bytes(u.point1@),
        slot_bytes(u.bytes(), WIDTH_OFFSET as nat) == word_bytes(u.width@),
        slot_bytes(u.bytes(), COLOR_OFFSET as nat) == word_bytes(u.color@),
        slot_bytes(u.bytes(), PLANE_DIR_OFFSET as nat) == word_bytes(u.plane_dir@),
{
    let w = u.words();
    assert(w.len() == 20);
    lemma_slot(u, 0, u.point0@);
    lemma_slot(u, 16, u.point1@);
    lemma_slot(u, 32, u.width@);
    lemma_slot(u, 48, u.color@);
    lemma_slot(u, 64, u.plane_dir@);
}

/// Reading back the header written for `count` gives `count`.
pub proof fn lemma_header_round_trip(count: nat)
    requires
        count <= u32::MAX,
    ensures
        header_count(header_bytes(count)) == count,
{
    let h = header_bytes(count);
    assert(h[0] == count % 256);
    assert(h[1] == count / 256 % 256);
    assert(h[2] == count / 65536 % 256);
    assert(h[3] == count / 16777216 % 256);
}

proof fn lemma_frame_header(prior: Seq<u8>, capacity: nat, count: nat, lines: Seq<DrapedLineUniform>)
    requires
        prior.len() == region_size(capacity),
        count <= u32::MAX,
    ensures
        frame_image(prior, count, lines).subrange(0, HEADER_SIZE as int) == header_bytes(count),
        header_count(frame_image(prior, count, lines)) == count,
{
    let img = frame_image(prior, count, lines);
    assert(img.subrange(0, HEADER_SIZE as int) =~= header_bytes(count));
    lemma_header_round_trip(count);
    assert(img[0] == header_bytes(count)[0]);
    assert(img[1] == header_bytes(count)[1]);
    assert(img[2] == header_bytes(count)[2]);
    assert(img[3] == header_bytes(count)[3]);
}

proof fn lemma_frame_entry(prior: Seq<u8>, capacity: nat, count: nat, lines: Seq<DrapedLineUniform>, i: nat)
    requires
        prior.len() == region_size(capacity),
        count <= capacity,
        count <= lines.len(),
        i < count,
    ensures
        entry_bytes(frame_image(prior, count, lines), i) == lines[i as int].bytes(),
{
    let img = frame_image(prior, count, lines);
    assert(i * 80 + 80 <= capacity * 80) by (nonlinear_arith)
        requires
            i < capacity,
    ;
    assert(i * 80 + 80 <= count * 80) by (nonlinear_arith)
        requires
            i < count,
    ;
    let e = entry_bytes(img, i);
    assert forall|t: int| 0 <= t < ENTRY_SIZE implies e[t] == lines[i as int].bytes()[t] by {
        let k = entry_start(i) + t;
        assert((k - 16) / 80 == i);
        assert((k - 16) % 80 == t);
    }
    assert(e =~= lines[i as int].bytes());
}

/// A frame with no more lines than the capacity writes every line: the
/// header counts them all, and entry `i` holds line `i`.
pub proof fn lemma_frame_within_capacity(prior: Seq<u8>, capacity: nat, lines: Seq<DrapedLineUniform>)
    requires
        valid_capacity(capacity),
        prior.len() == region_size(capacity),
        lines.len() <= capacity,
    ensures
        written_count(lines.len(), capacity) == lines.len(),
        header_count(frame_image(prior, lines.len(), lines)) == lines.len(),
        forall|i: nat|
            i < lines.len() ==> #[trigger] entry_bytes(frame_image(prior, lines.len(), lines), i)
                == lines[i as int].bytes(),
{
    lemma_frame_header(prior, capacity, lines.len(), lines);
    assert forall|i: nat| i < lines.len() implies #[trigger] entry_bytes(
        frame_image(prior, lines.len(), lines),
        i,
    ) == lines[i as int].bytes() by {
        lemma_frame_entry(prior, capacity, lines.len(), lines, i);
    }
}

/// A frame with more lines than the capacity is truncated: the header counts
/// `capacity`, every one of the `capacity` entries holds the line of its
/// index, and the lines after them are dropped.
pub proof fn lemma_frame_over_capacity(prior: Seq<u8>, capacity: nat, lines: Seq<DrapedLineUniform>)
    requires
        valid_capacity(capacity),
        prior.len() == region_size(capacity),
        lines.len() > capacity,
    ensures
        written_count(lines.len(), capacity) == capacity,
        header_count(frame_image(prior, capacity, lines)) == capacity,
        frame_image(prior, capacity, lines).len() == entry_start(capacity),
        forall|i: nat|
            i < capacity ==> #[trigger] entry_bytes(frame_image(prior, capacity, lines), i)
                == lines[i as int].bytes(),
{
    lemma_frame_header(prior, capacity, capacity, lines);
    assert forall|i: nat| i < capacity implies #[trigger] entry_bytes(
        frame_image(prior, capacity, lines),
        i,
    ) == lines[i as int].bytes() by {
        lemma_frame_entry(prior, capacity, capacity, lines, i);
    }
}

/// Once the buffers exist a frame never allocates again: an empty frame is
/// skipped and any other maps the same staging buffer.
pub proof fn lemma_no_reallocation(pair: BufferPair, capacity: nat, line_count: nat)
    ensures
        !(frame_step(Some(pair), capacity, line_count) is Allocate),
        line_count == 0 ==> frame_step(Some(pair), capacity, line_count) == FrameStep::Skip,
        line_count > 0 ==> frame_step(Some(pair), capacity, line_count) == (FrameStep::Write {
            staging: pair.staging,
            size: region_size(capacity) as u64,
        }),
{
}

/// A frame with no lines that is written (the first frame, which allocates)
/// leaves a header count of zero and every entry as it was. Once the buffers
/// exist an empty frame is skipped instead, and the header keeps its count.
pub proof fn lemma_empty_frame(prior: Seq<u8>, capacity: nat, lines: Seq<DrapedLineUniform>)
    requires
        valid_capacity(capacity),
        prior.len() == region_size(capacity),
        lines.len() == 0,
    ensures
        written_count(0, capacity) == 0,
        header_count(frame_image(prior, 0, lines)) == 0,
        frame_image(prior, 0, lines).subrange(HEADER_SIZE as int, prior.len() as int)
            == prior.subrange(HEADER_SIZE as int, prior.len() as int),
{
    lemma_frame_header(prior, capacity, 0, lines);
    assert(frame_image(prior, 0, lines).subrange(HEADER_SIZE as int, prior.len() as int)
        =~= prior.subrange(HEADER_SIZE as int, prior.len() as int));
}

} // verus!
