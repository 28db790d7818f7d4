//! The bit-exact layout of the streamed buffer: a 16-byte count header
//! followed by `capacity` entries of 80 bytes, every field in a 16-byte slot.
//! Floating-point values are held as their IEEE-754 bit patterns.
use vstd::prelude::*;

verus! {

/// Bytes in one 16-byte aligned slot.
pub const SLOT_SIZE: usize = 16;

/// Bytes of the count header that starts the buffer.
pub const HEADER_SIZE: usize = 16;

/// Bytes of one packed line entry: five slots.
pub const ENTRY_SIZE: usize = 80;

/// Offsets of the fields inside one packed entry.
pub const POINT0_OFFSET: usize = 0;
pub const POINT1_OFFSET: usize = 16;
pub const WIDTH_OFFSET: usize = 32;
pub const COLOR_OFFSET: usize = 48;
pub const PLANE_DIR_OFFSET: usize = 64;

/// Bit pattern of the single-precision value `1.0`, the `w` of a position.
pub const ONE_BITS: u32 = 0x3f80_0000;

/// Size in bytes of a buffer that holds `capacity` entries.
pub open spec fn region_size(capacity: nat) -> nat {
    (HEADER_SIZE + capacity * ENTRY_SIZE) as nat
}

/// Byte offset at which entry `i` starts.
pub open spec fn entry_start(i: nat) -> nat {
    (HEADER_SIZE + i * ENTRY_SIZE) as nat
}

/// A capacity whose buffer size, and so whose count, fits in 32 bits.
pub open spec fn valid_capacity(capacity: nat) -> bool {
    region_size(capacity) <= u32::MAX
}

/// The four little-endian bytes of a 32-bit word.
pub open spec fn le_bytes(w: u32) -> Seq<u8> {
    seq![
        (w % 256) as u8,
        (w / 256 % 256) as u8,
        (w / 65536 % 256) as u8,
        (w / 16777216 % 256) as u8,
    ]
}

/// The little-endian bytes of a sequence of words, one word after the other.
pub open spec fn word_bytes(ws: Seq<u32>) -> Seq<u8> {
    Seq::new(4 * ws.len(), |k: int| le_bytes(ws[k / 4])[k % 4])
}

/// The words of the count header: the count, then three words of padding.
pub open spec fn header_words(count: nat) -> Seq<u32> {
    seq![count as u32, 0u32, 0u32, 0u32]
}

/// The sixteen bytes of the count header.
pub open spec fn header_bytes(count: nat) -> Seq<u8> {
    word_bytes(header_words(count))
}

/// The number of entries a frame with `n` lines writes: at most `capacity`.
pub open spec fn written_count(n: nat, capacity: nat) -> nat {
    if n <= capacity { n } else { capacity }
}

/// Whether `capacity` is accepted as the fixed capacity of a buffer.
pub fn capacity_fits(capacity: usize) -> (r: bool)
    ensures
        r == valid_capacity(capacity as nat),
{
    capacity as u64 <= (0xffff_ffffu64 - 16) / 80
}

/// The size in bytes of a buffer holding `capacity` entries.
pub fn buffer_size(capacity: usize) -> (r: u64)
    requires
        valid_capacity(capacity as nat),
    ensures
        r == region_size(capacity as nat),
{
    16 + 80 * capacity as u64
}

/// One draped line as the shader reads it: five 16-byte slots, each four
/// words holding single-precision bit patterns.
#[derive(Clone, Copy, Debug)]
pub struct DrapedLineUniform {
    /// World-space position of the first endpoint, `w` = 1.
    pub point0: [u32; 4],
    /// World-space position of the second endpoint, `w` = 1.
    pub point1: [u32; 4],
    /// The width in the first word, then padding.
    pub width: [u32; 4],
    /// The color as red, green, blue, alpha.
    pub color: [u32; 4],
    /// World-space plane direction, `w` = 0.
    pub plane_dir: [u32; 4],
}

impl DrapedLineUniform {
    /// The twenty words of the entry in layout order.
    pub open spec fn words(&self) -> Seq<u32> {
        self.point0@ + self.point1@ + self.width@ + self.color@ + self.plane_dir@
    }

    /// The eighty bytes of the entry.
    pub open spec fn bytes(&self) -> Seq<u8> {
        word_bytes(self.words())
    }

    /// Packs world-space values into their slots: the width goes in the first
    /// word of its slot and the rest of that slot is zero.
    pub fn new(
        point0: [u32; 4],
        point1: [u32; 4],
        width: u32,
        color: [u32; 4],
        plane_dir: [u32; 4],
    ) -> (r: Self)
        ensures
            r.point0 == point0,
            r.point1 == point1,
            r.width@ == seq![width, 0u32, 0u32, 0u32],
            r.color == color,
            r.plane_dir == plane_dir,
    {
        let r = DrapedLineUniform { point0, point1, width: [width, 0, 0, 0], color, plane_dir };
        assert(r.width@ =~= seq![width, 0u32, 0u32, 0u32]);
        r
    }

    /// The twenty words of the entry in layout order.
    pub fn to_words(&self) -> (r: Vec<u32>)
        ensures
            r@ == self.words(),
    {
        let mut r: Vec<u32> = Vec::new();
        push_slot(&mut r, &self.point0);
        push_slot(&mut r, &self.point1);
        push_slot(&mut r, &self.width);
        push_slot(&mut r, &self.color);
        push_slot(&mut r, &self.plane_dir);
        assert(r@ =~= self.words());
        r
    }

    /// The eighty bytes of the entry, each word little-endian.
    pub fn to_bytes(&self) -> (r: Vec<u8>)
        ensures
            r@ == self.bytes(),
            r@.len() == ENTRY_SIZE,
    {
        encode_words(&self.to_words())
    }
}

fn push_slot(v: &mut Vec<u32>, s: &[u32; 4])
    ensures
        final(v)@ == old(v)@ + s@,
{
    let mut i: usize = 0;
    let ghost start = v@;
    while i < 4
        invariant
            0 <= i <= 4,
            v@ == start + s@.subrange(0, i as int),
        decreases 4 - i,
    {
        v.push(s[i]);
        assert(s@.subrange(0, i + 1) =~= s@.subrange(0, i as int).push(s@[i as int]));
        i = i + 1;
    }
    assert(s@.subrange(0, 4) =~= s@);
}

/// The little-endian bytes of `w` appended to `out`.
fn push_word_bytes(out: &mut Vec<u8>, w: u32)
    ensures
        final(out)@ == old(out)@ + le_bytes(w),
{
    let ghost start = out@;
    out.push((w % 256) as u8);
    out.push((w / 256 % 256) as u8);
    out.push((w / 65536 % 256) as u8);
    out.push((w / 16777216 % 256) as u8);
    assert(out@ =~= start + le_bytes(w));
}

proof fn lemma_word_bytes_push(ws: Seq<u32>, w: u32)
    ensures
        word_bytes(ws.push(w)) == word_bytes(ws) + le_bytes(w),
{
    let l = word_bytes(ws.push(w));
    let r = word_bytes(ws) + le_bytes(w);
    assert forall|k: int| 0 <= k < l.len() implies l[k] == r[k] by {
        if k < 4 * ws.len() {
            assert(k / 4 < ws.len());
        } else {
            assert(k / 4 == ws.len());
            assert(k % 4 == k - 4 * ws.len());
        }
    }
    assert(l =~= r);
}

/// The little-endian bytes of a sequence of words.
pub fn encode_words(ws: &Vec<u32>) -> (r: Vec<u8>)
    requires
        ws@.len() <= usize::MAX / 4,
    ensures
        r@ == word_bytes(ws@),
        r@.len() == 4 * ws@.len(),
{
    let mut r: Vec<u8> = Vec::new();
    let mut i: usize = 0;
    while i < ws.len()
        invariant
            0 <= i <= ws@.len(),
            r@ == word_bytes(ws@.subrange(0, i as int)),
        decreases ws@.len() - i,
    {
        proof {
            lemma_word_bytes_push(ws@.subrange(0, i as int), ws@[i as int]);
            assert(ws@.subrange(0, i + 1) =~= ws@.subrange(0, i as int).push(ws@[i as int]));
        }
        push_word_bytes(&mut r, ws[i]);
        i = i + 1;
    }
    assert(ws@.subrange(0, i as int) =~= ws@);
    r
}

/// The sixteen bytes of the count header for `count` entries.
pub fn encode_header(count: u32) -> (r: Vec<u8>)
    ensures
        r@ == header_bytes(count as nat),
        r@.len() == HEADER_SIZE,
{
    let ws: Vec<u32> = vec![count, 0, 0, 0];
    assert(ws@ =~= header_words(count as nat));
    encode_words(&ws)
}

/// The buffer after a frame that writes `count` entries from `lines` over
/// `prior`: the count header, then entries `0..count`, then every later byte as
/// it was.
pub open spec fn frame_image(prior: Seq<u8>, count: nat, lines: Seq<DrapedLineUniform>) -> Seq<u8> {
    Seq::new(
        prior.len(),
        |k: int|
            if k < HEADER_SIZE {
                header_bytes(count)[k]
            } else if k < entry_start(count) {
                lines[(k - HEADER_SIZE) / ENTRY_SIZE as int].bytes()[(k - HEADER_SIZE)
                    % ENTRY_SIZE as int]
            } else {
                prior[k]
            },
    )
}

/// Copies `bytes` into `region` from offset `at` on.
fn write_at(region: &mut Vec<u8>, at: usize, bytes: &Vec<u8>)
    requires
        at + bytes@.len() <= old(region)@.len(),
    ensures
        final(region)@.len() == old(region)@.len(),
        forall|k: int|
            0 <= k < old(region)@.len() ==> #[trigger] final(region)@[k] == if at <= k < at
                + bytes@.len() {
                bytes@[k - at]
            } else {
                old(region)@[k]
            },
{
    let len = region.len();
    let mut j: usize = 0;
    while j < bytes.len()
        invariant
            len == region@.len(),
            0 <= j <= bytes@.len(),
            at + bytes@.len() <= region@.len(),
            region@.len() == old(region)@.len(),
            forall|k: int|
                0 <= k < region@.len() ==> #[trigger] region@[k] == if at <= k < at + j {
                    bytes@[k - at]
                } else {
                    old(region)@[k]
                },
        decreases bytes@.len() - j,
    {
        region.set(at + j, bytes[j]);
        j = j + 1;
    }
}

proof fn lemma_entry_within(i: nat, capacity: nat)
    requires
        i < capacity,
    ensures
        entry_start(i) + ENTRY_SIZE <= region_size(capacity),
{
    assert(i * 80 + 80 <= capacity * 80) by (nonlinear_arith)
        requires
            i < capacity,
    ;
}

/// Writes one frame into the mapped staging region: the count header, then
/// one entry per line in order, up to `capacity` entries. Lines past the
/// capacity are dropped; entries past the count keep what they held.
/// Returns the number of entries written.
pub fn write_frame(region: &mut Vec<u8>, capacity: usize, lines: &Vec<DrapedLineUniform>) -> (count:
    usize)
    requires
        valid_capacity(capacity as nat),
        old(region)@.len() == region_size(capacity as nat),
    ensures
        count == written_count(lines@.len(), capacity as nat),
        final(region)@ == frame_image(old(region)@, count as nat, lines@),
{
    let count: usize = if lines.len() <= capacity {
        lines.len()
    } else {
        capacity
    };
    let ghost image = frame_image(old(region)@, count as nat, lines@);
    let header = encode_header(count as u32);
    write_at(region, 0, &header);
    let len = region.len();
    let mut i: usize = 0;
    while i < count
        invariant
            len == region@.len(),
            count == written_count(lines@.len(), capacity as nat),
            image == frame_image(old(region)@, count as nat, lines@),
            region@.len() == old(region)@.len(),
            region@.len() == region_size(capacity as nat),
            0 <= i <= count,
            count <= capacity,
            forall|k: int|
                0 <= k < region@.len() ==> #[trigger] region@[k] == if k < entry_start(i as nat) {
                    image[k]
                } else {
                    old(region)@[k]
                },
        decreases count - i,
    {
        let bytes = lines[i].to_bytes();
        proof {
            lemma_entry_within(i as nat, capacity as nat);
        }
        let at: usize = 16 + 80 * i;
        let ghost before = region@;
        write_at(region, at, &bytes);
        assert forall|k: int| 0 <= k < region@.len() implies #[trigger] region@[k] == if k
            < entry_start((i + 1) as nat) {
            image[k]
        } else {
            old(region)@[k]
        } by {
            if at <= k < at + 80 {
                assert((k - 16) / 80 == i);
                assert((k - 16) % 80 == k - at);
            } else {
                assert(region@[k] == before[k]);
            }
        }
        i = i + 1;
    }
    assert(region@ =~= image);
    count
}

} // verus!
