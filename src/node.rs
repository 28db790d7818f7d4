//! The buffer lifecycle and the streaming node. Each frame the host asks the
//! node what to do with the device (allocate, skip, or map for writing),
//! performs it, writes the mapped region, and lets the node record the copy
//! into the device buffer; later in the frame it drains the recorded copies
//! into the render context.
use crate::copy_queue::{BufferHandle, CopyQueue, PendingCopy};
use crate::layout::{region_size, valid_capacity, write_frame, DrapedLineUniform, frame_image, written_count};
use vstd::prelude::*;

verus! {

/// The name under which the device buffer is bound for the shader.
pub const DRAPED_LINES: &'static str = "DrapedLines";

/// The buffer the shader reads and the buffer the host writes, of one size.
#[derive(Clone, Copy, Debug, PartialEq, Eq, Structural)]
pub struct BufferPair {
    pub device: BufferHandle,
    pub staging: BufferHandle,
}

/// What the host does with the device when it prepares a frame.
#[derive(Clone, Copy, Debug, PartialEq, Eq, Structural)]
pub enum FrameStep {
    /// Create the device buffer (uniform, copy source and destination) and
    /// the staging buffer (copy source, mapped for writing at creation), both
    /// of `size` bytes; bind the device buffer under `DRAPED_LINES`; install
    /// them in the node; then write the frame.
    Allocate { size: u64 },
    /// Nothing is mapped, written or copied this frame.
    Skip,
    /// Map `staging` for writing, then write the frame.
    Write { staging: BufferHandle, size: u64 },
}

/// The step for a frame with `line_count` lines.
pub open spec fn frame_step(buffers: Option<BufferPair>, capacity: nat, line_count: nat) -> FrameStep {
    match buffers {
        None => FrameStep::Allocate { size: region_size(capacity) as u64 },
        Some(pair) => if line_count == 0 {
            FrameStep::Skip
        } else {
            FrameStep::Write { staging: pair.staging, size: region_size(capacity) as u64 }
        },
    }
}

/// Whether a frame with `line_count` lines is skipped: the buffers exist and
/// there is nothing to write.
pub open spec fn skips(buffers: Option<BufferPair>, line_count: nat) -> bool {
    buffers is Some && line_count == 0
}

/// The buffers after a frame: those held before, or on the first frame those
/// the host just created.
pub open spec fn frame_buffers(buffers: Option<BufferPair>, created: Option<BufferPair>) -> Option<
    BufferPair,
> {
    match buffers {
        Some(pair) => Some(pair),
        None => created,
    }
}

/// The copy that moves the whole staging buffer into the device buffer.
pub open spec fn full_copy(pair: BufferPair, capacity: nat) -> PendingCopy {
    PendingCopy {
        source: pair.staging,
        source_offset: 0,
        destination: pair.device,
        destination_offset: 0,
        size: region_size(capacity) as u64,
    }
}

/// The long-lived buffer state: the fixed capacity and, once allocated, the
/// two buffers.
pub struct DrapedLinesNodeSystemState {
    buffers: Option<BufferPair>,
    max_draped_lines: usize,
}

impl DrapedLinesNodeSystemState {
    pub closed spec fn capacity_spec(&self) -> nat {
        self.max_draped_lines as nat
    }

    pub closed spec fn buffers_spec(&self) -> Option<BufferPair> {
        self.buffers
    }

    pub open spec fn wf(&self) -> bool {
        valid_capacity(self.capacity_spec())
    }

    /// A state with no buffers yet, for `max_draped_lines` entries.
    pub fn new(max_draped_lines: usize) -> (r: Self)
        requires
            valid_capacity(max_draped_lines as nat),
        ensures
            r.wf(),
            r.capacity_spec() == max_draped_lines,
            r.buffers_spec() == None::<BufferPair>,
    {
        DrapedLinesNodeSystemState { buffers: None, max_draped_lines }
    }

    /// The fixed capacity.
    pub fn capacity(&self) -> (r: usize)
        ensures
            r == self.capacity_spec(),
    {
        self.max_draped_lines
    }

    /// The buffers, once allocated.
    pub fn buffers(&self) -> (r: Option<BufferPair>)
        ensures
            r == self.buffers_spec(),
    {
        self.buffers
    }

    /// Records the buffers just allocated. Buffers are allocated once.
    pub fn install_buffers(&mut self, device: BufferHandle, staging: BufferHandle)
        requires
            old(self).buffers_spec() is None,
        ensures
            final(self).buffers_spec() == Some(BufferPair { device, staging }),
            final(self).capacity_spec() == old(self).capacity_spec(),
    {
        self.buffers = Some(BufferPair { device, staging });
    }

    /// Decides what the host does with the device for a frame with
    /// `line_count` lines: allocate on the first frame, skip an empty frame
    /// once allocated, otherwise map the staging buffer for writing.
    pub fn next_step(&self, line_count: usize) -> (step: FrameStep)
        requires
            self.wf(),
        ensures
            step == frame_step(self.buffers_spec(), self.capacity_spec(), line_count as nat),
    {
        let size = crate::layout::buffer_size(self.max_draped_lines);
        match self.buffers {
            None => FrameStep::Allocate { size },
            Some(pair) => if line_count == 0 {
                FrameStep::Skip
            } else {
                FrameStep::Write { staging: pair.staging, size }
            },
        }
    }
}

/// The streaming node: the buffer state and the queue of copies recorded in
/// the prepare phase and executed in the render phase. One instance lives for
/// the whole life of the subsystem.
pub struct DrapedLinesNode {
    state: DrapedLinesNodeSystemState,
    command_queue: CopyQueue,
}

impl DrapedLinesNode {
    pub closed spec fn capacity_spec(&self) -> nat {
        self.state.capacity_spec()
    }

    pub closed spec fn buffers_spec(&self) -> Option<BufferPair> {
        self.state.buffers_spec()
    }

    /// The copies recorded and not yet executed, oldest first.
    pub closed spec fn pending(&self) -> Seq<PendingCopy> {
        self.command_queue@
    }

    pub open spec fn wf(&self) -> bool {
        valid_capacity(self.capacity_spec())
    }

    /// A node for at most `max_draped_lines` lines, with no buffers yet and
    /// nothing queued.
    pub fn new(max_draped_lines: usize) -> (r: Self)
        requires
            valid_capacity(max_draped_lines as nat),
        ensures
            r.wf(),
            r.capacity_spec() == max_draped_lines,
            r.buffers_spec() == None::<BufferPair>,
            r.pending() == Seq::<PendingCopy>::empty(),
    {
        DrapedLinesNode {
            state: DrapedLinesNodeSystemState::new(max_draped_lines),
            command_queue: CopyQueue::new(),
        }
    }

    /// The fixed capacity.
    pub fn capacity(&self) -> (r: usize)
        ensures
            r == self.capacity_spec(),
    {
        self.state.capacity()
    }

    /// The buffers, once allocated.
    pub fn buffers(&self) -> (r: Option<BufferPair>)
        ensures
            r == self.buffers_spec(),
    {
        self.state.buffers()
    }

    /// The number of copies waiting for the render phase.
    pub fn pending_len(&self) -> (r: usize)
        ensures
            r == self.pending().len(),
    {
        self.command_queue.len()
    }

    /// What the host does with the device for a frame with `line_count` lines.
    pub fn begin_frame(&self, line_count: usize) -> (step: FrameStep)
        requires
            self.wf(),
        ensures
            step == frame_step(self.buffers_spec(), self.capacity_spec(), line_count as nat),
    {
        self.state.next_step(line_count)
    }

    /// Records the buffers allocated on the first frame.
    fn install_buffers(&mut self, device: BufferHandle, staging: BufferHandle)
        requires
            old(self).buffers_spec() is None,
        ensures
            final(self).buffers_spec() == Some(BufferPair { device, staging }),
            final(self).capacity_spec() == old(self).capacity_spec(),
            final(self).pending() == old(self).pending(),
    {
        self.state.install_buffers(device, staging);
    }

    /// Writes the frame's lines into the mapped staging region: the count
    /// header, then up to the capacity entries in order. Returns the count.
    fn write_lines(&self, region: &mut Vec<u8>, lines: &Vec<DrapedLineUniform>) -> (count:
        usize)
        requires
            self.wf(),
            old(region)@.len() == region_size(self.capacity_spec()),
        ensures
            count == written_count(lines@.len(), self.capacity_spec()),
            final(region)@ == frame_image(old(region)@, count as nat, lines@),
    {
        write_frame(region, self.state.capacity(), lines)
    }

    /// Once the staging buffer is written and unmapped, records the copy of
    /// the whole region, header and every slot, into the device buffer.
    fn finish_frame(&mut self)
        requires
            old(self).wf(),
            old(self).buffers_spec() is Some,
        ensures
            final(self).pending() == old(self).pending().push(
                full_copy(old(self).buffers_spec().unwrap(), old(self).capacity_spec()),
            ),
            final(self).buffers_spec() == old(self).buffers_spec(),
            final(self).capacity_spec() == old(self).capacity_spec(),
    {
        let pair = self.state.buffers().unwrap();
        let size = crate::layout::buffer_size(self.state.capacity());
        self.command_queue.enqueue(
            PendingCopy {
                source: pair.staging,
                source_offset: 0,
                destination: pair.device,
                destination_offset: 0,
                size,
            },
        );
    }

    /// The render phase: hands out every recorded copy, oldest first, for the
    /// host to execute against the active render context, and empties the
    /// queue.
    pub fn update(&mut self) -> (r: Vec<PendingCopy>)
        ensures
            r@ == old(self).pending(),
            final(self).pending() == Seq::<PendingCopy>::empty(),
            final(self).buffers_spec() == old(self).buffers_spec(),
            final(self).capacity_spec() == old(self).capacity_spec(),
    {
        self.command_queue.drain()
    }
}

/// The prepare phase of a frame, after the host has performed the step that
/// `begin_frame` gave: `created` holds the buffers it created on the first
/// frame, `region` the mapped staging region (left alone when the frame is
/// skipped), `lines` the frame's packed lines in enumeration order.
///
/// On the first frame the created buffers are installed. An empty frame once
/// the buffers exist changes nothing. Any other frame writes the count
/// header and up to the capacity entries into the region, and records one
/// copy of the whole region into the device buffer. Returns the count
/// written. The host unmaps the region before the recorded copy runs.
pub fn draped_lines_node_system(
    node: &mut DrapedLinesNode,
    created: Option<BufferPair>,
    region: &mut Vec<u8>,
    lines: &Vec<DrapedLineUniform>,
) -> (count: usize)
    requires
        old(node).wf(),
        created is Some <==> old(node).buffers_spec() is None,
        !skips(old(node).buffers_spec(), lines@.len()) ==> old(region)@.len() == region_size(
            old(node).capacity_spec(),
        ),
    ensures
        final(node).buffers_spec() == frame_buffers(old(node).buffers_spec(), created),
        final(node).capacity_spec() == old(node).capacity_spec(),
        skips(old(node).buffers_spec(), lines@.len()) ==> count == 0,
        skips(old(node).buffers_spec(), lines@.len()) ==> final(region)@ == old(region)@,
        skips(old(node).buffers_spec(), lines@.len()) ==> final(node).pending() == old(
            node,
        ).pending(),
        !skips(old(node).buffers_spec(), lines@.len()) ==> count == written_count(
            lines@.len(),
            old(node).capacity_spec(),
        ),
        !skips(old(node).buffers_spec(), lines@.len()) ==> final(region)@ == frame_image(
            old(region)@,
            count as nat,
            lines@,
        ),
        !skips(old(node).buffers_spec(), lines@.len()) ==> final(node).pending() == old(
            node,
        ).pending().push(
            full_copy(
                frame_buffers(old(node).buffers_spec(), created).unwrap(),
                old(node).capacity_spec(),
            ),
        ),
{
    if let Some(pair) = created {
        node.install_buffers(pair.device, pair.staging);
    } else if lines.len() == 0 {
        return 0;
    }
    let count = node.write_lines(region, lines);
    node.finish_frame();
    count
}

} // verus!
