//! Per-buffer ping-pong tracking for multi-pass compute pipelines.
//!
//! Every named buffer is backed by two physical sides. The manager tracks,
//! independently per buffer, which side holds the most recent completed
//! write: reads resolve to that side, writes resolve to the opposite side,
//! and committing a write flips the bit. Independent per-buffer tracking is
//! what lets any pass read any other pass's current-frame output while a
//! buffer simultaneously carries its own previous-frame content.
//!
//! The manager works on plain values. A [`ResourceHandle`] names one
//! physical side of one buffer under one allocation generation; the
//! application keeps the actual GPU textures and binding sets in arrays
//! addressed by exactly these handles, and recreates them whenever the
//! generation advances.

use vstd::prelude::*;
use crate::compute::builder::TextureFormat;

verus! {

/// One physical side of one double-buffered resource.
///
/// The same handle addresses both the texture and its precomputed binding
/// set: the application stores each per `(buffer, side)` pair. `generation`
/// stamps the allocation round; handles from an older generation must never
/// be used to reach a resource allocated in a newer one.
#[derive(Clone, Copy, Debug, PartialEq, Eq, Structural)]
pub struct ResourceHandle {
    /// Index of the buffer in declaration order.
    pub buffer: usize,
    /// Which of the two physical sides is addressed.
    pub side: bool,
    /// Allocation round the handle belongs to.
    pub generation: u64,
}

/// The single distinguished output resource the final pass writes.
#[derive(Clone, Copy, Debug, PartialEq, Eq, Structural)]
pub struct OutputHandle {
    /// Allocation round the handle belongs to.
    pub generation: u64,
}

/// Abstract state of a [`MultiPassManager`].
pub struct MultiPassState {
    /// Buffer names in declaration order.
    pub names: Seq<Seq<char>>,
    /// Per buffer, the side holding the most recent completed write.
    pub sides: Seq<bool>,
    /// Current allocation round; bumped by every clear or resize.
    pub generation: u64,
    /// Width all buffers are allocated at.
    pub width: u32,
    /// Height all buffers are allocated at.
    pub height: u32,
    /// Pixel format all buffers are allocated with.
    pub format: TextureFormat,
}

impl MultiPassState {
    /// One tracked side bit per buffer, and no two buffers share a name.
    pub open spec fn inv(self) -> bool {
        &&& self.sides.len() == self.names.len()
        &&& forall|i: int, j: int|
            0 <= i < j < self.names.len() ==> self.names[i] != self.names[j]
    }

    /// Whether some buffer carries this name.
    pub open spec fn has_buffer(self, name: Seq<char>) -> bool {
        exists|j: int| 0 <= j < self.names.len() && self.names[j] == name
    }

    /// Index of the buffer carrying this name (unique under `inv`).
    pub open spec fn buffer_index(self, name: Seq<char>) -> int {
        choose|j: int| 0 <= j < self.names.len() && self.names[j] == name
    }

    /// Handle for one fixed physical side of buffer `b`.
    pub open spec fn side_handle(self, b: int, side: bool) -> ResourceHandle {
        ResourceHandle { buffer: b as usize, side, generation: self.generation }
    }

    /// Handle a read of buffer `b` resolves to: the last-written side.
    pub open spec fn read_handle(self, b: int) -> ResourceHandle {
        self.side_handle(b, self.sides[b])
    }

    /// Handle a write of buffer `b` resolves to: the side readers never see.
    pub open spec fn write_handle(self, b: int) -> ResourceHandle {
        self.side_handle(b, !self.sides[b])
    }
}

/// Tracks, for every named buffer of a pipeline, which physical side was
/// last written, at which dimensions and format the current allocation
/// round was made, and hands out the handles that resolve reads and writes.
pub struct MultiPassManager {
    names: Vec<String>,
    sides: Vec<bool>,
    generation: u64,
    width: u32,
    height: u32,
    format: TextureFormat,
}

/// Views of a sequence of owned names.
pub open spec fn views_of(names: Seq<String>) -> Seq<Seq<char>> {
    names.map_values(|s: String| s@)
}

impl View for MultiPassManager {
    type V = MultiPassState;

    closed spec fn view(&self) -> MultiPassState {
        MultiPassState {
            names: views_of(self.names@),
            sides: self.sides@,
            generation: self.generation,
            width: self.width,
            height: self.height,
            format: self.format,
        }
    }
}

/// First index whose name equals `key`, scanning declaration order.
fn find_name(names: &Vec<String>, key: &String) -> (r: Option<usize>)
    ensures
        match r {
            Some(j) => j < names@.len() && names@[j as int]@ == key@,
            None => forall|k: int| 0 <= k < names@.len() ==> names@[k]@ != key@,
        },
{
    let mut i: usize = 0;
    while i < names.len()
        invariant
            i <= names@.len(),
            forall|k: int| 0 <= k < i ==> names@[k]@ != key@,
        decreases names@.len() - i,
    {
        if names[i] == *key {
            return Some(i);
        }
        i = i + 1;
    }
    None
}

impl MultiPassManager {
    /// The abstract state is coherent; required by every operation.
    pub open spec fn wf(&self) -> bool {
        self@.inv()
    }

    /// Create a manager tracking one double-buffered pair per name, all
    /// bits at their initial side, in allocation generation zero.
    pub fn new(buffer_names: Vec<String>, width: u32, height: u32, format: TextureFormat) -> (r: Self)
        requires
            forall|i: int, j: int|
                0 <= i < j < buffer_names@.len()
                    ==> buffer_names@[i]@ != buffer_names@[j]@,
        ensures
            r.wf(),
            r@.names == views_of(buffer_names@),
            r@.sides.len() == buffer_names@.len(),
            forall|b: int| 0 <= b < r@.sides.len() ==> r@.sides[b] == false,
            r@.generation == 0,
            r@.width == width,
            r@.height == height,
            r@.format == format,
    {
        let n = buffer_names.len();
        let mut sides: Vec<bool> = Vec::new();
        let mut i: usize = 0;
        while i < n
            invariant
                i <= n,
                sides@.len() == i,
                forall|b: int| 0 <= b < i ==> sides@[b] == false,
            decreases n - i,
        {
            sides.push(false);
            i = i + 1;
        }
        MultiPassManager { names: buffer_names, sides, generation: 0, width, height, format }
    }

    /// Index of the buffer holding `buffer_name`, when one was declared.
    pub fn buffer_index_of(&self, buffer_name: &str) -> (r: Option<usize>)
        requires
            self.wf(),
        ensures
            match r {
                Some(j) => self@.has_buffer(buffer_name@) && j as int == self@.buffer_index(buffer_name@),
                None => !self@.has_buffer(buffer_name@),
            },
    {
        let key: String = buffer_name.to_owned();
        let r = find_name(&self.names, &key);
        proof {
            if let Some(j) = r {
                assert(self@.names[j as int] == buffer_name@);
                let j0 = self@.buffer_index(buffer_name@);
                assert(0 <= j0 < self@.names.len() && self@.names[j0] == buffer_name@);
                assert(j0 == j as int);
            }
        }
        r
    }

    /// Number of tracked buffers.
    pub fn buffer_count(&self) -> (r: usize)
        ensures
            r == self@.names.len(),
    {
        self.names.len()
    }

    /// Read handle for buffer `b`: the side that was last written.
    pub fn read_handle_at(&self, b: usize) -> (r: ResourceHandle)
        requires
            self.wf(),
            b < self@.names.len(),
        ensures
            r == self@.read_handle(b as int),
    {
        ResourceHandle { buffer: b, side: self.sides[b], generation: self.generation }
    }

    /// Write handle for buffer `b`: the side opposite the last write, never
    /// the side currently exposed to readers.
    pub fn write_handle_at(&self, b: usize) -> (r: ResourceHandle)
        requires
            self.wf(),
            b < self@.names.len(),
        ensures
            r == self@.write_handle(b as int),
    {
        ResourceHandle { buffer: b, side: !self.sides[b], generation: self.generation }
    }

    /// Texture a read of this buffer resolves to right now.
    pub fn get_read_texture(&self, buffer_name: &str) -> (r: ResourceHandle)
        requires
            self.wf(),
            self@.has_buffer(buffer_name@),
        ensures
            r == self@.read_handle(self@.buffer_index(buffer_name@)),
    {
        let j = self.buffer_index_of(buffer_name).unwrap();
        self.read_handle_at(j)
    }

    /// Texture a write of this buffer resolves to right now.
    pub fn get_write_texture(&self, buffer_name: &str) -> (r: ResourceHandle)
        requires
            self.wf(),
            self@.has_buffer(buffer_name@),
        ensures
            r == self@.write_handle(self@.buffer_index(buffer_name@)),
    {
        let j = self.buffer_index_of(buffer_name).unwrap();
        self.write_handle_at(j)
    }

    /// Binding set covering the same side as [`Self::get_write_texture`].
    pub fn get_write_bind_group(&self, buffer_name: &str) -> (r: ResourceHandle)
        requires
            self.wf(),
            self@.has_buffer(buffer_name@),
        ensures
            r == self@.write_handle(self@.buffer_index(buffer_name@)),
    {
        self.get_write_texture(buffer_name)
    }

    /// The distinguished output texture of the current allocation round.
    pub fn get_output_texture(&self) -> (r: OutputHandle)
        ensures
            r.generation == self@.generation,
    {
        OutputHandle { generation: self.generation }
    }

    /// Binding set covering the output texture.
    pub fn get_output_bind_group(&self) -> (r: OutputHandle)
        ensures
            r.generation == self@.generation,
    {
        OutputHandle { generation: self.generation }
    }

    /// Commit buffer `b`'s write: flip its bit so the next read returns
    /// what was just written and the next write goes to the other side.
    pub fn mark_written_at(&mut self, b: usize)
        requires
            old(self).wf(),
            b < old(self)@.names.len(),
        ensures
            final(self).wf(),
            final(self)@.names == old(self)@.names,
            final(self)@.generation == old(self)@.generation,
            final(self)@.width == old(self)@.width,
            final(self)@.height == old(self)@.height,
            final(self)@.format == old(self)@.format,
            final(self)@.sides == old(self)@.sides.update(b as int, !old(self)@.sides[b as int]),
    {
        let cur = self.sides[b];
        self.sides.set(b, !cur);
    }

    /// Commit a buffer's write, addressed by name. A name no pass declared
    /// leaves the manager unchanged.
    pub fn mark_written(&mut self, buffer_name: &str)
        requires
            old(self).wf(),
        ensures
            final(self).wf(),
            final(self)@.names == old(self)@.names,
            final(self)@.generation == old(self)@.generation,
            final(self)@.width == old(self)@.width,
            final(self)@.height == old(self)@.height,
            final(self)@.format == old(self)@.format,
            old(self)@.has_buffer(buffer_name@) ==> final(self)@.sides
                == old(self)@.sides.update(
                    old(self)@.buffer_index(buffer_name@),
                    !old(self)@.sides[old(self)@.buffer_index(buffer_name@)],
                ),
            !old(self)@.has_buffer(buffer_name@) ==> final(self)@.sides == old(self)@.sides,
    {
        match self.buffer_index_of(buffer_name) {
            Some(j) => self.mark_written_at(j),
            None => {},
        }
    }

    /// Flip every buffer at once: the cross-frame hand-off that preserves
    /// temporal feedback from one displayed frame to the next. Distinct
    /// from the per-buffer commit, which serves intra-frame sequencing.
    pub fn flip_buffers(&mut self)
        requires
            old(self).wf(),
        ensures
            final(self).wf(),
            final(self)@.names == old(self)@.names,
            final(self)@.generation == old(self)@.generation,
            final(self)@.width == old(self)@.width,
            final(self)@.height == old(self)@.height,
            final(self)@.format == old(self)@.format,
            final(self)@.sides.len() == old(self)@.sides.len(),
            forall|b: int|
                0 <= b < old(self)@.sides.len()
                    ==> final(self)@.sides[b] == !old(self)@.sides[b],
    {
        let n = self.sides.len();
        let mut i: usize = 0;
        while i < n
            invariant
                i <= n,
                n == self.sides@.len(),
                self.names == old(self).names,
                self.generation == old(self).generation,
                self.width == old(self).width,
                self.height == old(self).height,
                self.format == old(self).format,
                forall|b: int| 0 <= b < i ==> self.sides@[b] == !old(self).sides@[b],
                forall|b: int| i <= b < n ==> self.sides@[b] == old(self).sides@[b],
            decreases n - i,
        {
            let cur = self.sides[i];
            self.sides.set(i, !cur);
            i = i + 1;
        }
    }

    /// Start a fresh allocation round: every bit returns to its initial
    /// side and the generation advances, so every handle resolved earlier
    /// is invalidated. The application recreates both sides of every
    /// buffer, plus the output, for the new generation.
    pub fn clear_all(&mut self)
        requires
            old(self).wf(),
            old(self)@.generation < u64::MAX,
        ensures
            final(self).wf(),
            final(self)@.names == old(self)@.names,
            final(self)@.generation == old(self)@.generation + 1,
            final(self)@.width == old(self)@.width,
            final(self)@.height == old(self)@.height,
            final(self)@.format == old(self)@.format,
            final(self)@.sides.len() == old(self)@.sides.len(),
            forall|b: int| 0 <= b < final(self)@.sides.len() ==> final(self)@.sides[b] == false,
    {
        let n = self.sides.len();
        let mut i: usize = 0;
        while i < n
            invariant
                i <= n,
                n == self.sides@.len(),
                self.names == old(self).names,
                self.generation == old(self).generation,
                self.width == old(self).width,
                self.height == old(self).height,
                self.format == old(self).format,
                forall|b: int| 0 <= b < i ==> self.sides@[b] == false,
            decreases n - i,
        {
            self.sides.set(i, false);
            i = i + 1;
        }
        self.generation = self.generation + 1;
    }

    /// Record new dimensions, then start a fresh allocation round. There is
    /// no resize-with-content-preservation path.
    pub fn resize(&mut self, width: u32, height: u32)
        requires
            old(self).wf(),
            old(self)@.generation < u64::MAX,
        ensures
            final(self).wf(),
            final(self)@.names == old(self)@.names,
            final(self)@.generation == old(self)@.generation + 1,
            final(self)@.width == width,
            final(self)@.height == height,
            final(self)@.format == old(self)@.format,
            final(self)@.sides.len() == old(self)@.sides.len(),
            forall|b: int| 0 <= b < final(self)@.sides.len() ==> final(self)@.sides[b] == false,
    {
        self.width = width;
        self.height = height;
        self.clear_all();
    }

    /// The raw side bit for a buffer; `false` for a name never declared.
    pub fn get_write_side(&self, buffer_name: &str) -> (r: bool)
        requires
            self.wf(),
        ensures
            r == (if self@.has_buffer(buffer_name@) {
                self@.sides[self@.buffer_index(buffer_name@)]
            } else {
                false
            }),
    {
        match self.buffer_index_of(buffer_name) {
            Some(j) => self.sides[j],
            None => false,
        }
    }

    /// Both physical sides of a buffer, in fixed side order.
    pub fn get_buffer_pair(&self, buffer_name: &str) -> (r: Option<(ResourceHandle, ResourceHandle)>)
        requires
            self.wf(),
        ensures
            match r {
                Some(p) => {
                    &&& self@.has_buffer(buffer_name@)
                    &&& p.0 == self@.side_handle(self@.buffer_index(buffer_name@), false)
                    &&& p.1 == self@.side_handle(self@.buffer_index(buffer_name@), true)
                },
                None => !self@.has_buffer(buffer_name@),
            },
    {
        match self.buffer_index_of(buffer_name) {
            Some(j) => Some((
                ResourceHandle { buffer: j, side: false, generation: self.generation },
                ResourceHandle { buffer: j, side: true, generation: self.generation },
            )),
            None => None,
        }
    }

    /// Width and height of the current allocation round.
    pub fn dimensions(&self) -> (r: (u32, u32))
        ensures
            r.0 == self@.width,
            r.1 == self@.height,
    {
        (self.width, self.height)
    }

    /// The first declared buffer name: the default read target for passes
    /// that declare no dependencies.
    pub fn first_buffer_name(&self) -> (r: Option<&String>)
        ensures
            match r {
                Some(s) => self@.names.len() > 0 && s@ == self@.names[0],
                None => self@.names.len() == 0,
            },
    {
        if self.names.len() > 0 {
            Some(&self.names[0])
        } else {
            None
        }
    }
}

/// The side bit after `n` commits of one buffer, starting from `b`.
pub open spec fn flipped(b: bool, n: nat) -> bool
    decreases n,
{
    if n == 0 {
        b
    } else {
        !flipped(b, (n - 1) as nat)
    }
}

/// After any number of commits to one buffer, the side holding the latest
/// write equals the initial side exactly when the commit count is even:
/// each commit flips the bit and nothing else moves it.
pub proof fn lemma_commit_parity(b: bool, n: nat)
    ensures
        flipped(b, n) == (if n % 2 == 1 {
            !b
        } else {
            b
        }),
    decreases n,
{
    if n > 0 {
        lemma_commit_parity(b, (n - 1) as nat);
    }
}

/// A handle resolved before a clear or resize can never coincide with one
/// resolved after it: the generation stamp separates the two allocation
/// rounds, so stale binding sets are unreachable through fresh resolutions.
pub proof fn lemma_stale_handles_distinct(
    before: MultiPassState,
    after: MultiPassState,
    stale: ResourceHandle,
    fresh: ResourceHandle,
)
    requires
        before.generation < after.generation,
        stale.generation == before.generation,
        fresh.generation == after.generation,
    ensures
        stale != fresh,
{
}

} // verus!
