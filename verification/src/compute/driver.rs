//! The per-frame dispatch driver.
//!
//! Once a configuration is frozen, the driver resolves its pass list into
//! integer handles, owns the ping-pong manager, and turns every frame into
//! an explicit sequence of [`PassInvocation`] records: which pipeline to
//! run, which physical sides to bind for reading, which side or output to
//! write, and the dispatch grid. The application replays the records
//! against its GPU resources in order; the driver's contracts pin down
//! that within one frame every pass reads exactly the sides written by the
//! passes declared before it, and that feedback reads land on the side the
//! previous frame committed.

use vstd::prelude::*;
use vstd::arithmetic::div_mod::lemma_fundamental_div_mod;
use crate::compute::builder::{ComputeConfiguration, PassDescription, config_valid, input_resolvable};
use crate::compute::multipass::{MultiPassManager, MultiPassState, OutputHandle, ResourceHandle};

verus! {

/// A pass with its name-based declaration resolved to integer handles:
/// `inputs[k]` is the index of the pass producing the buffer read in slot
/// `k`. The table is built once, so per-frame resolution is pure indexing.
pub struct ResolvedPass {
    /// Entry-point name, kept for diagnostics and name-based lookups.
    pub name: String,
    /// Index of the producing pass for each declared input, in slot order.
    pub inputs: Vec<usize>,
    /// Optional per-pass dispatch count override.
    pub dispatch_override: Option<[u32; 3]>,
}

/// Where one recorded dispatch writes.
#[derive(Clone, Copy, Debug, PartialEq, Eq, Structural)]
pub enum WriteTarget {
    /// One physical side of the pass's own buffer.
    Buffer(ResourceHandle),
    /// The distinguished output resource, written by the final pass.
    Output(OutputHandle),
}

/// One recorded dispatch: everything the application needs to replay the
/// pass against its GPU resources.
#[derive(Debug)]
pub struct PassInvocation {
    /// Index of the pass in declaration order.
    pub pass_index: usize,
    /// Read bindings in slot order: three resolved sides, or empty when
    /// the pipeline binds shared storage buffers instead.
    pub reads: Vec<ResourceHandle>,
    /// The write binding.
    pub write: WriteTarget,
    /// Workgroup counts to dispatch.
    pub grid: [u32; 3],
    /// Which compiled pipeline generation to bind; advanced by hot reload.
    pub pipeline_generation: u64,
    /// Whether the pass binds the shared storage buffers in place of input
    /// textures.
    pub binds_storage: bool,
}

/// Index of the buffer bound in read slot `k` of a pass: slots map to the
/// declared inputs in order, unfilled slots repeat the first input, and a
/// pass with no inputs falls back to the first declared buffer, so kernels
/// may always sample every slot.
pub open spec fn slot_buffer(p: ResolvedPass, k: int) -> int {
    if p.inputs@.len() == 0 {
        0
    } else if k < p.inputs@.len() {
        p.inputs@[k] as int
    } else {
        p.inputs@[0] as int
    }
}

/// The side buffer `b` exposes to readers at step `i` of one frame whose
/// commits started from `init`: flipped once its owner (pass `b`) has
/// committed, which happens before step `i` exactly when `b < i`, and
/// never for the final pass, which writes the output instead.
pub open spec fn side_before(init: Seq<bool>, b: int, i: int, last: int) -> bool {
    if b < i && b != last {
        !init[b]
    } else {
        init[b]
    }
}

/// All side bits after one full frame: every buffer except the final
/// pass's is committed exactly once, so its bit flips.
pub open spec fn sides_after_dispatch(init: Seq<bool>, last: int) -> Seq<bool> {
    Seq::new(init.len(), |b: int| if b != last { !init[b] } else { init[b] })
}

/// Ceiling division, written over Euclidean `/` and `%`.
pub open spec fn spec_ceil_div(x: int, d: int) -> int {
    x / d + if x % d == 0 { 0int } else { 1int }
}

/// Smallest workgroup count covering `x` items `d` at a time.
pub fn ceil_div_u32(x: u32, d: u32) -> (r: u32)
    requires
        d >= 1,
    ensures
        r == spec_ceil_div(x as int, d as int),
{
    let q = x / d;
    if x % d == 0 {
        q
    } else {
        proof {
            lemma_fundamental_div_mod(x as int, d as int);
            assert((d as int) * (q as int) >= q as int) by (nonlinear_arith)
                requires d >= 1 && q >= 0;
        }
        q + 1
    }
}

/// Whether `g` is the dispatch grid for pass `p`: its override when set,
/// otherwise one workgroup per `wg`-sized tile of the frame.
pub open spec fn grid_matches(
    g: Seq<u32>,
    p: ResolvedPass,
    wg: Seq<u32>,
    width: u32,
    height: u32,
) -> bool {
    match p.dispatch_override {
        Some(o) => g == o@,
        None => {
            &&& g.len() == 3
            &&& g[0] == spec_ceil_div(width as int, wg[0] as int)
            &&& g[1] == spec_ceil_div(height as int, wg[1] as int)
            &&& g[2] == 1
        },
    }
}

/// Everything one frame's record of pass `j` must say, given the pass
/// table and the side bits `init` the frame started from.
pub open spec fn invocation_ok(
    inv: PassInvocation,
    passes: Seq<ResolvedPass>,
    init: Seq<bool>,
    j: int,
    generation: u64,
    pipeline_generation: u64,
    uses_storage: bool,
    wg: Seq<u32>,
    width: u32,
    height: u32,
) -> bool {
    let last = passes.len() - 1;
    &&& inv.pass_index == j
    &&& inv.pipeline_generation == pipeline_generation
    &&& inv.binds_storage == uses_storage
    &&& grid_matches(inv.grid@, passes[j], wg, width, height)
    &&& (j < last ==> inv.write == WriteTarget::Buffer(
        ResourceHandle { buffer: j as usize, side: !init[j], generation },
    ))
    &&& (j == last ==> inv.write == WriteTarget::Output(OutputHandle { generation }))
    &&& inv.reads@.len() == (if uses_storage { 0int } else { 3int })
    &&& forall|k: int|
        0 <= k < inv.reads@.len() ==> inv.reads@[k] == (ResourceHandle {
            buffer: slot_buffer(passes[j], k) as usize,
            side: side_before(init, slot_buffer(passes[j], k), j, last),
            generation,
        })
}

/// Walks a frozen configuration's passes every frame, resolving reads and
/// writes against the ping-pong manager it owns and recording one
/// invocation per pass.
pub struct DispatchDriver {
    passes: Vec<ResolvedPass>,
    manager: MultiPassManager,
    workgroup_size: [u32; 3],
    dispatch_once: bool,
    fired: bool,
    uses_storage: bool,
    pipeline_generation: u64,
}

/// First pass producing the buffer named `key`.
fn find_producer(passes: &Vec<PassDescription>, key: &String) -> (r: Option<usize>)
    ensures
        match r {
            Some(j) => j < passes@.len() && passes@[j as int].name@ == key@,
            None => !input_resolvable(passes@, key@),
        },
{
    let mut j: usize = 0;
    while j < passes.len()
        invariant
            j <= passes@.len(),
            forall|j2: int| 0 <= j2 < j ==> passes@[j2].name@ != key@,
        decreases passes@.len() - j,
    {
        if passes[j].name == *key {
            return Some(j);
        }
        j = j + 1;
    }
    None
}

impl DispatchDriver {
    /// The resolved pass table.
    pub closed spec fn spec_passes(&self) -> Seq<ResolvedPass> {
        self.passes@
    }

    /// The owned manager's abstract state.
    pub closed spec fn state(&self) -> MultiPassState {
        self.manager@
    }

    /// The configured workgroup size.
    pub closed spec fn spec_workgroup(&self) -> Seq<u32> {
        self.workgroup_size@
    }

    /// Whether the pipeline runs only once.
    pub closed spec fn spec_dispatch_once(&self) -> bool {
        self.dispatch_once
    }

    /// Whether a frame has already been recorded.
    pub closed spec fn spec_fired(&self) -> bool {
        self.fired
    }

    /// Whether passes bind shared storage buffers instead of input
    /// textures.
    pub closed spec fn spec_uses_storage(&self) -> bool {
        self.uses_storage
    }

    /// The compiled pipeline generation invocations bind.
    pub closed spec fn spec_pipeline_generation(&self) -> u64 {
        self.pipeline_generation
    }

    /// Coherence of the driver's state: one buffer per pass under the same
    /// name, every resolved input in bounds, at most three inputs per
    /// pass, and a usable workgroup size.
    pub open spec fn wf(&self) -> bool {
        &&& self.state().inv()
        &&& self.state().names.len() == self.spec_passes().len()
        &&& forall|i: int|
            0 <= i < self.spec_passes().len()
                ==> self.state().names[i] == self.spec_passes()[i].name@
        &&& forall|i: int|
            0 <= i < self.spec_passes().len() ==> self.spec_passes()[i].inputs@.len() <= 3
        &&& forall|i: int, k: int|
            0 <= i < self.spec_passes().len() && 0 <= k < self.spec_passes()[i].inputs@.len()
                ==> (self.spec_passes()[i].inputs@[k] as int) < self.spec_passes().len()
        &&& self.spec_workgroup().len() == 3
        &&& self.spec_workgroup()[0] >= 1
        &&& self.spec_workgroup()[1] >= 1
    }

    /// Consume a frozen configuration: build the name-to-handle table,
    /// allocate one buffer slot per pass (per entry point, for a pipeline
    /// declared without a pass list), and start in generation zero with
    /// every side bit at its initial side and nothing recorded yet.
    pub fn new(config: ComputeConfiguration, width: u32, height: u32) -> (r: Self)
        requires
            config_valid(config),
            config.workgroup_size@[0] >= 1,
            config.workgroup_size@[1] >= 1,
            config.passes is None ==> forall|i: int, j: int|
                0 <= i < j < config.entry_points@.len()
                    ==> config.entry_points@[i]@ != config.entry_points@[j]@,
        ensures
            r.wf(),
            r.state().generation == 0,
            r.state().width == width,
            r.state().height == height,
            r.state().format == config.texture_format,
            r.state().sides.len() == r.spec_passes().len(),
            forall|b: int| 0 <= b < r.state().sides.len() ==> r.state().sides[b] == false,
            !r.spec_fired(),
            r.spec_dispatch_once() == config.dispatch_once,
            r.spec_uses_storage() == (config.storage_buffers@.len() > 0),
            r.spec_pipeline_generation() == 0,
            r.spec_workgroup() == config.workgroup_size@,
            match config.passes {
                Some(ps) => {
                    &&& r.spec_passes().len() == ps@.len()
                    &&& forall|i: int|
                        0 <= i < ps@.len() ==> r.spec_passes()[i].name@ == ps@[i].name@
                    &&& forall|i: int|
                        0 <= i < ps@.len()
                            ==> r.spec_passes()[i].dispatch_override == ps@[i].workgroup_size
                    &&& forall|i: int|
                        0 <= i < ps@.len()
                            ==> r.spec_passes()[i].inputs@.len() == ps@[i].inputs@.len()
                    &&& forall|i: int, k: int|
                        0 <= i < ps@.len() && 0 <= k < ps@[i].inputs@.len()
                            ==> ps@[r.spec_passes()[i].inputs@[k] as int].name@
                                == ps@[i].inputs@[k]@
                },
                None => {
                    &&& r.spec_passes().len() == config.entry_points@.len()
                    &&& forall|i: int|
                        0 <= i < config.entry_points@.len()
                            ==> r.spec_passes()[i].name@ == config.entry_points@[i]@
                    &&& forall|i: int|
                        0 <= i < config.entry_points@.len()
                            ==> r.spec_passes()[i].inputs@.len() == 0
                    &&& forall|i: int|
                        0 <= i < config.entry_points@.len()
                            ==> r.spec_passes()[i].dispatch_override is None
                },
            },
    {
        let uses_storage = config.storage_buffers.len() > 0;
        let mut resolved: Vec<ResolvedPass> = Vec::new();
        let mut names: Vec<String> = Vec::new();
        match &config.passes {
            Some(ps) => {
                let n = ps.len();
                let mut i: usize = 0;
                while i < n
                    invariant
                        i <= n,
                        n == ps@.len(),
                        config.passes == Some(*ps),
                        config_valid(config),
                        resolved@.len() == i,
                        names@.len() == i,
                        forall|j: int| 0 <= j < i ==> names@[j]@ == ps@[j].name@,
                        forall|j: int| 0 <= j < i ==> resolved@[j].name@ == ps@[j].name@,
                        forall|j: int|
                            0 <= j < i
                                ==> resolved@[j].dispatch_override == ps@[j].workgroup_size,
                        forall|j: int|
                            0 <= j < i ==> resolved@[j].inputs@.len() == ps@[j].inputs@.len(),
                        forall|j: int, k: int|
                            0 <= j < i && 0 <= k < ps@[j].inputs@.len() ==> {
                                &&& (resolved@[j].inputs@[k] as int) < n
                                &&& ps@[resolved@[j].inputs@[k] as int].name@ == ps@[j].inputs@[k]@
                            },
                    decreases n - i,
                {
                    let num_inputs = ps[i].inputs.len();
                    let mut inputs: Vec<usize> = Vec::new();
                    let mut k: usize = 0;
                    while k < num_inputs
                        invariant
                            k <= num_inputs,
                            i < n,
                            n == ps@.len(),
                            config.passes == Some(*ps),
                            config_valid(config),
                            num_inputs == ps@[i as int].inputs@.len(),
                            inputs@.len() == k,
                            forall|k2: int|
                                0 <= k2 < k ==> {
                                    &&& (inputs@[k2] as int) < n
                                    &&& ps@[inputs@[k2] as int].name@
                                        == ps@[i as int].inputs@[k2]@
                                },
                        decreases num_inputs - k,
                    {
                        proof {
                            assert(input_resolvable(ps@, ps@[i as int].inputs@[k as int]@));
                        }
                        let j = find_producer(ps, &ps[i].inputs[k]).unwrap();
                        inputs.push(j);
                        k = k + 1;
                    }
                    names.push(ps[i].name.clone());
                    resolved.push(ResolvedPass {
                        name: ps[i].name.clone(),
                        inputs,
                        dispatch_override: ps[i].workgroup_size,
                    });
                    i = i + 1;
                }
            },
            None => {
                let n = config.entry_points.len();
                let mut i: usize = 0;
                while i < n
                    invariant
                        i <= n,
                        n == config.entry_points@.len(),
                        resolved@.len() == i,
                        names@.len() == i,
                        forall|j: int| 0 <= j < i ==> names@[j]@ == config.entry_points@[j]@,
                        forall|j: int|
                            0 <= j < i ==> resolved@[j].name@ == config.entry_points@[j]@,
                        forall|j: int| 0 <= j < i ==> resolved@[j].inputs@.len() == 0,
                        forall|j: int| 0 <= j < i ==> resolved@[j].dispatch_override is None,
                    decreases n - i,
                {
                    names.push(config.entry_points[i].clone());
                    resolved.push(ResolvedPass {
                        name: config.entry_points[i].clone(),
                        inputs: Vec::new(),
                        dispatch_override: None,
                    });
                    i = i + 1;
                }
            },
        }
        let manager = MultiPassManager::new(names, width, height, config.texture_format);
        DispatchDriver {
            passes: resolved,
            manager,
            workgroup_size: config.workgroup_size,
            dispatch_once: config.dispatch_once,
            fired: false,
            uses_storage,
            pipeline_generation: 0,
        }
    }

    /// Read-only access to the owned ping-pong manager.
    pub fn manager(&self) -> (r: &MultiPassManager)
        ensures
            r@ == self.state(),
    {
        &self.manager
    }

    /// The dispatch grid for one pass: its override when set, otherwise
    /// one workgroup per tile of the current frame dimensions.
    fn stage_grid(&self, index: usize) -> (grid: [u32; 3])
        requires
            self.wf(),
            index < self.spec_passes().len(),
        ensures
            grid_matches(
                grid@,
                self.spec_passes()[index as int],
                self.spec_workgroup(),
                self.state().width,
                self.state().height,
            ),
    {
        match self.passes[index].dispatch_override {
            Some(o) => o,
            None => {
                let (w, h) = self.manager.dimensions();
                let g0 = ceil_div_u32(w, self.workgroup_size[0]);
                let g1 = ceil_div_u32(h, self.workgroup_size[1]);
                let grid: [u32; 3] = [g0, g1, 1];
                proof {
                    assert(grid@ =~= seq![g0, g1, 1u32]);
                }
                grid
            },
        }
    }

    /// Record one pass against the manager's current side bits: resolve
    /// its three read slots (unless storage buffers replace them), and its
    /// write target — the side readers never see, or the output for the
    /// final pass.
    #[verifier::loop_isolation(false)]
    fn resolve_stage(&self, index: usize, grid: [u32; 3]) -> (inv: PassInvocation)
        requires
            self.wf(),
            index < self.spec_passes().len(),
        ensures
            inv.pass_index == index,
            inv.pipeline_generation == self.spec_pipeline_generation(),
            inv.binds_storage == self.spec_uses_storage(),
            inv.grid == grid,
            (index as int) < self.spec_passes().len() - 1 ==> inv.write
                == WriteTarget::Buffer(self.state().write_handle(index as int)),
            (index as int) == self.spec_passes().len() - 1 ==> inv.write
                == WriteTarget::Output(OutputHandle { generation: self.state().generation }),
            inv.reads@.len() == (if self.spec_uses_storage() { 0int } else { 3int }),
            forall|k: int|
                0 <= k < inv.reads@.len() ==> inv.reads@[k] == self.state().read_handle(
                    slot_buffer(self.spec_passes()[index as int], k),
                ),
    {
        let mut reads: Vec<ResourceHandle> = Vec::new();
        if !self.uses_storage {
            let num_inputs = self.passes[index].inputs.len();
            let mut k: usize = 0;
            while k < 3
                invariant
                    k <= 3,
                    reads@.len() == k,
                    forall|k2: int|
                        0 <= k2 < k ==> reads@[k2] == self.state().read_handle(
                            slot_buffer(self.spec_passes()[index as int], k2),
                        ),
                decreases 3 - k,
            {
                let b: usize = if num_inputs == 0 {
                    0
                } else if k < num_inputs {
                    self.passes[index].inputs[k]
                } else {
                    self.passes[index].inputs[0]
                };
                reads.push(self.manager.read_handle_at(b));
                k = k + 1;
            }
        }
        let n = self.passes.len();
        let write = if index + 1 < n {
            WriteTarget::Buffer(self.manager.write_handle_at(index))
        } else {
            WriteTarget::Output(self.manager.get_output_texture())
        };
        PassInvocation {
            pass_index: index,
            reads,
            write,
            grid,
            pipeline_generation: self.pipeline_generation,
            binds_storage: self.uses_storage,
        }
    }

    /// Record one frame: walk the pass list in declaration order, resolve
    /// each pass's reads against the bits as committed so far, resolve its
    /// write, and commit it — so a pass observes exactly the writes of
    /// passes declared before it, and feedback reads see the previous
    /// frame. A one-shot pipeline that already recorded a frame records
    /// nothing and changes nothing.
    #[verifier::loop_isolation(false)]
    pub fn dispatch(&mut self) -> (plan: Vec<PassInvocation>)
        requires
            old(self).wf(),
        ensures
            final(self).wf(),
            final(self).spec_passes() == old(self).spec_passes(),
            final(self).state().names == old(self).state().names,
            final(self).state().generation == old(self).state().generation,
            final(self).state().width == old(self).state().width,
            final(self).state().height == old(self).state().height,
            final(self).state().format == old(self).state().format,
            final(self).spec_workgroup() == old(self).spec_workgroup(),
            final(self).spec_dispatch_once() == old(self).spec_dispatch_once(),
            final(self).spec_uses_storage() == old(self).spec_uses_storage(),
            final(self).spec_pipeline_generation() == old(self).spec_pipeline_generation(),
            (old(self).spec_dispatch_once() && old(self).spec_fired()) ==> {
                &&& plan@.len() == 0
                &&& final(self).state().sides == old(self).state().sides
                &&& final(self).spec_fired()
            },
            !(old(self).spec_dispatch_once() && old(self).spec_fired()) ==> {
                let n = old(self).spec_passes().len();
                &&& final(self).spec_fired()
                &&& plan@.len() == n
                &&& final(self).state().sides == sides_after_dispatch(
                    old(self).state().sides,
                    n - 1,
                )
                &&& forall|j: int|
                    0 <= j < n ==> invocation_ok(
                        plan@[j],
                        old(self).spec_passes(),
                        old(self).state().sides,
                        j,
                        old(self).state().generation,
                        old(self).spec_pipeline_generation(),
                        old(self).spec_uses_storage(),
                        old(self).spec_workgroup(),
                        old(self).state().width,
                        old(self).state().height,
                    )
            },
    {
        let mut plan: Vec<PassInvocation> = Vec::new();
        if self.dispatch_once && self.fired {
            return plan;
        }
        self.fired = true;
        let n = self.passes.len();
        let ghost init = self.manager@.sides;
        let ghost last = n as int - 1;
        let mut i: usize = 0;
        while i < n
            invariant
                i <= n,
                n == self.passes@.len(),
                self.wf(),
                self.passes@ == old(self).spec_passes(),
                self.workgroup_size == old(self).workgroup_size,
                self.dispatch_once == old(self).spec_dispatch_once(),
                self.uses_storage == old(self).spec_uses_storage(),
                self.pipeline_generation == old(self).spec_pipeline_generation(),
                self.fired,
                self.manager@.names == old(self).state().names,
                self.manager@.generation == old(self).state().generation,
                self.manager@.width == old(self).state().width,
                self.manager@.height == old(self).state().height,
                self.manager@.format == old(self).state().format,
                self.manager@.sides.len() == n,
                init.len() == n,
                forall|b: int|
                    0 <= b < n ==> self.manager@.sides[b] == side_before(init, b, i as int, last),
                plan@.len() == i,
                forall|j: int|
                    0 <= j < i ==> invocation_ok(
                        plan@[j],
                        self.passes@,
                        init,
                        j,
                        self.manager@.generation,
                        self.pipeline_generation,
                        self.uses_storage,
                        self.workgroup_size@,
                        self.manager@.width,
                        self.manager@.height,
                    ),
            decreases n - i,
        {
            let grid = self.stage_grid(i);
            let inv = self.resolve_stage(i, grid);
            proof {
                assert(self.manager@.sides[i as int] == side_before(init, i as int, i as int, last));
                assert(invocation_ok(
                    inv,
                    self.passes@,
                    init,
                    i as int,
                    self.manager@.generation,
                    self.pipeline_generation,
                    self.uses_storage,
                    self.workgroup_size@,
                    self.manager@.width,
                    self.manager@.height,
                ));
            }
            plan.push(inv);
            let ghost pre = self.manager@.sides;
            if i + 1 < n {
                self.manager.mark_written_at(i);
            }
            proof {
                assert forall|b: int|
                    0 <= b < n implies self.manager@.sides[b] == side_before(
                        init,
                        b,
                        i as int + 1,
                        last,
                    ) by {
                    assert(pre[b] == side_before(init, b, i as int, last));
                    if i as int + 1 < n {
                        assert(self.manager@.sides == pre.update(i as int, !pre[i as int]));
                    } else {
                        assert(self.manager@.sides == pre);
                    }
                };
            }
            i = i + 1;
        }
        proof {
            assert forall|b: int|
                0 <= b < n implies self.manager@.sides[b] == sides_after_dispatch(init, last)[b] by {
                assert(self.manager@.sides[b] == side_before(init, b, n as int, last));
            };
            assert(self.manager@.sides =~= sides_after_dispatch(init, last));
        }
        plan
    }

    /// Record one stage by itself, with the given workgroup counts: the
    /// escape hatch for algorithms that iterate a single stage a variable
    /// number of times or must submit work between stages. Reads and the
    /// write resolve against the current bits, and the stage's buffer is
    /// committed unless it is the final pass. Does not count as the
    /// pipeline's one-shot frame.
    pub fn dispatch_stage_with_workgroups(&mut self, index: usize, workgroups: [u32; 3]) -> (inv:
        PassInvocation)
        requires
            old(self).wf(),
            index < old(self).spec_passes().len(),
        ensures
            final(self).wf(),
            final(self).spec_passes() == old(self).spec_passes(),
            final(self).state().names == old(self).state().names,
            final(self).state().generation == old(self).state().generation,
            final(self).state().width == old(self).state().width,
            final(self).state().height == old(self).state().height,
            final(self).state().format == old(self).state().format,
            final(self).spec_workgroup() == old(self).spec_workgroup(),
            final(self).spec_dispatch_once() == old(self).spec_dispatch_once(),
            final(self).spec_uses_storage() == old(self).spec_uses_storage(),
            final(self).spec_pipeline_generation() == old(self).spec_pipeline_generation(),
            final(self).spec_fired() == old(self).spec_fired(),
            inv.pass_index == index,
            inv.grid == workgroups,
            inv.pipeline_generation == old(self).spec_pipeline_generation(),
            inv.binds_storage == old(self).spec_uses_storage(),
            (index as int) < old(self).spec_passes().len() - 1 ==> inv.write
                == WriteTarget::Buffer(old(self).state().write_handle(index as int)),
            (index as int) == old(self).spec_passes().len() - 1 ==> inv.write
                == WriteTarget::Output(OutputHandle { generation: old(self).state().generation }),
            inv.reads@.len() == (if old(self).spec_uses_storage() { 0int } else { 3int }),
            forall|k: int|
                0 <= k < inv.reads@.len() ==> inv.reads@[k] == old(self).state().read_handle(
                    slot_buffer(old(self).spec_passes()[index as int], k),
                ),
            (index as int) < old(self).spec_passes().len() - 1 ==> final(self).state().sides
                == old(self).state().sides.update(
                    index as int,
                    !old(self).state().sides[index as int],
                ),
            (index as int) == old(self).spec_passes().len() - 1 ==> final(self).state().sides
                == old(self).state().sides,
    {
        let inv = self.resolve_stage(index, workgroups);
        let n = self.passes.len();
        if index + 1 < n {
            self.manager.mark_written_at(index);
        }
        inv
    }

    /// Record one stage by itself, deriving its grid as [`Self::dispatch`]
    /// would: the pass's override when set, otherwise one workgroup per
    /// tile of the frame.
    pub fn dispatch_stage(&mut self, index: usize) -> (inv: PassInvocation)
        requires
            old(self).wf(),
            index < old(self).spec_passes().len(),
        ensures
            final(self).wf(),
            final(self).spec_passes() == old(self).spec_passes(),
            final(self).state().names == old(self).state().names,
            final(self).state().generation == old(self).state().generation,
            final(self).state().width == old(self).state().width,
            final(self).state().height == old(self).state().height,
            final(self).state().format == old(self).state().format,
            final(self).spec_workgroup() == old(self).spec_workgroup(),
            final(self).spec_dispatch_once() == old(self).spec_dispatch_once(),
            final(self).spec_uses_storage() == old(self).spec_uses_storage(),
            final(self).spec_pipeline_generation() == old(self).spec_pipeline_generation(),
            final(self).spec_fired() == old(self).spec_fired(),
            inv.pass_index == index,
            grid_matches(
                inv.grid@,
                old(self).spec_passes()[index as int],
                old(self).spec_workgroup(),
                old(self).state().width,
                old(self).state().height,
            ),
            inv.pipeline_generation == old(self).spec_pipeline_generation(),
            inv.binds_storage == old(self).spec_uses_storage(),
            (index as int) < old(self).spec_passes().len() - 1 ==> inv.write
                == WriteTarget::Buffer(old(self).state().write_handle(index as int)),
            (index as int) == old(self).spec_passes().len() - 1 ==> inv.write
                == WriteTarget::Output(OutputHandle { generation: old(self).state().generation }),
            inv.reads@.len() == (if old(self).spec_uses_storage() { 0int } else { 3int }),
            forall|k: int|
                0 <= k < inv.reads@.len() ==> inv.reads@[k] == old(self).state().read_handle(
                    slot_buffer(old(self).spec_passes()[index as int], k),
                ),
            (index as int) < old(self).spec_passes().len() - 1 ==> final(self).state().sides
                == old(self).state().sides.update(
                    index as int,
                    !old(self).state().sides[index as int],
                ),
            (index as int) == old(self).spec_passes().len() - 1 ==> final(self).state().sides
                == old(self).state().sides,
    {
        let grid = self.stage_grid(index);
        self.dispatch_stage_with_workgroups(index, grid)
    }

    /// Flip every buffer at once: the cross-frame hand-off, run once after
    /// a displayed frame is submitted.
    pub fn flip_buffers(&mut self)
        requires
            old(self).wf(),
        ensures
            final(self).wf(),
            final(self).spec_passes() == old(self).spec_passes(),
            final(self).state().names == old(self).state().names,
            final(self).state().generation == old(self).state().generation,
            final(self).state().width == old(self).state().width,
            final(self).state().height == old(self).state().height,
            final(self).state().format == old(self).state().format,
            final(self).spec_workgroup() == old(self).spec_workgroup(),
            final(self).spec_dispatch_once() == old(self).spec_dispatch_once(),
            final(self).spec_uses_storage() == old(self).spec_uses_storage(),
            final(self).spec_pipeline_generation() == old(self).spec_pipeline_generation(),
            final(self).spec_fired() == old(self).spec_fired(),
            final(self).state().sides.len() == old(self).state().sides.len(),
            forall|b: int|
                0 <= b < old(self).state().sides.len() ==> final(self).state().sides[b]
                    == !old(self).state().sides[b],
    {
        self.manager.flip_buffers();
    }

    /// Start a fresh allocation round: every bit returns to its initial
    /// side and every previously resolved handle is invalidated.
    pub fn clear_all(&mut self)
        requires
            old(self).wf(),
            old(self).state().generation < u64::MAX,
        ensures
            final(self).wf(),
            final(self).spec_passes() == old(self).spec_passes(),
            final(self).state().names == old(self).state().names,
            final(self).state().generation == old(self).state().generation + 1,
            final(self).state().width == old(self).state().width,
            final(self).state().height == old(self).state().height,
            final(self).state().format == old(self).state().format,
            final(self).spec_workgroup() == old(self).spec_workgroup(),
            final(self).spec_dispatch_once() == old(self).spec_dispatch_once(),
            final(self).spec_uses_storage() == old(self).spec_uses_storage(),
            final(self).spec_pipeline_generation() == old(self).spec_pipeline_generation(),
            final(self).spec_fired() == old(self).spec_fired(),
            final(self).state().sides.len() == old(self).state().sides.len(),
            forall|b: int|
                0 <= b < final(self).state().sides.len() ==> final(self).state().sides[b] == false,
    {
        self.manager.clear_all();
    }

    /// Record new frame dimensions, then start a fresh allocation round.
    pub fn resize(&mut self, width: u32, height: u32)
        requires
            old(self).wf(),
            old(self).state().generation < u64::MAX,
        ensures
            final(self).wf(),
            final(self).spec_passes() == old(self).spec_passes(),
            final(self).state().names == old(self).state().names,
            final(self).state().generation == old(self).state().generation + 1,
            final(self).state().width == width,
            final(self).state().height == height,
            final(self).state().format == old(self).state().format,
            final(self).spec_workgroup() == old(self).spec_workgroup(),
            final(self).spec_dispatch_once() == old(self).spec_dispatch_once(),
            final(self).spec_uses_storage() == old(self).spec_uses_storage(),
            final(self).spec_pipeline_generation() == old(self).spec_pipeline_generation(),
            final(self).spec_fired() == old(self).spec_fired(),
            final(self).state().sides.len() == old(self).state().sides.len(),
            forall|b: int|
                0 <= b < final(self).state().sides.len() ==> final(self).state().sides[b] == false,
    {
        self.manager.resize(width, height);
    }

    /// Take the outcome of one hot-reload attempt. A successful compile
    /// advances the pipeline generation, so later invocations bind the
    /// rebuilt pipelines; a failed compile changes nothing, leaving the
    /// running pipeline intact and skipping the swap.
    pub fn apply_hot_reload(&mut self, compiled: bool)
        requires
            old(self).wf(),
            old(self).spec_pipeline_generation() < u64::MAX,
        ensures
            final(self).wf(),
            final(self).spec_passes() == old(self).spec_passes(),
            final(self).state() == old(self).state(),
            final(self).spec_workgroup() == old(self).spec_workgroup(),
            final(self).spec_dispatch_once() == old(self).spec_dispatch_once(),
            final(self).spec_uses_storage() == old(self).spec_uses_storage(),
            final(self).spec_fired() == old(self).spec_fired(),
            compiled ==> final(self).spec_pipeline_generation()
                == old(self).spec_pipeline_generation() + 1,
            !compiled ==> final(self).spec_pipeline_generation()
                == old(self).spec_pipeline_generation(),
    {
        if compiled {
            self.pipeline_generation = self.pipeline_generation + 1;
        }
    }
}

/// Within one frame, a pass reads exactly what the frame already wrote:
/// when pass `i` reads a buffer owned by a pass `b` declared before it
/// (and not the final pass, which writes the output), the side it reads
/// is the very side pass `b`'s invocation wrote — the most recent write
/// to that name in the same frame.
pub proof fn lemma_read_sees_same_frame_write(init: Seq<bool>, last: int, b: int, i: int)
    requires
        0 <= b < i,
        b != last,
    ensures
        side_before(init, b, i, last) == !side_before(init, b, b, last),
        side_before(init, b, i, last) == !init[b],
{
}

/// No pass observes a write from a pass declared at or after it: when
/// pass `i` reads a buffer owned by a pass `b >= i`, it reads the side
/// the previous frame committed, which is exactly the opposite of the
/// side pass `b` writes in this frame. Self-feedback (`b == i`) is the
/// special case: the pass reads last frame's output while writing the
/// other side.
pub proof fn lemma_later_write_invisible(init: Seq<bool>, last: int, b: int, i: int)
    requires
        0 <= i <= b,
    ensures
        side_before(init, b, i, last) == init[b],
        side_before(init, b, i, last) != !side_before(init, b, b, last),
{
}

/// Over one recorded frame, read bindings and write bindings meet exactly
/// as declaration order dictates: when read slot `k` of pass `i` names a
/// buffer owned by an earlier, non-final pass, the recorded read handle
/// is the very handle that pass's invocation writes; when it names a
/// buffer owned by pass `i` itself or a later pass, the read lands on the
/// side committed before the frame began — never on the side that owner
/// writes in this frame.
pub proof fn lemma_plan_reads_match_writes(
    plan: Seq<PassInvocation>,
    passes: Seq<ResolvedPass>,
    init: Seq<bool>,
    generation: u64,
    pipeline_generation: u64,
    wg: Seq<u32>,
    width: u32,
    height: u32,
    i: int,
    k: int,
)
    requires
        plan.len() == passes.len(),
        forall|j: int|
            0 <= j < plan.len() ==> invocation_ok(
                plan[j],
                passes,
                init,
                j,
                generation,
                pipeline_generation,
                false,
                wg,
                width,
                height,
            ),
        forall|j: int, k2: int|
            0 <= j < passes.len() && 0 <= k2 < passes[j].inputs@.len()
                ==> (passes[j].inputs@[k2] as int) < passes.len(),
        0 <= i < plan.len(),
        0 <= k < plan[i].reads@.len(),
    ensures
        ({
            let b = slot_buffer(passes[i], k);
            let last = passes.len() - 1;
            &&& (b < i && b != last ==> plan[b].write == WriteTarget::Buffer(plan[i].reads@[k]))
            &&& (b >= i ==> plan[i].reads@[k].side == init[b] && (b != last
                ==> plan[b].write != WriteTarget::Buffer(plan[i].reads@[k])))
        }),
{
    let b = slot_buffer(passes[i], k);
    let last = passes.len() - 1;
    assert(invocation_ok(
        plan[i],
        passes,
        init,
        i,
        generation,
        pipeline_generation,
        false,
        wg,
        width,
        height,
    ));
    assert(0 <= b < passes.len());
    assert(invocation_ok(
        plan[b],
        passes,
        init,
        b,
        generation,
        pipeline_generation,
        false,
        wg,
        width,
        height,
    ));
}

/// A self-feedback pass run every frame alternates sides: each frame it
/// writes the side opposite its committed bit, the next frame's self-read
/// lands on exactly the side just written, and after two frames the bit
/// is back where it started.
pub proof fn lemma_self_feedback_alternates(init: Seq<bool>, last: int, b: int)
    requires
        0 <= b < init.len(),
        b != last,
    ensures
        sides_after_dispatch(init, last)[b] == !init[b],
        side_before(sides_after_dispatch(init, last), b, b, last) == !init[b],
        sides_after_dispatch(sides_after_dispatch(init, last), last)[b] == init[b],
{
}

} // verus!
