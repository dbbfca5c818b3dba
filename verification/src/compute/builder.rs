//! Declarative description of compute passes and the configuration builder.
//!
//! A pipeline is declared as an ordered list of passes. Each pass names the
//! buffers it reads; a pass may name itself (temporal feedback) or any other
//! pass, regardless of declaration distance. The builder accumulates the pass
//! list together with optional per-frame resources and freezes the result
//! into an immutable configuration without touching any GPU state.

use vstd::prelude::*;

verus! {

/// Pixel format of the pipeline's storage textures and of its final output.
///
/// The configuration layer only carries the choice; the application maps it
/// to the matching GPU format when it allocates resources.
#[derive(Clone, Copy, Debug, PartialEq, Eq, Structural)]
pub enum TextureFormat {
    Rgba16Float,
    Rgba8Unorm,
    Rgba32Float,
}

/// A single pass in a multi-pass compute pipeline.
///
/// `name` is the kernel entry point; `inputs` are the buffer names the pass
/// reads, mapped by position to the pipeline's input slots. Listing the
/// pass's own name enables temporal feedback: the pass then reads the side
/// it wrote on the previous frame while writing the opposite side.
#[derive(Clone, Debug)]
pub struct PassDescription {
    /// Entry point name; also the name of the buffer this pass writes.
    pub name: String,
    /// Buffer names this pass reads, in slot order (at most three are used).
    pub inputs: Vec<String>,
    /// Optional per-pass dispatch count override. `None` derives the grid
    /// from the frame dimensions and the configured workgroup size; `Some`
    /// is forwarded to the dispatch call unchanged.
    pub workgroup_size: Option<[u32; 3]>,
}

impl PassDescription {
    /// Create a pass description from an entry-point name and its inputs.
    pub fn new(name: &str, inputs: &[&str]) -> (r: Self)
        ensures
            r.name@ == name@,
            r.inputs@.len() == inputs@.len(),
            forall|k: int| 0 <= k < inputs@.len() ==> r.inputs@[k]@ == inputs@[k]@,
            r.workgroup_size is None,
    {
        let mut owned: Vec<String> = Vec::new();
        let mut i: usize = 0;
        while i < inputs.len()
            invariant
                i <= inputs@.len(),
                owned@.len() == i,
                forall|k: int| 0 <= k < i ==> owned@[k]@ == inputs@[k]@,
            decreases inputs@.len() - i,
        {
            owned.push(inputs[i].to_owned());
            i = i + 1;
        }
        PassDescription { name: name.to_owned(), inputs: owned, workgroup_size: None }
    }

    /// Override the dispatch dimensions for this specific pass.
    pub fn with_workgroup_size(self, size: [u32; 3]) -> (r: Self)
        ensures
            r.name@ == self.name@,
            r.inputs@ == self.inputs@,
            r.workgroup_size == Some(size),
    {
        PassDescription { workgroup_size: Some(size), ..self }
    }
}

/// A named, flat, shared read/write buffer: the alternative to image
/// ping-pong when passes need structured shared memory.
#[derive(Clone, Debug)]
pub struct StorageBufferSpec {
    pub name: String,
    pub size_bytes: u64,
}

impl StorageBufferSpec {
    pub fn new(name: &str, size_bytes: u64) -> (r: Self)
        ensures
            r.name@ == name@,
            r.size_bytes == size_bytes,
    {
        StorageBufferSpec { name: name.to_owned(), size_bytes }
    }
}

/// An immutable snapshot of everything a pipeline needs, assembled by
/// [`ComputeShaderBuilder`] and consumed once to create the runtime state.
/// Building it touches no GPU state, so configurations can be constructed
/// and inspected anywhere.
#[derive(Debug)]
pub struct ComputeConfiguration {
    /// Kernel entry points, one pipeline each, in execution order.
    pub entry_points: Vec<String>,
    /// The declared pass list, when the pipeline is multi-pass.
    pub passes: Option<Vec<PassDescription>>,
    /// Size of the caller's uniform block, when one is bound.
    pub custom_uniform_size: Option<u64>,
    /// Whether a single input texture and sampler are bound.
    pub has_input_texture: bool,
    /// Whether the pointer-state uniform is bound.
    pub has_mouse: bool,
    /// Whether the font atlas and its uniform are bound.
    pub has_fonts: bool,
    /// Whether the read/write audio scratch buffer is bound.
    pub has_audio: bool,
    /// Whether the atomic counter buffer is bound.
    pub has_atomic_buffer: bool,
    /// Element count of the audio scratch buffer.
    pub audio_buffer_size: usize,
    /// Whether the read-only audio-spectrum buffer is bound.
    pub has_audio_spectrum: bool,
    /// Element count of the audio-spectrum buffer.
    pub audio_spectrum_size: usize,
    /// User-declared shared read/write buffers.
    pub storage_buffers: Vec<StorageBufferSpec>,
    /// Workgroup size the dispatch grid is derived from.
    pub workgroup_size: [u32; 3],
    /// Whether the pipeline runs once instead of every frame.
    pub dispatch_once: bool,
    /// Pixel format of intermediate buffers and the output.
    pub texture_format: TextureFormat,
    /// Debug label for GPU tooling.
    pub label: String,
    /// Number of external texture channels, when any are bound.
    pub num_channels: Option<u32>,
    /// Kernel source path watched for hot reload, when enabled.
    pub hot_reload_path: Option<String>,
}

/// A mistake in a declared pass list, reported when the configuration is
/// frozen rather than surfacing as a lookup failure on the first frame.
#[derive(Clone, Copy, Debug, PartialEq, Eq, Structural)]
pub enum ConfigError {
    /// Two passes share one name; buffer names must be unique.
    DuplicatePassName { pass_index: usize },
    /// A pass declares more inputs than the pipeline has input slots.
    TooManyInputs { pass_index: usize },
    /// A pass reads a name that no pass in the list produces.
    UnknownInput { pass_index: usize, input_index: usize },
}

/// Whether some pass in the list produces `name`.
pub open spec fn input_resolvable(passes: Seq<PassDescription>, name: Seq<char>) -> bool {
    exists|j: int| 0 <= j < passes.len() && passes[j].name@ == name
}

/// A pass list a manager and driver can be built from: names are unique,
/// no pass declares more than three inputs, and every input names some
/// pass's output — forward references included.
pub open spec fn passes_valid(passes: Seq<PassDescription>) -> bool {
    &&& forall|i: int, j: int|
        0 <= i < j < passes.len() ==> passes[i].name@ != passes[j].name@
    &&& forall|i: int| 0 <= i < passes.len() ==> passes[i].inputs@.len() <= 3
    &&& forall|i: int, k: int|
        0 <= i < passes.len() && 0 <= k < passes[i].inputs@.len()
            ==> input_resolvable(passes, passes[i].inputs@[k]@)
}

/// A configuration the runtime layers accept: its pass list, if any, is
/// valid.
pub open spec fn config_valid(c: ComputeConfiguration) -> bool {
    match c.passes {
        Some(ps) => passes_valid(ps@),
        None => true,
    }
}

/// The verdict on inputs `k..` of pass `i`: the first unresolvable one.
pub open spec fn scan_inputs(passes: Seq<PassDescription>, i: int, k: int) -> Option<ConfigError>
    decreases passes[i].inputs@.len() - k,
{
    if 0 <= i < passes.len() && 0 <= k < passes[i].inputs@.len() {
        if !input_resolvable(passes, passes[i].inputs@[k]@) {
            Some(ConfigError::UnknownInput { pass_index: i as usize, input_index: k as usize })
        } else {
            scan_inputs(passes, i, k + 1)
        }
    } else {
        None
    }
}

/// The verdict on passes `i..`: the first mistake in scan order — for each
/// pass, a duplicated name, then an oversized input list, then its inputs
/// in order.
pub open spec fn scan_passes(passes: Seq<PassDescription>, i: int) -> Option<ConfigError>
    decreases passes.len() - i,
{
    if 0 <= i < passes.len() {
        if exists|j: int| 0 <= j < i && passes[j].name@ == passes[i].name@ {
            Some(ConfigError::DuplicatePassName { pass_index: i as usize })
        } else if passes[i].inputs@.len() > 3 {
            Some(ConfigError::TooManyInputs { pass_index: i as usize })
        } else if scan_inputs(passes, i, 0) is Some {
            scan_inputs(passes, i, 0)
        } else {
            scan_passes(passes, i + 1)
        }
    } else {
        None
    }
}

/// The verdict on a whole pass list.
pub open spec fn validate_passes(passes: Seq<PassDescription>) -> Option<ConfigError> {
    scan_passes(passes, 0)
}

proof fn lemma_scan_inputs_none(passes: Seq<PassDescription>, i: int, k: int)
    requires
        0 <= i < passes.len(),
        0 <= k <= passes[i].inputs@.len(),
        scan_inputs(passes, i, k) is None,
    ensures
        forall|k2: int|
            k <= k2 < passes[i].inputs@.len()
                ==> input_resolvable(passes, passes[i].inputs@[k2]@),
    decreases passes[i].inputs@.len() - k,
{
    if k < passes[i].inputs@.len() {
        lemma_scan_inputs_none(passes, i, k + 1);
    }
}

proof fn lemma_scan_inputs_some(passes: Seq<PassDescription>, i: int, k: int)
    requires
        0 <= i < passes.len(),
        0 <= k <= passes[i].inputs@.len(),
        forall|k2: int|
            k <= k2 < passes[i].inputs@.len()
                ==> input_resolvable(passes, passes[i].inputs@[k2]@),
    ensures
        scan_inputs(passes, i, k) is None,
    decreases passes[i].inputs@.len() - k,
{
    if k < passes[i].inputs@.len() {
        lemma_scan_inputs_some(passes, i, k + 1);
    }
}

proof fn lemma_scan_passes_none(passes: Seq<PassDescription>, i: int)
    requires
        0 <= i <= passes.len(),
        scan_passes(passes, i) is None,
    ensures
        forall|i2: int, j: int|
            i <= i2 < passes.len() && 0 <= j < i2 ==> passes[j].name@ != passes[i2].name@,
        forall|i2: int| i <= i2 < passes.len() ==> passes[i2].inputs@.len() <= 3,
        forall|i2: int, k: int|
            i <= i2 < passes.len() && 0 <= k < passes[i2].inputs@.len()
                ==> input_resolvable(passes, passes[i2].inputs@[k]@),
    decreases passes.len() - i,
{
    if i < passes.len() {
        lemma_scan_inputs_none(passes, i, 0);
        lemma_scan_passes_none(passes, i + 1);
    }
}

proof fn lemma_scan_passes_some(passes: Seq<PassDescription>, i: int)
    requires
        0 <= i <= passes.len(),
        passes_valid(passes),
    ensures
        scan_passes(passes, i) is None,
    decreases passes.len() - i,
{
    if i < passes.len() {
        lemma_scan_inputs_some(passes, i, 0);
        lemma_scan_passes_some(passes, i + 1);
    }
}

/// Freezing a pass list succeeds exactly when the list is valid: the scan
/// reports no mistake if and only if names are unique, no pass declares
/// more than three inputs, and every input is produced by some pass.
pub proof fn lemma_validate_none_iff_valid(passes: Seq<PassDescription>)
    ensures
        validate_passes(passes) is None <==> passes_valid(passes),
{
    if validate_passes(passes) is None {
        lemma_scan_passes_none(passes, 0);
    }
    if passes_valid(passes) {
        lemma_scan_passes_some(passes, 0);
    }
}

/// Whether some pass in the vector produces `key`'s name.
fn any_pass_named(passes: &Vec<PassDescription>, key: &String) -> (r: bool)
    ensures
        r == input_resolvable(passes@, key@),
{
    let mut j: usize = 0;
    while j < passes.len()
        invariant
            j <= passes@.len(),
            forall|j2: int| 0 <= j2 < j ==> passes@[j2].name@ != key@,
        decreases passes@.len() - j,
    {
        if passes[j].name == *key {
            return true;
        }
        j = j + 1;
    }
    false
}

/// Scan a pass list for the first configuration mistake.
#[verifier::loop_isolation(false)]
fn check_passes(passes: &Vec<PassDescription>) -> (r: Option<ConfigError>)
    ensures
        r == validate_passes(passes@),
{
    let n = passes.len();
    let mut i: usize = 0;
    while i < n
        invariant
            i <= n,
            n == passes@.len(),
            scan_passes(passes@, 0) == scan_passes(passes@, i as int),
        decreases n - i,
    {
        let mut j: usize = 0;
        while j < i
            invariant
                j <= i,
                i < passes@.len(),
                forall|j2: int| 0 <= j2 < j ==> passes@[j2].name@ != passes@[i as int].name@,
            decreases i - j,
        {
            if passes[j].name == passes[i].name {
                return Some(ConfigError::DuplicatePassName { pass_index: i });
            }
            j = j + 1;
        }
        if passes[i].inputs.len() > 3 {
            return Some(ConfigError::TooManyInputs { pass_index: i });
        }
        let num_inputs = passes[i].inputs.len();
        let mut k: usize = 0;
        while k < num_inputs
            invariant
                k <= num_inputs,
                i < passes@.len(),
                num_inputs == passes@[i as int].inputs@.len(),
                scan_inputs(passes@, i as int, 0) == scan_inputs(passes@, i as int, k as int),
            decreases num_inputs - k,
        {
            if !any_pass_named(passes, &passes[i].inputs[k]) {
                return Some(ConfigError::UnknownInput { pass_index: i, input_index: k });
            }
            k = k + 1;
        }
        i = i + 1;
    }
    None
}

/// The configuration a fresh builder starts from: one entry point named
/// `main`, no optional resources, a 16 by 16 workgroup, the default pixel
/// format, and per-frame dispatch.
pub open spec fn is_initial_configuration(c: ComputeConfiguration) -> bool {
    &&& c.entry_points@.len() == 1
    &&& c.entry_points@[0]@ == "main"@
    &&& c.passes is None
    &&& c.custom_uniform_size is None
    &&& !c.has_input_texture
    &&& !c.has_mouse
    &&& !c.has_fonts
    &&& !c.has_audio
    &&& !c.has_atomic_buffer
    &&& c.audio_buffer_size == 1024
    &&& !c.has_audio_spectrum
    &&& c.audio_spectrum_size == 128
    &&& c.storage_buffers@.len() == 0
    &&& c.workgroup_size@ == seq![16u32, 16u32, 1u32]
    &&& !c.dispatch_once
    &&& c.texture_format == TextureFormat::Rgba16Float
    &&& c.label@ == "Compute Shader"@
    &&& c.num_channels is None
    &&& c.hot_reload_path is None
}

/// Fluent accumulator for a [`ComputeConfiguration`].
///
/// Calls are not commutative: the last relevant call wins. In particular,
/// declaring a multi-pass list overrides any entry point set earlier, since
/// the entry-point list is derived from the pass list.
pub struct ComputeShaderBuilder {
    config: ComputeConfiguration,
}

impl ComputeShaderBuilder {
    /// The configuration accumulated so far.
    pub closed spec fn cfg(&self) -> ComputeConfiguration {
        self.config
    }

    /// Start from the initial configuration.
    pub fn new() -> (r: Self)
        ensures
            is_initial_configuration(r.cfg()),
    {
        let mut entry_points: Vec<String> = Vec::new();
        entry_points.push("main".to_owned());
        let workgroup_size: [u32; 3] = [16, 16, 1];
        proof {
            assert(workgroup_size@ =~= seq![16u32, 16u32, 1u32]);
        }
        ComputeShaderBuilder {
            config: ComputeConfiguration {
                entry_points,
                passes: None,
                custom_uniform_size: None,
                has_input_texture: false,
                has_mouse: false,
                has_fonts: false,
                has_audio: false,
                has_atomic_buffer: false,
                audio_buffer_size: 1024,
                has_audio_spectrum: false,
                audio_spectrum_size: 128,
                storage_buffers: Vec::new(),
                workgroup_size,
                dispatch_once: false,
                texture_format: TextureFormat::Rgba16Float,
                label: "Compute Shader".to_owned(),
                num_channels: None,
                hot_reload_path: None,
            },
        }
    }

    /// Set the kernel entry point for single-pass pipelines. A later
    /// multi-pass declaration overrides this.
    pub fn with_entry_point(self, entry_point: &str) -> (r: Self)
        ensures
            r.cfg() == (ComputeConfiguration { entry_points: r.cfg().entry_points, ..self.cfg() }),
            r.cfg().entry_points@.len() == 1,
            r.cfg().entry_points@[0]@ == entry_point@,
    {
        let mut entry_points: Vec<String> = Vec::new();
        entry_points.push(entry_point.to_owned());
        ComputeShaderBuilder { config: ComputeConfiguration { entry_points, ..self.config } }
    }

    /// Declare a multi-pass pipeline. Stores the pass list and derives the
    /// entry-point list from it, overriding any entry point set earlier.
    pub fn with_multi_pass(self, passes: Vec<PassDescription>) -> (r: Self)
        ensures
            r.cfg() == (ComputeConfiguration {
                passes: r.cfg().passes,
                entry_points: r.cfg().entry_points,
                ..self.cfg()
            }),
            r.cfg().passes == Some(passes),
            r.cfg().entry_points@.len() == passes@.len(),
            forall|i: int|
                0 <= i < passes@.len() ==> r.cfg().entry_points@[i]@ == passes@[i].name@,
    {
        let mut entry_points: Vec<String> = Vec::new();
        let mut i: usize = 0;
        while i < passes.len()
            invariant
                i <= passes@.len(),
                entry_points@.len() == i,
                forall|k: int| 0 <= k < i ==> entry_points@[k]@ == passes@[k].name@,
            decreases passes@.len() - i,
        {
            entry_points.push(passes[i].name.clone());
            i = i + 1;
        }
        ComputeShaderBuilder {
            config: ComputeConfiguration { passes: Some(passes), entry_points, ..self.config },
        }
    }

    /// Bind a caller-defined uniform block of the given size.
    pub fn with_custom_uniforms(self, size_bytes: u64) -> (r: Self)
        ensures
            r.cfg() == (ComputeConfiguration {
                custom_uniform_size: Some(size_bytes),
                ..self.cfg()
            }),
    {
        ComputeShaderBuilder {
            config: ComputeConfiguration {
                custom_uniform_size: Some(size_bytes),
                ..self.config
            },
        }
    }

    /// Bind a single input texture and sampler.
    pub fn with_input_texture(self) -> (r: Self)
        ensures
            r.cfg() == (ComputeConfiguration { has_input_texture: true, ..self.cfg() }),
    {
        ComputeShaderBuilder {
            config: ComputeConfiguration { has_input_texture: true, ..self.config },
        }
    }

    /// Bind `num_channels` external texture channels.
    pub fn with_channels(self, num_channels: u32) -> (r: Self)
        ensures
            r.cfg() == (ComputeConfiguration { num_channels: Some(num_channels), ..self.cfg() }),
    {
        ComputeShaderBuilder {
            config: ComputeConfiguration { num_channels: Some(num_channels), ..self.config },
        }
    }

    /// Bind the pointer-state uniform.
    pub fn with_mouse(self) -> (r: Self)
        ensures
            r.cfg() == (ComputeConfiguration { has_mouse: true, ..self.cfg() }),
    {
        ComputeShaderBuilder {
            config: ComputeConfiguration { has_mouse: true, ..self.config },
        }
    }

    /// Bind the font atlas and its uniform.
    pub fn with_fonts(self) -> (r: Self)
        ensures
            r.cfg() == (ComputeConfiguration { has_fonts: true, ..self.cfg() }),
    {
        ComputeShaderBuilder {
            config: ComputeConfiguration { has_fonts: true, ..self.config },
        }
    }

    /// Bind a read/write audio scratch buffer of the given element count.
    pub fn with_audio(self, buffer_size: usize) -> (r: Self)
        ensures
            r.cfg() == (ComputeConfiguration {
                has_audio: true,
                audio_buffer_size: buffer_size,
                ..self.cfg()
            }),
    {
        ComputeShaderBuilder {
            config: ComputeConfiguration {
                has_audio: true,
                audio_buffer_size: buffer_size,
                ..self.config
            },
        }
    }

    /// Bind a read-only audio-spectrum buffer of the given element count.
    pub fn with_audio_spectrum(self, spectrum_size: usize) -> (r: Self)
        ensures
            r.cfg() == (ComputeConfiguration {
                has_audio_spectrum: true,
                audio_spectrum_size: spectrum_size,
                ..self.cfg()
            }),
    {
        ComputeShaderBuilder {
            config: ComputeConfiguration {
                has_audio_spectrum: true,
                audio_spectrum_size: spectrum_size,
                ..self.config
            },
        }
    }

    /// Bind an atomic counter buffer.
    pub fn with_atomic_buffer(self) -> (r: Self)
        ensures
            r.cfg() == (ComputeConfiguration { has_atomic_buffer: true, ..self.cfg() }),
    {
        ComputeShaderBuilder {
            config: ComputeConfiguration { has_atomic_buffer: true, ..self.config },
        }
    }

    /// Declare one shared read/write buffer.
    pub fn with_storage_buffer(self, buffer: StorageBufferSpec) -> (r: Self)
        ensures
            r.cfg() == (ComputeConfiguration {
                storage_buffers: r.cfg().storage_buffers,
                ..self.cfg()
            }),
            r.cfg().storage_buffers@ == self.cfg().storage_buffers@.push(buffer),
    {
        let mut config = self.config;
        config.storage_buffers.push(buffer);
        ComputeShaderBuilder { config }
    }

    /// Declare several shared read/write buffers at once.
    pub fn with_storage_buffers(self, buffers: Vec<StorageBufferSpec>) -> (r: Self)
        ensures
            r.cfg() == (ComputeConfiguration {
                storage_buffers: r.cfg().storage_buffers,
                ..self.cfg()
            }),
            r.cfg().storage_buffers@ == self.cfg().storage_buffers@ + buffers@,
    {
        let mut config = self.config;
        let mut buffers = buffers;
        config.storage_buffers.append(&mut buffers);
        ComputeShaderBuilder { config }
    }

    /// Set the workgroup size the dispatch grid is derived from.
    pub fn with_workgroup_size(self, size: [u32; 3]) -> (r: Self)
        ensures
            r.cfg() == (ComputeConfiguration { workgroup_size: size, ..self.cfg() }),
    {
        ComputeShaderBuilder {
            config: ComputeConfiguration { workgroup_size: size, ..self.config },
        }
    }

    /// Run the pipeline only once instead of every frame.
    pub fn dispatch_once(self) -> (r: Self)
        ensures
            r.cfg() == (ComputeConfiguration { dispatch_once: true, ..self.cfg() }),
    {
        ComputeShaderBuilder {
            config: ComputeConfiguration { dispatch_once: true, ..self.config },
        }
    }

    /// Set the pixel format of intermediate buffers and the output.
    pub fn with_texture_format(self, format: TextureFormat) -> (r: Self)
        ensures
            r.cfg() == (ComputeConfiguration { texture_format: format, ..self.cfg() }),
    {
        ComputeShaderBuilder {
            config: ComputeConfiguration { texture_format: format, ..self.config },
        }
    }

    /// Set a debug label.
    pub fn with_label(self, label: &str) -> (r: Self)
        ensures
            r.cfg() == (ComputeConfiguration { label: r.cfg().label, ..self.cfg() }),
            r.cfg().label@ == label@,
    {
        ComputeShaderBuilder {
            config: ComputeConfiguration { label: label.to_owned(), ..self.config },
        }
    }

    /// Watch a kernel source path for hot reload.
    pub fn with_hot_reload(self, shader_path: &str) -> (r: Self)
        ensures
            r.cfg() == (ComputeConfiguration {
                hot_reload_path: r.cfg().hot_reload_path,
                ..self.cfg()
            }),
            r.cfg().hot_reload_path matches Some(p) && p@ == shader_path@,
    {
        ComputeShaderBuilder {
            config: ComputeConfiguration {
                hot_reload_path: Some(shader_path.to_owned()),
                ..self.config
            },
        }
    }

    /// Freeze the accumulated configuration. Succeeds exactly when the
    /// declared pass list, if any, is free of configuration mistakes; the
    /// reported error is the first one in scan order.
    pub fn build(self) -> (r: Result<ComputeConfiguration, ConfigError>)
        ensures
            match r {
                Ok(c) => {
                    &&& c == self.cfg()
                    &&& config_valid(c)
                    &&& match self.cfg().passes {
                        Some(ps) => validate_passes(ps@) is None,
                        None => true,
                    }
                },
                Err(e) => match self.cfg().passes {
                    Some(ps) => validate_passes(ps@) == Some(e),
                    None => false,
                },
            },
    {
        match &self.config.passes {
            Some(ps) => {
                if let Some(e) = check_passes(ps) {
                    return Err(e);
                }
                proof {
                    lemma_validate_none_iff_valid(self.config.passes.unwrap()@);
                }
            },
            None => {},
        }
        Ok(self.config)
    }
}

/// One optional per-frame resource that receives binding slots.
#[derive(Clone, Copy, Debug, PartialEq, Eq, Structural)]
pub enum AuxResource {
    /// Pointer-state uniform.
    Mouse,
    /// Font atlas and its uniform.
    Fonts,
    /// Read/write audio scratch buffer.
    Audio,
    /// Read-only audio-spectrum buffer.
    AudioSpectrum,
    /// Atomic counter buffer.
    AtomicBuffer,
    /// One external texture channel and its sampler.
    Channel,
}

/// Position of a resource kind in the fixed assignment order.
pub open spec fn aux_rank(a: AuxResource) -> int {
    match a {
        AuxResource::Mouse => 0,
        AuxResource::Fonts => 1,
        AuxResource::Audio => 2,
        AuxResource::AudioSpectrum => 3,
        AuxResource::AtomicBuffer => 4,
        AuxResource::Channel => 5,
    }
}

/// How many binding slots one resource of this kind occupies: textures
/// bring a sampler or uniform with them, plain buffers take one slot.
pub open spec fn aux_binding_count(a: AuxResource) -> int {
    match a {
        AuxResource::Mouse => 1,
        AuxResource::Fonts => 2,
        AuxResource::Audio => 1,
        AuxResource::AudioSpectrum => 1,
        AuxResource::AtomicBuffer => 1,
        AuxResource::Channel => 2,
    }
}

/// The ordered descriptor list of enabled optional resources: pointer
/// state, then fonts, audio, spectrum, atomics, and finally one entry per
/// external channel. Only enabled resources appear, so enabling a
/// different combination shifts slot numbers; callers may rely on the
/// relative order alone.
pub open spec fn spec_aux_order(c: ComputeConfiguration) -> Seq<AuxResource> {
    (if c.has_mouse {
        seq![AuxResource::Mouse]
    } else {
        Seq::empty()
    }) + (if c.has_fonts {
        seq![AuxResource::Fonts]
    } else {
        Seq::empty()
    }) + (if c.has_audio {
        seq![AuxResource::Audio]
    } else {
        Seq::empty()
    }) + (if c.has_audio_spectrum {
        seq![AuxResource::AudioSpectrum]
    } else {
        Seq::empty()
    }) + (if c.has_atomic_buffer {
        seq![AuxResource::AtomicBuffer]
    } else {
        Seq::empty()
    }) + (match c.num_channels {
        Some(n) => Seq::new(n as nat, |i: int| AuxResource::Channel),
        None => Seq::empty(),
    })
}

/// Materialize the descriptor list for a configuration.
pub fn aux_resource_order(c: &ComputeConfiguration) -> (r: Vec<AuxResource>)
    ensures
        r@ == spec_aux_order(*c),
{
    let mut r: Vec<AuxResource> = Vec::new();
    if c.has_mouse {
        r.push(AuxResource::Mouse);
    }
    if c.has_fonts {
        r.push(AuxResource::Fonts);
    }
    if c.has_audio {
        r.push(AuxResource::Audio);
    }
    if c.has_audio_spectrum {
        r.push(AuxResource::AudioSpectrum);
    }
    if c.has_atomic_buffer {
        r.push(AuxResource::AtomicBuffer);
    }
    let ghost prefix = r@;
    if let Some(n) = c.num_channels {
        let mut i: u32 = 0;
        while i < n
            invariant
                i <= n,
                r@ == prefix + Seq::new(i as nat, |k: int| AuxResource::Channel),
            decreases n - i,
        {
            r.push(AuxResource::Channel);
            proof {
                assert(r@ =~= prefix + Seq::new((i + 1) as nat, |k: int| AuxResource::Channel));
            }
            i = i + 1;
        }
    }
    proof {
        assert(r@ =~= spec_aux_order(*c));
    }
    r
}

/// The descriptor list is always sorted by the fixed assignment order:
/// whatever combination of resources is enabled, two enabled resources
/// keep their relative order.
pub proof fn lemma_aux_order_fixed(c: ComputeConfiguration)
    ensures
        forall|i: int, j: int|
            0 <= i < j < spec_aux_order(c).len()
                ==> aux_rank(spec_aux_order(c)[i]) <= aux_rank(spec_aux_order(c)[j]),
{
}

impl Default for ComputeShaderBuilder {
    /// Same as [`ComputeShaderBuilder::new`].
    fn default() -> (r: Self)
        ensures
            is_initial_configuration(r.cfg()),
    {
        ComputeShaderBuilder::new()
    }
}

} // verus!
