//! Inference settings for the transcription engine: accelerator choice, compute
//! devices, the decision to (re)load a model, and the batch prompt.
use vstd::prelude::*;
use crate::words::{ascii_lowercase, cleaned, clean_words, join_sep, join_strings, str_eq, string_seqs, to_ascii_lowercase_str, trim, trimmed};

verus! {

/// User-facing inference accelerator selection.
#[derive(Clone, Copy, Debug, PartialEq, Eq, Structural)]
pub enum Accelerator {
    Auto,
    Cpu,
    Gpu,
}

/// The compute backends the engine can load a model on.
#[derive(Clone, Copy, Debug, PartialEq, Eq, Structural)]
pub enum Backend {
    Auto,
    Cpu,
    Vulkan,
    Metal,
}

/// The message for a value that is not an accelerator name.
pub open spec fn invalid_accelerator_message(value: Seq<char>) -> Seq<char> {
    "invalid accelerator '"@ + value + "'; expected auto, cpu, or gpu"@
}

/// What `Accelerator::parse` gives for `value`.
pub open spec fn spec_parse_accelerator(value: Seq<char>) -> Result<Accelerator, Seq<char>> {
    let name = ascii_lowercase(trimmed(value));
    if name == "auto"@ {
        Ok(Accelerator::Auto)
    } else if name == "cpu"@ {
        Ok(Accelerator::Cpu)
    } else if name == "gpu"@ {
        Ok(Accelerator::Gpu)
    } else {
        Err(invalid_accelerator_message(value))
    }
}

impl Accelerator {
    /// Parses the native settings value: `auto`, `cpu` or `gpu`, ignoring
    /// surrounding white space and ASCII case.
    pub fn parse(value: &str) -> (res: Result<Self, String>)
        ensures
            match spec_parse_accelerator(value@) {
                Ok(a) => res == Ok::<Accelerator, String>(a),
                Err(m) => res matches Err(e) && e@ == m,
            },
    {
        let t = trim(value);
        let name = to_ascii_lowercase_str(t.as_str());
        if str_eq(name.as_str(), "auto") {
            Ok(Accelerator::Auto)
        } else if str_eq(name.as_str(), "cpu") {
            Ok(Accelerator::Cpu)
        } else if str_eq(name.as_str(), "gpu") {
            Ok(Accelerator::Gpu)
        } else {
            let mut message = String::from_str("invalid accelerator '");
            message.append(value);
            message.append("'; expected auto, cpu, or gpu");
            Err(message)
        }
    }

    /// The backend a model is loaded on: the GPU backend is Metal on macOS and
    /// Vulkan elsewhere.
    pub fn backend(self, macos: bool) -> (b: Backend)
        ensures
            b == match self {
                Accelerator::Auto => Backend::Auto,
                Accelerator::Cpu => Backend::Cpu,
                Accelerator::Gpu => if macos { Backend::Metal } else { Backend::Vulkan },
            },
    {
        match self {
            Accelerator::Auto => Backend::Auto,
            Accelerator::Cpu => Backend::Cpu,
            Accelerator::Gpu => if macos { Backend::Metal } else { Backend::Vulkan },
        }
    }
}

impl Backend {
    /// The backend's name as its `Debug` form prints it.
    pub fn name(self) -> (n: &'static str)
        ensures
            n@ == match self {
                Backend::Auto => "Auto"@,
                Backend::Cpu => "Cpu"@,
                Backend::Vulkan => "Vulkan"@,
                Backend::Metal => "Metal"@,
            },
    {
        match self {
            Backend::Auto => "Auto",
            Backend::Cpu => "Cpu",
            Backend::Vulkan => "Vulkan",
            Backend::Metal => "Metal",
        }
    }
}

/// Model-load settings that form part of the resident model's identity.
#[derive(Clone, Copy, Debug, PartialEq, Eq, Structural)]
pub struct InferenceConfig {
    pub accelerator: Accelerator,
    /// Backend registry index; zero asks the backend to choose.
    pub gpu_device: i32,
}

impl Default for InferenceConfig {
    fn default() -> (c: Self)
        ensures
            c.accelerator == Accelerator::Auto,
            c.gpu_device == 0,
    {
        InferenceConfig { accelerator: Accelerator::Auto, gpu_device: 0 }
    }
}

/// A snapshot of the live text while streaming: `committed` is the
/// append-only prefix, `tentative` the suffix the model may still rewrite.
pub struct StreamText {
    pub committed: String,
    pub tentative: String,
}

/// A device as the inference backend reports it.
pub struct BackendDevice {
    /// Registry index; devices without one cannot be selected.
    pub index: Option<usize>,
    /// A stable identifier, when the backend has one.
    pub device_id: Option<String>,
    pub kind: String,
    pub name: String,
    pub description: String,
    pub memory_total: u64,
}

/// A compute device as the settings present and persist it.
pub struct ComputeDevice {
    /// Persisted identifier.
    pub id: String,
    /// Current registry position.
    pub index: usize,
    pub name: String,
    pub kind: String,
    pub memory: u64,
}

/// `c` presents backend device `d`: the backend id, or `kind:name` when it has
/// none; the description as the name unless it is empty.
pub open spec fn presents(c: ComputeDevice, d: BackendDevice) -> bool {
    &&& d.index == Some(c.index)
    &&& c.id@ == match d.device_id {
        Some(id) => id@,
        None => d.kind@ + ":"@ + d.name@,
    }
    &&& c.name@ == if d.description@.len() == 0 { d.name@ } else { d.description@ }
    &&& c.kind@ == d.kind@
    &&& c.memory == d.memory_total
}

impl ComputeDevice {
    /// The presentation of a backend device; `None` when it has no registry index.
    pub fn from_backend(d: &BackendDevice) -> (c: Option<ComputeDevice>)
        ensures
            c is Some <==> d.index is Some,
            c matches Some(c) ==> presents(c, *d),
    {
        let index = match d.index {
            Some(i) => i,
            None => return None,
        };
        let id = match &d.device_id {
            Some(id) => String::from_str(id.as_str()),
            None => {
                let mut id = String::from_str(d.kind.as_str());
                id.append(":");
                id.append(d.name.as_str());
                id
            },
        };
        let name = if d.description.as_str().is_empty() {
            String::from_str(d.name.as_str())
        } else {
            String::from_str(d.description.as_str())
        };
        Some(ComputeDevice { id, index, name, kind: String::from_str(d.kind.as_str()), memory: d.memory_total })
    }
}

/// The backend devices that have a registry index, in order.
pub open spec fn selectable(ds: Seq<BackendDevice>) -> Seq<BackendDevice> {
    ds.filter(|d: BackendDevice| d.index is Some)
}

/// The selectable devices among those the backend reports, presented for settings.
pub fn compute_devices(devices: &[BackendDevice]) -> (out: Vec<ComputeDevice>)
    ensures
        out@.len() == selectable(devices@).len(),
        forall|k: int| 0 <= k < out@.len() ==> presents(#[trigger] out@[k], selectable(devices@)[k]),
{
    let ghost keep = |d: BackendDevice| d.index is Some;
    let mut out: Vec<ComputeDevice> = Vec::new();
    let mut i: usize = 0;
    while i < devices.len()
        invariant
            i <= devices.len(),
            keep == (|d: BackendDevice| d.index is Some),
            out@.len() == devices@.take(i as int).filter(keep).len(),
            forall|k: int| 0 <= k < out@.len() ==> presents(#[trigger] out@[k], devices@.take(i as int).filter(keep)[k]),
        decreases devices.len() - i,
    {
        let d = &devices[i];
        proof {
            assert(devices@.take(i + 1) =~= devices@.take(i as int).push(*d));
            devices@.take(i as int).lemma_filter_push(*d, keep);
        }
        match ComputeDevice::from_backend(d) {
            Some(c) => {
                let ghost before = devices@.take(i as int).filter(keep);
                out.push(c);
                assert forall|k: int| 0 <= k < out@.len() implies presents(#[trigger] out@[k], before.push(*d)[k]) by {
                    if k < out@.len() - 1 {
                        assert(before.push(*d)[k] == before[k]);
                    }
                }
            },
            None => {},
        }
        i = i + 1;
    }
    assert(devices@.take(devices.len() as int) =~= devices@);
    out
}

/// `i` is the first device whose id is `id`.
pub open spec fn first_device_with_id(ds: Seq<ComputeDevice>, id: Seq<char>, i: int) -> bool {
    &&& 0 <= i < ds.len()
    &&& ds[i].id@ == id
    &&& forall|j: int| 0 <= j < i ==> #[trigger] ds[j].id@ != id
}

/// What a persisted compute-device id resolves to: automatic selection (0) for
/// an empty id; the registry index of the first device with that id; or the
/// error for a device that is gone or an index that does not fit an `i32`.
pub open spec fn resolution(id: Seq<char>, ds: Seq<ComputeDevice>) -> Result<i32, Seq<char>> {
    if id.len() == 0 {
        Ok(0)
    } else if exists|i: int| first_device_with_id(ds, id, i) {
        let i = choose|i: int| first_device_with_id(ds, id, i);
        if ds[i].index <= i32::MAX {
            Ok(ds[i].index as i32)
        } else {
            Err("compute device index exceeds i32 range"@)
        }
    } else {
        Err("selected compute device '"@ + id + "' is unavailable"@)
    }
}

/// Resolves a persisted compute-device id to the current registry index.
pub fn resolve_compute_device(id: &str, devices: &[ComputeDevice]) -> (res: Result<i32, String>)
    ensures
        match resolution(id@, devices@) {
            Ok(n) => res == Ok::<i32, String>(n),
            Err(m) => res matches Err(e) && e@ == m,
        },
{
    if id.is_empty() {
        return Ok(0);
    }
    let mut i: usize = 0;
    while i < devices.len()
        invariant
            i <= devices.len(),
            id@.len() > 0,
            forall|j: int| 0 <= j < i ==> #[trigger] devices@[j].id@ != id@,
        decreases devices.len() - i,
    {
        if str_eq(devices[i].id.as_str(), id) {
            let index = devices[i].index;
            assert(first_device_with_id(devices@, id@, i as int));
            assert forall|k: int| first_device_with_id(devices@, id@, k) implies k == i by {
                if k < i {
                } else if k > i {
                    assert(devices@[i as int].id@ == id@);
                }
            }
            let ghost chosen = choose|k: int| first_device_with_id(devices@, id@, k);
            assert(chosen == i);
            if index <= 0x7fff_ffff {
                return Ok(index as i32);
            } else {
                return Err(String::from_str("compute device index exceeds i32 range"));
            }
        }
        i = i + 1;
    }
    assert(!exists|k: int| first_device_with_id(devices@, id@, k));
    let mut message = String::from_str("selected compute device '");
    message.append(id);
    message.append("' is unavailable");
    Err(message)
}

/// Whether the model `model_id` with `inference` is already resident, so loading
/// it again is a no-op.
pub fn is_resident(
    current_model: Option<&str>,
    current_inference: Option<InferenceConfig>,
    session_loaded: bool,
    model_id: &str,
    inference: InferenceConfig,
) -> (resident: bool)
    ensures
        resident == ((current_model matches Some(m) && m@ == model_id@) && current_inference == Some(inference)
            && session_loaded),
{
    let same_model = match current_model {
        Some(m) => str_eq(m, model_id),
        None => false,
    };
    let same_inference = match current_inference {
        Some(c) => c.accelerator == inference.accelerator && c.gpu_device == inference.gpu_device,
        None => false,
    };
    same_model && same_inference && session_loaded
}

/// Checks a model load request before touching the engine: the device index
/// must be 0 (automatic) or positive, and a GPU request needs its backend.
pub fn check_load_request(inference: InferenceConfig, backend: Backend, backend_available: bool) -> (res: Result<(), String>)
    ensures
        inference.gpu_device < 0 ==> (res matches Err(e)
            && e@ == "gpu device index must be 0 (auto) or a positive registry index"@),
        inference.gpu_device >= 0 && inference.accelerator == Accelerator::Gpu && !backend_available ==>
            (res matches Err(e) && e@ == "requested GPU backend "@ + match backend {
                Backend::Auto => "Auto"@,
                Backend::Cpu => "Cpu"@,
                Backend::Vulkan => "Vulkan"@,
                Backend::Metal => "Metal"@,
            } + " is unavailable"@),
        inference.gpu_device >= 0 && !(inference.accelerator == Accelerator::Gpu && !backend_available) ==> res is Ok,
{
    if inference.gpu_device < 0 {
        return Err(String::from_str("gpu device index must be 0 (auto) or a positive registry index"));
    }
    if inference.accelerator == Accelerator::Gpu && !backend_available {
        let mut message = String::from_str("requested GPU backend ");
        message.append(backend.name());
        message.append(" is unavailable");
        return Err(message);
    }
    Ok(())
}

/// The decode-time prompt built from the custom words: each trimmed, empty
/// ones dropped, joined with `", "`.
pub fn initial_prompt(custom_words: &[String]) -> (prompt: String)
    ensures
        prompt@ == join_sep(cleaned(string_seqs(custom_words@)), ", "@),
{
    let words = clean_words(custom_words);
    join_strings(words.as_slice(), ", ")
}

} // verus!
