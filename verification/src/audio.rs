//! Audio input decisions: device identifiers, capture configuration, and the
//! classification of microphone errors.
use vstd::prelude::*;
use crate::chars::{decimal, lowercase, to_lowercase, u64_to_decimal};
use crate::words::{contains_str, occurs_in, str_eq};

verus! {

// ------------------------------------------------------------------ devices

/// How often `x` occurs in `s`.
pub open spec fn occurrences(s: Seq<Seq<char>>, x: Seq<char>) -> nat
    decreases s.len(),
{
    if s.len() == 0 {
        0
    } else {
        occurrences(s.drop_last(), x) + if s.last() == x { 1nat } else { 0nat }
    }
}

/// The identifier of the input device at position `i`: its name for the first
/// device with that name, `name#k` for the k-th one.
pub open spec fn input_device_id(names: Seq<Seq<char>>, i: int) -> Seq<char> {
    let k = occurrences(names.take(i + 1), names[i]);
    if k == 1 { names[i] } else { names[i] + "#"@ + decimal(k) }
}

/// An audio device as the settings list it.
pub struct DeviceListing {
    /// Persisted identifier.
    pub id: String,
    pub name: String,
    /// Whether this is the system's default device.
    pub is_default: bool,
}

pub open spec fn name_seqs(ss: Seq<String>) -> Seq<Seq<char>> {
    ss.map_values(|s: String| s@)
}

/// Whether `name` is the default device's name.
pub open spec fn is_default_name(name: Seq<char>, default_name: Option<&str>) -> bool {
    default_name matches Some(d) && d@ == name
}

fn count_in_prefix(names: &[String], upto: usize, name: &str) -> (n: usize)
    requires
        upto <= names.len(),
    ensures
        n == occurrences(name_seqs(names@).take(upto as int), name@),
{
    let ghost ns = name_seqs(names@);
    let mut n: usize = 0;
    let mut j: usize = 0;
    while j < upto
        invariant
            j <= upto <= names.len(),
            ns == name_seqs(names@),
            n == occurrences(ns.take(j as int), name@),
            n <= j,
        decreases upto - j,
    {
        assert(ns.take(j + 1).drop_last() =~= ns.take(j as int));
        assert(ns.take(j + 1).last() == names@[j as int]@);
        if str_eq(names[j].as_str(), name) {
            n = n + 1;
        }
        j = j + 1;
    }
    n
}

/// Lists input devices by name: each gets an identifier that stays the same
/// across enumerations (its name, with `#k` for the k-th duplicate) and is
/// marked default when its name is the default device's.
pub fn input_device_listing(names: &[String], default_name: Option<&str>) -> (list: Vec<DeviceListing>)
    ensures
        list@.len() == names@.len(),
        forall|i: int| 0 <= i < names@.len() ==> {
            &&& (#[trigger] list@[i]).id@ == input_device_id(name_seqs(names@), i)
            &&& list@[i].name@ == names@[i]@
            &&& list@[i].is_default == is_default_name(names@[i]@, default_name)
        },
{
    let mut list: Vec<DeviceListing> = Vec::new();
    let mut i: usize = 0;
    while i < names.len()
        invariant
            i <= names.len(),
            list@.len() == i,
            forall|k: int| 0 <= k < i ==> {
                &&& (#[trigger] list@[k]).id@ == input_device_id(name_seqs(names@), k)
                &&& list@[k].name@ == names@[k]@
                &&& list@[k].is_default == is_default_name(names@[k]@, default_name)
            },
        decreases names.len() - i,
    {
        let name = names[i].as_str();
        let count = count_in_prefix(names, i + 1, name);
        assert(name_seqs(names@)[i as int] == names@[i as int]@);
        let id = if count == 1 {
            String::from_str(name)
        } else {
            let mut id = String::from_str(name);
            id.append("#");
            let digits = u64_to_decimal(count as u64);
            id.append(digits.as_str());
            id
        };
        let is_default = match default_name {
            Some(d) => str_eq(d, name),
            None => false,
        };
        list.push(DeviceListing { id, name: String::from_str(name), is_default });
        i = i + 1;
    }
    list
}

/// Lists output devices: each is identified by its position.
pub fn output_device_listing(names: &[String], default_name: Option<&str>) -> (list: Vec<DeviceListing>)
    ensures
        list@.len() == names@.len(),
        forall|i: int| 0 <= i < names@.len() ==> {
            &&& (#[trigger] list@[i]).id@ == decimal(i as nat)
            &&& list@[i].name@ == names@[i]@
            &&& list@[i].is_default == is_default_name(names@[i]@, default_name)
        },
{
    let mut list: Vec<DeviceListing> = Vec::new();
    let mut i: usize = 0;
    while i < names.len()
        invariant
            i <= names.len(),
            list@.len() == i,
            forall|k: int| 0 <= k < i ==> {
                &&& (#[trigger] list@[k]).id@ == decimal(k as nat)
                &&& list@[k].name@ == names@[k]@
                &&& list@[k].is_default == is_default_name(names@[k]@, default_name)
            },
        decreases names.len() - i,
    {
        let name = names[i].as_str();
        let id = u64_to_decimal(i as u64);
        let is_default = match default_name {
            Some(d) => str_eq(d, name),
            None => false,
        };
        list.push(DeviceListing { id, name: String::from_str(name), is_default });
        i = i + 1;
    }
    list
}

/// The position of the first listed device with identifier `id`, or the error
/// telling the user to pick a device again.
pub fn find_device(list: &[DeviceListing], id: &str) -> (found: Result<usize, String>)
    ensures
        found matches Ok(i) ==> i < list@.len() && list@[i as int].id@ == id@
            && forall|j: int| 0 <= j < i ==> #[trigger] list@[j].id@ != id@,
        found is Err ==> forall|j: int| 0 <= j < list@.len() ==> #[trigger] list@[j].id@ != id@,
        found matches Err(e) ==> e@ == "input device id '"@ + id@
            + "' is unavailable; enumerate devices again and select a valid id"@,
{
    let mut i: usize = 0;
    while i < list.len()
        invariant
            i <= list.len(),
            forall|j: int| 0 <= j < i ==> #[trigger] list@[j].id@ != id@,
        decreases list.len() - i,
    {
        if str_eq(list[i].id.as_str(), id) {
            return Ok(i);
        }
        i = i + 1;
    }
    let mut message = String::from_str("input device id '");
    message.append(id);
    message.append("' is unavailable; enumerate devices again and select a valid id");
    Err(message)
}

// ------------------------------------------------------------- capture setup

/// Sample formats an input device can deliver.
#[derive(Clone, Copy, Debug, PartialEq, Eq, Structural)]
pub enum SampleFormat {
    I8,
    I16,
    I32,
    I64,
    U8,
    U16,
    U32,
    U64,
    F32,
    F64,
}

impl SampleFormat {
    /// Preference when several configurations fit: `f32`, then `i16`, then `i32`, then the rest.
    pub open spec fn spec_score(self) -> u8 {
        match self {
            SampleFormat::F32 => 4,
            SampleFormat::I16 => 3,
            SampleFormat::I32 => 2,
            _ => 1,
        }
    }

    pub fn score(self) -> (s: u8)
        ensures
            s == self.spec_score(),
    {
        match self {
            SampleFormat::F32 => 4,
            SampleFormat::I16 => 3,
            SampleFormat::I32 => 2,
            _ => 1,
        }
    }

    /// Whether capture can be built for this format.
    pub fn is_capturable(self) -> (ok: bool)
        ensures
            ok == (self == SampleFormat::U8 || self == SampleFormat::I8 || self == SampleFormat::I16
                || self == SampleFormat::I32 || self == SampleFormat::F32),
    {
        match self {
            SampleFormat::U8 | SampleFormat::I8 | SampleFormat::I16 | SampleFormat::I32 | SampleFormat::F32 => true,
            _ => false,
        }
    }
}

/// A range of configurations a device supports.
#[derive(Clone, Copy, Debug)]
pub struct ConfigRange {
    pub min_sample_rate: u32,
    pub max_sample_rate: u32,
    pub format: SampleFormat,
}

pub open spec fn covers(r: ConfigRange, rate: u32) -> bool {
    r.min_sample_rate <= rate && rate <= r.max_sample_rate
}

/// `i` is the configuration to use at `rate`: it covers the rate, no covering
/// one scores higher, and every covering one before it scores lower.
pub open spec fn is_preferred(ranges: Seq<ConfigRange>, rate: u32, i: int) -> bool {
    &&& 0 <= i < ranges.len()
    &&& covers(ranges[i], rate)
    &&& forall|j: int| 0 <= j < ranges.len() && covers(#[trigger] ranges[j], rate)
        ==> ranges[j].format.spec_score() <= ranges[i].format.spec_score()
    &&& forall|j: int| 0 <= j < i && covers(#[trigger] ranges[j], rate)
        ==> ranges[j].format.spec_score() < ranges[i].format.spec_score()
}

/// Picks the supported configuration for the device's native `rate`: among the
/// ranges that cover it, the best-scoring format, the first one on ties.
/// `None` when no range covers the rate.
pub fn preferred_config(ranges: &[ConfigRange], rate: u32) -> (pick: Option<usize>)
    ensures
        pick matches Some(i) ==> is_preferred(ranges@, rate, i as int),
        pick is None ==> forall|j: int| 0 <= j < ranges@.len() ==> !covers(#[trigger] ranges@[j], rate),
{
    let mut best: Option<usize> = None;
    let mut i: usize = 0;
    while i < ranges.len()
        invariant
            i <= ranges.len(),
            best is None ==> forall|j: int| 0 <= j < i ==> !covers(#[trigger] ranges@[j], rate),
            best matches Some(b) ==> b < i && covers(ranges@[b as int], rate)
                && (forall|j: int| 0 <= j < i && covers(#[trigger] ranges@[j], rate)
                    ==> ranges@[j].format.spec_score() <= ranges@[b as int].format.spec_score())
                && (forall|j: int| 0 <= j < b && covers(#[trigger] ranges@[j], rate)
                    ==> ranges@[j].format.spec_score() < ranges@[b as int].format.spec_score()),
        decreases ranges.len() - i,
    {
        let r = ranges[i];
        if r.min_sample_rate <= rate && rate <= r.max_sample_rate {
            match best {
                None => {
                    best = Some(i);
                },
                Some(b) => {
                    if r.format.score() > ranges[b].format.score() {
                        best = Some(i);
                    }
                },
            }
        }
        i = i + 1;
    }
    best
}

/// Whether the stream configuration cached for `cached_device` can be reused
/// for the device named `device_name`: only for the same, non-empty name.
pub fn reuses_cached_config(device_name: &str, cached_device: Option<&str>) -> (reuse: bool)
    ensures
        reuse == (device_name@.len() > 0 && (cached_device matches Some(c) && c@ == device_name@)),
{
    match cached_device {
        Some(c) => !device_name.is_empty() && str_eq(c, device_name),
        None => false,
    }
}

/// Whether a freshly queried configuration is remembered for the device: when
/// it was not taken from the cache and the device has a name.
pub fn caches_config(was_cached: bool, device_name: &str) -> (cache: bool)
    ensures
        cache == (!was_cached && device_name@.len() > 0),
{
    !was_cached && !device_name.is_empty()
}

/// The channel captured: the selected one when the device has it, otherwise
/// `None` (all channels are averaged).
pub fn channel_to_use(selected: Option<usize>, channels: usize) -> (ch: Option<usize>)
    ensures
        ch == match selected {
            Some(c) => if c < channels { Some(c) } else { None },
            None => None,
        },
{
    match selected {
        Some(c) => if c < channels { Some(c) } else { None },
        None => None,
    }
}

/// Window sizes the level meter can analyse.
pub open spec fn window_sizes() -> Seq<usize> {
    seq![256usize, 512usize, 1024usize, 2048usize]
}

pub open spec fn distance(a: int, b: int) -> int {
    if a >= b { a - b } else { b - a }
}

/// The level meter's analysis window for an input rate: the size closest to
/// about 33 ms of input, the smaller one on ties.
pub fn visualizer_window(sample_rate: u32) -> (w: usize)
    ensures
        window_sizes().contains(w),
        forall|k: int| 0 <= k < 4 ==> distance(w as int, (sample_rate as int + 15) / 30)
            <= distance(#[trigger] window_sizes()[k] as int, (sample_rate as int + 15) / 30),
        forall|k: int| 0 <= k < 4 && window_sizes()[k] < w ==> distance(w as int, (sample_rate as int + 15) / 30)
            < distance(#[trigger] window_sizes()[k] as int, (sample_rate as int + 15) / 30),
{
    let target: u64 = (sample_rate as u64 + 15) / 30;
    let sizes: [u64; 4] = [256, 512, 1024, 2048];
    let mut best: u64 = 256;
    let mut best_distance: u64 = if target >= 256 { target - 256 } else { 256 - target };
    let mut k: usize = 1;
    while k < 4
        invariant
            1 <= k <= 4,
            sizes@ == seq![256u64, 512u64, 1024u64, 2048u64],
            target == (sample_rate as int + 15) / 30,
            exists|m: int| 0 <= m < k && sizes@[m] == best,
            best_distance == distance(best as int, target as int),
            forall|m: int| 0 <= m < k ==> best_distance <= distance(#[trigger] sizes@[m] as int, target as int),
            forall|m: int| 0 <= m < k && sizes@[m] < best ==> best_distance < distance(#[trigger] sizes@[m] as int, target as int),
        decreases 4 - k,
    {
        let size = sizes[k];
        let d = if target >= size { target - size } else { size - target };
        if d < best_distance {
            best = size;
            best_distance = d;
        }
        k = k + 1;
    }
    assert(window_sizes().contains(best as usize)) by {
        let m = choose|m: int| 0 <= m < 4 && sizes@[m] == best;
        assert(window_sizes()[m] == best as usize);
    }
    best as usize
}

// ------------------------------------------------------------------- errors

/// Whether a microphone error means the user denied access.
pub open spec fn spec_access_denied(message: Seq<char>) -> bool {
    let m = lowercase(message);
    occurs_in(m, "access is denied"@) || occurs_in(m, "permission denied"@) || occurs_in(m, "0x80070005"@)
}

/// Whether a microphone error means there is no input device.
pub open spec fn spec_no_input_device(message: Seq<char>) -> bool {
    let m = lowercase(message);
    occurs_in(m, "no input device found"@) || (occurs_in(m, "failed to fetch preferred config"@)
        && occurs_in(m, "coreaudio"@))
}

/// Whether a microphone error message says access was denied.
pub fn is_microphone_access_denied(error_message: &str) -> (denied: bool)
    ensures
        denied == spec_access_denied(error_message@),
{
    let normalized = to_lowercase(error_message);
    contains_str(normalized.as_str(), "access is denied") || contains_str(normalized.as_str(), "permission denied")
        || contains_str(normalized.as_str(), "0x80070005")
}

/// Whether a microphone error message says no input device exists.
pub fn is_no_input_device_error(error_message: &str) -> (missing: bool)
    ensures
        missing == spec_no_input_device(error_message@),
{
    let normalized = to_lowercase(error_message);
    contains_str(normalized.as_str(), "no input device found") || (contains_str(
        normalized.as_str(),
        "failed to fetch preferred config",
    ) && contains_str(normalized.as_str(), "coreaudio"))
}

/// How a failed microphone start is reported.
#[derive(Clone, Copy, Debug, PartialEq, Eq, Structural)]
pub enum MicrophoneErrorKind {
    PermissionDenied,
    Other,
}

/// The kind of error reported when the capture worker could not start.
pub fn microphone_error_kind(error_message: &str) -> (kind: MicrophoneErrorKind)
    ensures
        kind == if spec_access_denied(error_message@) {
            MicrophoneErrorKind::PermissionDenied
        } else {
            MicrophoneErrorKind::Other
        },
{
    if is_microphone_access_denied(error_message) {
        MicrophoneErrorKind::PermissionDenied
    } else {
        MicrophoneErrorKind::Other
    }
}

} // verus!
