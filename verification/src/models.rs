//! The model download manager: the registry of in-flight downloads, the on-disk
//! status of catalog models, and the decisions a download makes.
use vstd::prelude::*;
use crate::catalog::{copy_strings, find_index, has_id, is_first_with_id, CatalogModel};
use crate::chars::{decimal, u64_to_decimal};
use crate::words::{occurs_in, str_eq};

verus! {

/// One in-flight download and whether its cancellation was requested.
pub struct DownloadEntry {
    pub model_id: String,
    pub cancel_requested: bool,
}

/// What `entries` say: each model id mapped to its cancellation flag.
pub open spec fn entries_map(es: Seq<DownloadEntry>) -> Map<Seq<char>, bool>
    decreases es.len(),
{
    if es.len() == 0 {
        Map::empty()
    } else {
        entries_map(es.drop_last()).insert(es.last().model_id@, es.last().cancel_requested)
    }
}

/// No model id occurs twice.
pub open spec fn distinct_ids(es: Seq<DownloadEntry>) -> bool {
    forall|i: int, j: int| 0 <= i < j < es.len() ==> es[i].model_id@ != es[j].model_id@
}

proof fn lemma_entries_map(es: Seq<DownloadEntry>)
    requires
        distinct_ids(es),
    ensures
        forall|k: Seq<char>| #[trigger] entries_map(es).dom().contains(k)
            <==> exists|i: int| 0 <= i < es.len() && es[i].model_id@ == k,
        forall|i: int| 0 <= i < es.len() ==> #[trigger] entries_map(es)[es[i].model_id@] == es[i].cancel_requested,
        entries_map(es).dom().finite(),
    decreases es.len(),
{
    if es.len() > 0 {
        let init = es.drop_last();
        assert(distinct_ids(init)) by {
            assert forall|i: int, j: int| 0 <= i < j < init.len() implies init[i].model_id@ != init[j].model_id@ by {
                assert(init[i] == es[i] && init[j] == es[j]);
            }
        }
        lemma_entries_map(init);
        assert forall|k: Seq<char>| #[trigger] entries_map(es).dom().contains(k)
            <==> exists|i: int| 0 <= i < es.len() && es[i].model_id@ == k by {
            if entries_map(es).dom().contains(k) && k != es.last().model_id@ {
                let i = choose|i: int| 0 <= i < init.len() && init[i].model_id@ == k;
                assert(es[i] == init[i]);
            }
            if exists|i: int| 0 <= i < es.len() && es[i].model_id@ == k {
                let i = choose|i: int| 0 <= i < es.len() && es[i].model_id@ == k;
                if i < es.len() - 1 {
                    assert(init[i] == es[i]);
                }
            }
        }
        assert forall|i: int| 0 <= i < es.len() implies #[trigger] entries_map(es)[es[i].model_id@] == es[i].cancel_requested by {
            if i < es.len() - 1 {
                assert(init[i] == es[i]);
                assert(es[i].model_id@ != es[es.len() - 1].model_id@);
            }
        }
    }
}

/// The downloads in flight, each with a flag set once cancellation is requested.
pub struct DownloadRegistry {
    entries: Vec<DownloadEntry>,
}

impl View for DownloadRegistry {
    type V = Map<Seq<char>, bool>;

    closed spec fn view(&self) -> Map<Seq<char>, bool> {
        entries_map(self.entries@)
    }
}

impl DownloadRegistry {
    #[verifier::type_invariant]
    spec fn wf(self) -> bool {
        distinct_ids(self.entries@)
    }

    /// A registry with nothing in flight.
    pub fn new() -> (r: Self)
        ensures
            r@ == Map::<Seq<char>, bool>::empty(),
    {
        DownloadRegistry { entries: Vec::new() }
    }

    fn position(&self, model_id: &str) -> (pos: Option<usize>)
        ensures
            pos matches Some(i) ==> i < self.entries@.len() && self.entries@[i as int].model_id@ == model_id@,
            pos is None ==> forall|i: int| 0 <= i < self.entries@.len() ==> #[trigger] self.entries@[i].model_id@ != model_id@,
    {
        let mut i: usize = 0;
        while i < self.entries.len()
            invariant
                i <= self.entries@.len(),
                forall|j: int| 0 <= j < i ==> #[trigger] self.entries@[j].model_id@ != model_id@,
            decreases self.entries@.len() - i,
        {
            if str_eq(self.entries[i].model_id.as_str(), model_id) {
                return Some(i);
            }
            i = i + 1;
        }
        None
    }

    /// Whether a download of `model_id` is in flight.
    pub fn is_downloading(&self, model_id: &str) -> (r: bool)
        ensures
            r == self@.dom().contains(model_id@),
    {
        proof {
            use_type_invariant(self);
            lemma_entries_map(self.entries@);
        }
        self.position(model_id).is_some()
    }

    /// Whether cancellation of the download of `model_id` has been requested.
    pub fn is_cancelled(&self, model_id: &str) -> (r: bool)
        ensures
            r == (self@.dom().contains(model_id@) && self@[model_id@]),
    {
        proof {
            use_type_invariant(self);
            lemma_entries_map(self.entries@);
        }
        match self.position(model_id) {
            Some(i) => self.entries[i].cancel_requested,
            None => false,
        }
    }

    /// Registers a download of `model_id`; refused while one is already in flight.
    pub fn begin(&mut self, model_id: &str) -> (res: Result<(), String>)
        ensures
            res is Ok <==> !old(self)@.dom().contains(model_id@),
            res is Ok ==> final(self)@ == old(self)@.insert(model_id@, false),
            res matches Err(e) ==> final(self)@ == old(self)@ && e@ == model_id@ + " is already downloading"@,
    {
        proof {
            use_type_invariant(&*self);
            lemma_entries_map(self.entries@);
        }
        if self.position(model_id).is_some() {
            let mut message = String::from_str(model_id);
            message.append(" is already downloading");
            return Err(message);
        }
        let ghost before = self.entries@;
        let entry = DownloadEntry { model_id: String::from_str(model_id), cancel_requested: false };
        proof {
            let after = before.push(entry);
            assert(after.drop_last() =~= before);
            assert(distinct_ids(after)) by {
                assert forall|i: int, j: int| 0 <= i < j < after.len() implies after[i].model_id@ != after[j].model_id@ by {
                    if j == after.len() - 1 {
                        assert(after[i] == before[i]);
                    } else {
                        assert(after[i] == before[i] && after[j] == before[j]);
                    }
                }
            }
        }
        let mut entries: Vec<DownloadEntry> = Vec::new();
                std::mem::swap(&mut entries, &mut self.entries);
                entries.push(entry);
                self.entries = entries;
        Ok(())
    }

    /// Requests cancellation of the download of `model_id`; true when one was in flight.
    pub fn cancel(&mut self, model_id: &str) -> (was_downloading: bool)
        ensures
            was_downloading == old(self)@.dom().contains(model_id@),
            final(self)@ == if was_downloading { old(self)@.insert(model_id@, true) } else { old(self)@ },
    {
        proof {
            use_type_invariant(&*self);
            lemma_entries_map(self.entries@);
        }
        match self.position(model_id) {
            None => false,
            Some(i) => {
                let ghost before = self.entries@;
                let id = String::from_str(self.entries[i].model_id.as_str());
                let entry = DownloadEntry { model_id: id, cancel_requested: true };
                let ghost after = before.update(i as int, entry);
                proof {
                    assert(distinct_ids(after)) by {
                        assert forall|a: int, b: int| 0 <= a < b < after.len() implies after[a].model_id@ != after[b].model_id@ by {
                            assert(after[a].model_id@ == before[a].model_id@);
                            assert(after[b].model_id@ == before[b].model_id@);
                        }
                    }
                    lemma_entries_map(after);
                    let m_old = entries_map(before);
                    let m_new = entries_map(after);
                    assert forall|k: Seq<char>| #[trigger] m_new.dom().contains(k) == m_old.insert(model_id@, true).dom().contains(k) by {
                        if m_new.dom().contains(k) {
                            let j = choose|j: int| 0 <= j < after.len() && after[j].model_id@ == k;
                            assert(before[j].model_id@ == k);
                        }
                        if m_old.dom().contains(k) {
                            let j = choose|j: int| 0 <= j < before.len() && before[j].model_id@ == k;
                            assert(after[j].model_id@ == k);
                        }
                    }
                    assert forall|k: Seq<char>| #[trigger] m_new.dom().contains(k) implies m_new[k] == m_old.insert(model_id@, true)[k] by {
                        let j = choose|j: int| 0 <= j < after.len() && after[j].model_id@ == k;
                        assert(m_new[after[j].model_id@] == after[j].cancel_requested);
                        if j != i {
                            assert(m_old[before[j].model_id@] == before[j].cancel_requested);
                        }
                    }
                    assert(m_new =~= m_old.insert(model_id@, true));
                }
                let mut entries: Vec<DownloadEntry> = Vec::new();
                std::mem::swap(&mut entries, &mut self.entries);
                entries.set(i, entry);
                self.entries = entries;
                true
            },
        }
    }

    /// Deregisters the download of `model_id`, whether it finished, failed or was cancelled.
    pub fn finish(&mut self, model_id: &str)
        ensures
            final(self)@ == old(self)@.remove(model_id@),
    {
        proof {
            use_type_invariant(&*self);
            lemma_entries_map(self.entries@);
        }
        match self.position(model_id) {
            None => {
                assert(old(self)@ =~= old(self)@.remove(model_id@));
            },
            Some(i) => {
                let ghost before = self.entries@;
                let ghost after = before.remove(i as int);
                proof {
                    assert(distinct_ids(after)) by {
                        assert forall|a: int, b: int| 0 <= a < b < after.len() implies after[a].model_id@ != after[b].model_id@ by {
                            let a0 = if a < i { a } else { a + 1 };
                            let b0 = if b < i { b } else { b + 1 };
                            assert(after[a] == before[a0] && after[b] == before[b0]);
                        }
                    }
                    lemma_entries_map(after);
                    let m_old = entries_map(before);
                    let m_new = entries_map(after);
                    assert forall|k: Seq<char>| #[trigger] m_new.dom().contains(k) == m_old.remove(model_id@).dom().contains(k) by {
                        if m_new.dom().contains(k) {
                            let j = choose|j: int| 0 <= j < after.len() && after[j].model_id@ == k;
                            let j0 = if j < i { j } else { j + 1 };
                            assert(after[j] == before[j0]);
                            assert(j0 != i);
                        }
                        if m_old.remove(model_id@).dom().contains(k) {
                            let j = choose|j: int| 0 <= j < before.len() && before[j].model_id@ == k;
                            assert(j != i);
                            let j1 = if j < i { j } else { j - 1 };
                            assert(after[j1] == before[j]);
                        }
                    }
                    assert forall|k: Seq<char>| #[trigger] m_new.dom().contains(k) implies m_new[k] == m_old.remove(model_id@)[k] by {
                        let j = choose|j: int| 0 <= j < after.len() && after[j].model_id@ == k;
                        let j0 = if j < i { j } else { j + 1 };
                        assert(after[j] == before[j0]);
                        assert(m_new[after[j].model_id@] == after[j].cancel_requested);
                        assert(m_old[before[j0].model_id@] == before[j0].cancel_requested);
                    }
                    assert(m_new =~= m_old.remove(model_id@));
                }
                let mut entries: Vec<DownloadEntry> = Vec::new();
                std::mem::swap(&mut entries, &mut self.entries);
                entries.remove(i);
                self.entries = entries;
            },
        }
    }
}

/// Local, on-disk status of a catalog model.
pub struct ModelStatus {
    pub id: String,
    pub name: String,
    pub description: String,
    pub filename: String,
    pub size_bytes: u64,
    pub languages: Vec<String>,
    pub supports_streaming: bool,
    pub recommended: bool,
    /// The full file exists on disk and has the expected size.
    pub is_downloaded: bool,
    /// A download is currently in flight.
    pub is_downloading: bool,
    /// Bytes present in a partial (resumable) download, if any.
    pub partial_bytes: u64,
}

/// What the file system says about one catalog model: the length of its final
/// file and of its partial download, each when the file exists.
pub struct DiskState {
    pub model_len: Option<u64>,
    pub partial_len: Option<u64>,
}

/// `status` describes `model` with the given disk facts and download flag.
pub open spec fn describes(status: ModelStatus, model: CatalogModel, disk: DiskState, downloading: bool) -> bool {
    &&& status.id@ == model.id@
    &&& status.name@ == model.name@
    &&& status.description@ == model.description@
    &&& status.filename@ == model.filename@
    &&& status.size_bytes == model.size_bytes
    &&& status.languages@.len() == model.languages@.len()
    &&& forall|i: int| 0 <= i < model.languages@.len() ==> #[trigger] status.languages@[i]@ == model.languages@[i]@
    &&& status.supports_streaming == model.supports_streaming
    &&& status.recommended == model.recommended
    &&& status.is_downloaded == (disk.model_len == Some(model.size_bytes))
    &&& status.is_downloading == downloading
    &&& status.partial_bytes == match disk.partial_len { Some(n) => n, None => 0 }
}

impl ModelStatus {
    /// The status of `model` given what the disk holds and whether it is downloading.
    pub fn of(model: &CatalogModel, disk: &DiskState, is_downloading: bool) -> (status: ModelStatus)
        ensures
            describes(status, *model, *disk, is_downloading),
    {
        ModelStatus {
            id: String::from_str(model.id.as_str()),
            name: String::from_str(model.name.as_str()),
            description: String::from_str(model.description.as_str()),
            filename: String::from_str(model.filename.as_str()),
            size_bytes: model.size_bytes,
            languages: copy_strings(&model.languages),
            supports_streaming: model.supports_streaming,
            recommended: model.recommended,
            is_downloaded: match disk.model_len {
                Some(len) => len == model.size_bytes,
                None => false,
            },
            is_downloading,
            partial_bytes: match disk.partial_len {
                Some(len) => len,
                None => 0,
            },
        }
    }
}

/// The name of the file a download is written to until it completes.
pub open spec fn spec_partial_file_name(filename: Seq<char>) -> Seq<char> {
    filename + ".partial"@
}

pub fn partial_file_name(filename: &str) -> (name: String)
    ensures
        name@ == spec_partial_file_name(filename@),
{
    let mut name = String::from_str(filename);
    name.append(".partial");
    name
}

/// The catalog and the downloads in flight.
pub struct Manager {
    pub models: Vec<CatalogModel>,
    pub registry: DownloadRegistry,
}

impl Manager {
    /// A manager over the parsed catalog, with nothing downloading.
    pub fn with_models(models: Vec<CatalogModel>) -> (m: Manager)
        ensures
            m.models@ == models@,
            m.registry@ == Map::<Seq<char>, bool>::empty(),
    {
        Manager { models, registry: DownloadRegistry::new() }
    }

    /// Whether a download of `id` is in flight.
    pub fn is_downloading(&self, id: &str) -> (r: bool)
        ensures
            r == self.registry@.dom().contains(id@),
    {
        self.registry.is_downloading(id)
    }

    /// Every catalog model annotated with its on-disk status; `disk[i]` describes `models[i]`.
    pub fn list(&self, disk: &[DiskState]) -> (statuses: Vec<ModelStatus>)
        requires
            disk@.len() == self.models@.len(),
        ensures
            statuses@.len() == self.models@.len(),
            forall|i: int| 0 <= i < self.models@.len() ==> describes(
                #[trigger] statuses@[i],
                self.models@[i],
                disk@[i],
                self.registry@.dom().contains(self.models@[i].id@),
            ),
    {
        let mut out: Vec<ModelStatus> = Vec::new();
        let mut i: usize = 0;
        while i < self.models.len()
            invariant
                i <= self.models@.len(),
                disk@.len() == self.models@.len(),
                out@.len() == i,
                forall|j: int| 0 <= j < i ==> describes(
                    #[trigger] out@[j],
                    self.models@[j],
                    disk@[j],
                    self.registry@.dom().contains(self.models@[j].id@),
                ),
            decreases self.models@.len() - i,
        {
            let model = &self.models[i];
            let downloading = self.registry.is_downloading(model.id.as_str());
            out.push(ModelStatus::of(model, &disk[i], downloading));
            i = i + 1;
        }
        out
    }

    /// Requests cancellation of an in-flight download; true when one was in flight.
    pub fn cancel(&mut self, model_id: &str) -> (was_downloading: bool)
        ensures
            was_downloading == old(self).registry@.dom().contains(model_id@),
            final(self).registry@ == if was_downloading {
                old(self).registry@.insert(model_id@, true)
            } else {
                old(self).registry@
            },
            final(self).models == old(self).models,
    {
        self.registry.cancel(model_id)
    }

    /// The position of the catalog model `model_id`, or the error for an unknown model.
    pub fn lookup(&self, model_id: &str) -> (found: Result<usize, String>)
        ensures
            found matches Ok(i) ==> is_first_with_id(self.models@, model_id@, i as int),
            found is Err ==> !has_id(self.models@, model_id@),
            found matches Err(e) ==> e@ == "unknown model: "@ + model_id@,
    {
        match find_index(self.models.as_slice(), model_id) {
            Some(i) => Ok(i),
            None => {
                let mut message = String::from_str("unknown model: ");
                message.append(model_id);
                Err(message)
            },
        }
    }

    /// Registers a download of `model_id`; refused while one is in flight.
    pub fn begin_download(&mut self, model_id: &str) -> (res: Result<(), String>)
        ensures
            res is Ok <==> !old(self).registry@.dom().contains(model_id@),
            res is Ok ==> final(self).registry@ == old(self).registry@.insert(model_id@, false),
            res matches Err(e) ==> final(self).registry@ == old(self).registry@
                && e@ == model_id@ + " is already downloading"@,
            final(self).models == old(self).models,
    {
        self.registry.begin(model_id)
    }

    /// The check made before each chunk of the download of `model_id` is taken
    /// in: once its cancellation was requested (see `cancel`), the download
    /// ends with "download cancelled"; otherwise it goes on.
    pub fn check_chunk(&self, model_id: &str) -> (res: Result<(), String>)
        ensures
            res is Err <==> (self.registry@.dom().contains(model_id@) && self.registry@[model_id@]),
            res matches Err(e) ==> e@ == "download cancelled"@,
    {
        if self.registry.is_cancelled(model_id) {
            Err(String::from_str("download cancelled"))
        } else {
            Ok(())
        }
    }

    /// Deregisters the download of `model_id`.
    pub fn end_download(&mut self, model_id: &str)
        ensures
            final(self).registry@ == old(self).registry@.remove(model_id@),
            final(self).models == old(self).models,
    {
        self.registry.finish(model_id)
    }
}

// ------------------------------------------------------------ download steps

/// Whether the final file already holds the whole model, so nothing is downloaded.
pub fn already_downloaded(final_len: Option<u64>, size_bytes: u64) -> (done: bool)
    ensures
        done == (final_len == Some(size_bytes)),
{
    match final_len {
        Some(len) => len == size_bytes,
        None => false,
    }
}

/// Where to resume from, given the bytes already in the partial file: an
/// oversized partial is corrupt, so the download starts over and the partial is discarded.
pub fn resume_from(have: u64, total: u64) -> (res: (u64, bool))
    ensures
        res == (if have > total { (0u64, true) } else { (have, false) }),
{
    if have > total {
        (0, true)
    } else {
        (have, false)
    }
}

/// The `Range` header that asks the server to resume at byte `have`, if resuming.
pub fn range_header(have: u64) -> (header: Option<String>)
    ensures
        have == 0 ==> header is None,
        have > 0 ==> (header matches Some(h) && h@ == "bytes="@ + decimal(have as nat) + "-"@),
{
    if have == 0 {
        return None;
    }
    let mut h = String::from_str("bytes=");
    let digits = u64_to_decimal(have);
    h.append(digits.as_str());
    h.append("-");
    Some(h)
}

/// The `Authorization` header for a Hugging Face token, when one is given and not empty.
pub fn authorization_header(token: Option<&str>) -> (header: Option<String>)
    ensures
        header is Some <==> (token matches Some(t) && t@.len() > 0),
        header matches Some(h) ==> h@ == "Bearer "@ + token.unwrap()@,
{
    match token {
        Some(t) => {
            if t.is_empty() {
                None
            } else {
                let mut h = String::from_str("Bearer ");
                h.append(t);
                Some(h)
            }
        },
        None => None,
    }
}

/// The byte offset the download continues from once the server answered: the
/// partial is kept only when resuming was asked for and the server answered
/// with partial content (206); otherwise the download starts from scratch.
pub fn continue_from(have: u64, partial_content: bool) -> (start: u64)
    ensures
        start == (if have > 0 && partial_content { have } else { 0 }),
{
    if have > 0 && partial_content {
        have
    } else {
        0
    }
}

/// The byte count after a chunk arrives, or the error when it would overflow.
pub fn add_chunk(downloaded: u64, chunk_len: u64) -> (res: Result<u64, String>)
    ensures
        downloaded + chunk_len <= u64::MAX ==> res == Ok::<u64, String>((downloaded + chunk_len) as u64),
        downloaded + chunk_len > u64::MAX ==> (res matches Err(e) && e@ == "downloaded byte count overflowed"@),
{
    match downloaded.checked_add(chunk_len) {
        Some(total) => Ok(total),
        None => Err(String::from_str("downloaded byte count overflowed")),
    }
}

/// Progress events are throttled to about ten per second.
pub const PROGRESS_INTERVAL_MS: u128 = 100;

/// Whether enough time passed since the last progress event to emit another.
pub fn should_emit_progress(elapsed_ms: u128) -> (emit: bool)
    ensures
        emit == (elapsed_ms >= PROGRESS_INTERVAL_MS),
{
    elapsed_ms >= PROGRESS_INTERVAL_MS
}

/// How a finished download is reported: the error to show, if any. A
/// cancelled download is not an error; the model list is refreshed either way.
pub fn download_error_to_report(result: &Result<(), String>) -> (report: Option<String>)
    ensures
        result is Ok ==> report is None,
        result matches Err(e) ==> (occurs_in(e@, "cancelled"@) ==> report is None),
        result matches Err(e) ==> (!occurs_in(e@, "cancelled"@) ==> (report matches Some(r) && r@ == e@)),
{
    match result {
        Ok(()) => None,
        Err(error) => {
            if crate::words::contains_str(error.as_str(), "cancelled") {
                None
            } else {
                Some(String::from_str(error.as_str()))
            }
        },
    }
}

// ------------------------------------------------------------------- laws

/// A registered download is in flight and not cancelled, and registering it
/// again is refused until it ends.
pub proof fn registered_download_is_in_flight(registry: Map<Seq<char>, bool>, id: Seq<char>)
    requires
        !registry.dom().contains(id),
    ensures
        registry.insert(id, false).dom().contains(id),
        !registry.insert(id, false)[id],
        registry.insert(id, false).remove(id) == registry,
{
    assert(registry.insert(id, false).remove(id) =~= registry);
}

/// Cancelling marks exactly the one download and leaves every other untouched;
/// ending a download removes it whether it was cancelled or not.
pub proof fn cancel_touches_one_download(registry: Map<Seq<char>, bool>, id: Seq<char>, other: Seq<char>)
    requires
        registry.dom().contains(id),
        other != id,
    ensures
        registry.insert(id, true)[id],
        registry.insert(id, true).dom() == registry.dom(),
        registry.dom().contains(other) ==> registry.insert(id, true)[other] == registry[other],
        !registry.insert(id, true).remove(id).dom().contains(id),
{
    assert(registry.insert(id, true).dom() =~= registry.dom());
}

/// A download that was in flight when `cancel` asked for it stops at its next
/// chunk: after the cancel, the chunk check of that download fails, and the
/// check of every other download is unchanged.
pub proof fn cancelled_download_stops(registry: Map<Seq<char>, bool>, id: Seq<char>, other: Seq<char>)
    requires
        registry.dom().contains(id),
        other != id,
    ensures
        registry.insert(id, true).dom().contains(id) && registry.insert(id, true)[id],
        (registry.insert(id, true).dom().contains(other) && registry.insert(id, true)[other])
            == (registry.dom().contains(other) && registry[other]),
{
}

} // verus!
