//! The bundled catalog of downloadable speech models.
use vstd::prelude::*;
use crate::words::str_eq;

verus! {

/// A single downloadable model as the bundled catalog describes it.
pub struct CatalogModel {
    /// Stable identifier used everywhere (settings, IPC, file names).
    pub id: String,
    pub name: String,
    pub description: String,
    /// Hugging Face repository id, e.g. `ggerganov/whisper.cpp`.
    pub repo_id: String,
    /// File within the repository to download, e.g. `ggml-base.bin`.
    pub filename: String,
    /// Expected download size in bytes.
    pub size_bytes: u64,
    pub languages: Vec<String>,
    pub supports_streaming: bool,
    pub recommended: bool,
}

/// `i` is the first position in `models` whose id is `id`.
pub open spec fn is_first_with_id(models: Seq<CatalogModel>, id: Seq<char>, i: int) -> bool {
    &&& 0 <= i < models.len()
    &&& models[i].id@ == id
    &&& forall|j: int| 0 <= j < i ==> #[trigger] models[j].id@ != id
}

/// Whether some model in `models` has the id `id`.
pub open spec fn has_id(models: Seq<CatalogModel>, id: Seq<char>) -> bool {
    exists|i: int| 0 <= i < models.len() && #[trigger] models[i].id@ == id
}

/// The position of the first model whose id is `id`.
pub fn find_index(models: &[CatalogModel], id: &str) -> (found: Option<usize>)
    ensures
        found matches Some(i) ==> is_first_with_id(models@, id@, i as int),
        found is None ==> !has_id(models@, id@),
{
    let mut i: usize = 0;
    while i < models.len()
        invariant
            i <= models.len(),
            forall|j: int| 0 <= j < i ==> #[trigger] models@[j].id@ != id@,
        decreases models.len() - i,
    {
        if str_eq(models[i].id.as_str(), id) {
            return Some(i);
        }
        i = i + 1;
    }
    None
}

/// Looks up a single model by id: the first one with that id.
pub fn find<'a>(models: &'a [CatalogModel], id: &str) -> (found: Option<&'a CatalogModel>)
    ensures
        found matches Some(m) ==> exists|i: int| is_first_with_id(models@, id@, i) && models@[i] == *m,
        found is None ==> !has_id(models@, id@),
{
    match find_index(models, id) {
        Some(i) => Some(&models[i]),
        None => None,
    }
}

/// The Hugging Face `resolve/main` download URL of a catalog model.
pub open spec fn spec_download_url(repo_id: Seq<char>, filename: Seq<char>) -> Seq<char> {
    "https://huggingface.co/"@ + repo_id + "/resolve/main/"@ + filename + "?download=true"@
}

/// Builds the Hugging Face download URL for a catalog model.
pub fn download_url(model: &CatalogModel) -> (url: String)
    ensures
        url@ == spec_download_url(model.repo_id@, model.filename@),
{
    let mut url = String::from_str("https://huggingface.co/");
    url.append(model.repo_id.as_str());
    url.append("/resolve/main/");
    url.append(model.filename.as_str());
    url.append("?download=true");
    url
}

/// A copy of a list of strings.
pub fn copy_strings(v: &Vec<String>) -> (out: Vec<String>)
    ensures
        out@.len() == v@.len(),
        forall|i: int| 0 <= i < v@.len() ==> #[trigger] out@[i]@ == v@[i]@,
{
    let mut out: Vec<String> = Vec::new();
    let mut i: usize = 0;
    while i < v.len()
        invariant
            i <= v.len(),
            out@.len() == i,
            forall|j: int| 0 <= j < i ==> #[trigger] out@[j]@ == v@[j]@,
        decreases v.len() - i,
    {
        out.push(v[i].clone());
        i = i + 1;
    }
    out
}

} // verus!
