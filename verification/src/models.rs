//! The catalogue of transcription models the user can choose from, and the
//! rules for picking, locating and accepting a downloaded model.

use vstd::prelude::*;
use crate::text::same_text;
use vstd::string::*;

verus! {

/// One entry of the model catalogue.
#[derive(Clone, Copy, Debug)]
pub struct ModelOption {
    pub id: &'static str,
    pub name: &'static str,
    pub description: &'static str,
    pub filename: &'static str,
    pub size: &'static str,
}

/// The catalogue, in the order it is offered.
pub open spec fn catalogue() -> Seq<ModelOption> {
    seq![
        ModelOption {
            id: "large-v3-turbo",
            name: "Whisper Large v3 Turbo",
            description: "Best balance of local accuracy and speed; multilingual, with about 809 MB of storage.",
            filename: "ggml-large-v3-turbo.bin",
            size: "809 MB",
        },
        ModelOption {
            id: "large-v3",
            name: "Whisper Large v3",
            description: "Highest local accuracy; multilingual, but requires about 3.1 GB of storage and more memory.",
            filename: "ggml-large-v3.bin",
            size: "3.1 GB",
        },
        ModelOption {
            id: "base-multilingual",
            name: "Whisper Base Multilingual",
            description: "Automatic language detection, including English and Spanish.",
            filename: "ggml-base.bin",
            size: "142 MB",
        },
        ModelOption {
            id: "base-english",
            name: "Whisper Base English",
            description: "English-only transcription with a slightly smaller model.",
            filename: "ggml-base.en.bin",
            size: "142 MB",
        },
    ]
}

/// The first catalogue entry at or after `from` whose id is `id`.
pub open spec fn find_from(id: Seq<char>, from: int) -> Option<ModelOption>
    decreases catalogue().len() - from,
{
    if from < 0 || from >= catalogue().len() {
        None
    } else if catalogue()[from].id@ == id {
        Some(catalogue()[from])
    } else {
        find_from(id, from + 1)
    }
}

/// The catalogue entry with the given id, if there is one.
pub open spec fn find_model(id: Seq<char>) -> Option<ModelOption> {
    find_from(id, 0)
}

pub open spec fn unknown_model_message(id: Seq<char>) -> Seq<char> {
    "Unknown transcription model: "@ + id
}

/// The catalogue, in the order it is offered.
pub fn model_options() -> (options: Vec<ModelOption>)
    ensures
        options@ == catalogue(),
{
    let options = vec![
        ModelOption {
            id: "large-v3-turbo",
            name: "Whisper Large v3 Turbo",
            description: "Best balance of local accuracy and speed; multilingual, with about 809 MB of storage.",
            filename: "ggml-large-v3-turbo.bin",
            size: "809 MB",
        },
        ModelOption {
            id: "large-v3",
            name: "Whisper Large v3",
            description: "Highest local accuracy; multilingual, but requires about 3.1 GB of storage and more memory.",
            filename: "ggml-large-v3.bin",
            size: "3.1 GB",
        },
        ModelOption {
            id: "base-multilingual",
            name: "Whisper Base Multilingual",
            description: "Automatic language detection, including English and Spanish.",
            filename: "ggml-base.bin",
            size: "142 MB",
        },
        ModelOption {
            id: "base-english",
            name: "Whisper Base English",
            description: "English-only transcription with a slightly smaller model.",
            filename: "ggml-base.en.bin",
            size: "142 MB",
        },
    ];
    assert(options@ =~= catalogue());
    options
}

/// Looks up a model by id; an unknown id is an error that names it.
pub fn model_option(id: &str) -> (r: Result<ModelOption, String>)
    ensures
        match r {
            Ok(model) => find_model(id@) == Some(model),
            Err(message) => find_model(id@) is None && message@ == unknown_model_message(id@),
        },
{
    let options = model_options();
    let mut i: usize = 0;
    while i < options.len()
        invariant
            options@ == catalogue(),
            0 <= i <= options.len(),
            find_model(id@) == find_from(id@, i as int),
        decreases options.len() - i,
    {
        if same_text(options[i].id, id) {
            return Ok(options[i]);
        }
        i = i + 1;
    }
    let mut message = String::from_str("Unknown transcription model: ");
    message.append(id);
    Err(message)
}

pub open spec fn download_url_prefix() -> Seq<char> {
    "https://huggingface.co/ggerganov/whisper.cpp/resolve/main/"@
}

pub open spec fn download_url_suffix() -> Seq<char> {
    "?download=true"@
}

/// Where a model's file is downloaded from.
pub fn model_download_url(model: &ModelOption) -> (url: String)
    ensures
        url@ == download_url_prefix() + model.filename@ + download_url_suffix(),
{
    let mut url = String::from_str("https://huggingface.co/ggerganov/whisper.cpp/resolve/main/");
    url.append(model.filename);
    url.append("?download=true");
    url
}

/// What the file system reports of a path: whether it is a regular file, and its length in bytes.
#[derive(Clone, Copy, Debug, PartialEq, Eq, Structural)]
pub struct FileFacts {
    pub is_file: bool,
    pub len: u64,
}

/// The smallest size, in bytes, above which a model file is taken to be complete.
pub const MODEL_MIN_BYTES: u64 = 1_000_000;

/// Whether a model file is usable: it exists as a regular file of more than
/// [`MODEL_MIN_BYTES`] bytes. `None` stands for a path whose metadata could
/// not be read.
pub fn model_is_ready(facts: Option<FileFacts>) -> (ready: bool)
    ensures
        ready == (facts matches Some(f) && f.is_file && f.len > MODEL_MIN_BYTES),
{
    match facts {
        Some(f) => f.is_file && f.len > MODEL_MIN_BYTES,
        None => false,
    }
}

/// A download is attempted only when the model file is not usable yet.
pub fn model_download_needed(facts: Option<FileFacts>) -> (needed: bool)
    ensures
        needed == !(facts matches Some(f) && f.is_file && f.len > MODEL_MIN_BYTES),
{
    !model_is_ready(facts)
}

pub open spec fn incomplete_download_message() -> Seq<char> {
    "Downloaded model is incomplete or invalid"@
}

/// After a download, the model is accepted only if its file is now usable.
pub fn accept_downloaded_model(facts: Option<FileFacts>) -> (r: Result<(), String>)
    ensures
        r is Ok <==> (facts matches Some(f) && f.is_file && f.len > MODEL_MIN_BYTES),
        r matches Err(message) ==> message@ == incomplete_download_message(),
{
    if model_is_ready(facts) {
        Ok(())
    } else {
        Err(String::from_str("Downloaded model is incomplete or invalid"))
    }
}

pub open spec fn default_model_id() -> Seq<char> {
    "base-multilingual"@
}

/// The model id in force: the one saved in the settings when it names a
/// catalogue entry, and the multilingual base model otherwise (no saved
/// choice, or one that is no longer offered).
pub fn selected_model_id(saved: Option<&str>) -> (id: String)
    ensures
        id@ == (if saved matches Some(s) && find_model(s@) is Some {
            saved->0@
        } else {
            default_model_id()
        }),
{
    match saved {
        Some(s) => match model_option(s) {
            Ok(_) => String::from_str(s),
            Err(_) => String::from_str("base-multilingual"),
        },
        None => String::from_str("base-multilingual"),
    }
}

/// What the settings screen shows of the models.
pub struct ModelStatus {
    pub selected_id: String,
    pub options: Vec<ModelOption>,
    pub downloaded: bool,
}

impl ModelStatus {
    /// The status for the model in force and whether its file is usable,
    /// offering the whole catalogue.
    pub fn new(selected_id: String, downloaded: bool) -> (status: Self)
        ensures
            status.selected_id == selected_id,
            status.options@ == catalogue(),
            status.downloaded == downloaded,
    {
        ModelStatus { selected_id, options: model_options(), downloaded }
    }
}

/// The ids in the catalogue are pairwise distinct.
proof fn lemma_catalogue_ids_distinct()
    ensures
        forall|i: int, j: int|
            0 <= i < j < catalogue().len() ==> #[trigger] catalogue()[i].id@ != #[trigger] catalogue()[j].id@,
{
    reveal_strlit("large-v3-turbo");
    reveal_strlit("large-v3");
    reveal_strlit("base-multilingual");
    reveal_strlit("base-english");
    assert(catalogue()[0].id@.len() != catalogue()[1].id@.len());
    assert(catalogue()[0].id@[0] != catalogue()[2].id@[0]);
    assert(catalogue()[0].id@[0] != catalogue()[3].id@[0]);
    assert(catalogue()[1].id@[0] != catalogue()[2].id@[0]);
    assert(catalogue()[1].id@[0] != catalogue()[3].id@[0]);
    assert(catalogue()[2].id@.len() != catalogue()[3].id@.len());
}

proof fn lemma_find_from_index(k: int, from: int)
    requires
        0 <= from <= k < catalogue().len(),
    ensures
        find_from(catalogue()[k].id@, from) == Some(catalogue()[k]),
    decreases k - from,
{
    lemma_catalogue_ids_distinct();
    if from < k {
        assert(catalogue()[from].id@ != catalogue()[k].id@);
        lemma_find_from_index(k, from + 1);
    }
}

/// Every entry of the catalogue is found again by its own id, so a lookup
/// of any offered id returns exactly that entry.
pub proof fn lemma_lookup_finds_every_entry(k: int)
    requires
        0 <= k < catalogue().len(),
    ensures
        find_model(catalogue()[k].id@) == Some(catalogue()[k]),
{
    lemma_find_from_index(k, 0);
}

/// Whether the catalogue offers a model with id `id`, and it is the one
/// with this name, description, file and size.
pub open spec fn model_entry_is(
    id: Seq<char>,
    name: Seq<char>,
    description: Seq<char>,
    filename: Seq<char>,
    size: Seq<char>,
) -> bool {
    find_model(id) is Some && {
        let model = find_model(id)->0;
        &&& model.name@ == name
        &&& model.description@ == description
        &&& model.filename@ == filename
        &&& model.size@ == size
    }
}

/// Looking up each offered id gives the model with its own name,
/// description, file and size: the turbo and large models are
/// multilingual, `base-multilingual` (`ggml-base.bin`) detects the language
/// automatically, and `base-english` (`ggml-base.en.bin`) is the
/// English-only one.
pub proof fn lemma_offered_models()
    ensures
        model_entry_is("large-v3-turbo"@, "Whisper Large v3 Turbo"@, "Best balance of local accuracy and speed; multilingual, with about 809 MB of storage."@, "ggml-large-v3-turbo.bin"@, "809 MB"@),
        model_entry_is("large-v3"@, "Whisper Large v3"@, "Highest local accuracy; multilingual, but requires about 3.1 GB of storage and more memory."@, "ggml-large-v3.bin"@, "3.1 GB"@),
        model_entry_is("base-multilingual"@, "Whisper Base Multilingual"@, "Automatic language detection, including English and Spanish."@, "ggml-base.bin"@, "142 MB"@),
        model_entry_is("base-english"@, "Whisper Base English"@, "English-only transcription with a slightly smaller model."@, "ggml-base.en.bin"@, "142 MB"@),
{
    lemma_lookup_finds_every_entry(0);
    lemma_lookup_finds_every_entry(1);
    lemma_lookup_finds_every_entry(2);
    lemma_lookup_finds_every_entry(3);
}

/// Whatever the settings hold, the model in force is in the catalogue: the
/// fallback model is offered, so a later lookup of the selected id succeeds.
pub proof fn lemma_selected_model_is_offered(saved: Option<Seq<char>>, id: Seq<char>)
    requires
        id == (if saved matches Some(s) && find_model(s) is Some { saved->0 } else { default_model_id() }),
    ensures
        find_model(id) is Some,
{
    reveal_strlit("base-multilingual");
    assert(catalogue()[2].id@ == default_model_id());
    lemma_lookup_finds_every_entry(2);
}

} // verus!
