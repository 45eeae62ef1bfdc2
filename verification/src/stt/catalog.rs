//! The speech models that the transcription host knows how to fetch and run.
use vstd::prelude::*;
use crate::text::{concat2, owned, str_equal};

verus! {

/// The inference engine a model runs on.
#[derive(Clone, Copy, Debug, PartialEq, Eq, Structural)]
pub enum EngineType {
    Whisper,
    Parakeet,
}

/// A downloadable model of the built-in catalog.
#[derive(Clone, Copy, Debug)]
pub struct ModelSpec {
    pub id: &'static str,
    pub name: &'static str,
    pub description: &'static str,
    /// The file, or for directory models the directory, under the models dir.
    pub filename: &'static str,
    pub url: Option<&'static str>,
    pub size_mb: u64,
    /// Whether the download is a `.tar.gz` that unpacks into a directory.
    pub is_directory: bool,
    pub engine_type: EngineType,
}

/// A `ModelSpec` with its text as character sequences.
pub struct ModelSpecView {
    pub id: Seq<char>,
    pub name: Seq<char>,
    pub description: Seq<char>,
    pub filename: Seq<char>,
    pub url: Option<Seq<char>>,
    pub size_mb: u64,
    pub is_directory: bool,
    pub engine_type: EngineType,
}

impl View for ModelSpec {
    type V = ModelSpecView;

    open spec fn view(&self) -> ModelSpecView {
        ModelSpecView {
            id: self.id@,
            name: self.name@,
            description: self.description@,
            filename: self.filename@,
            url: match self.url {
                Some(u) => Some(u@),
                None => None,
            },
            size_mb: self.size_mb,
            is_directory: self.is_directory,
            engine_type: self.engine_type,
        }
    }
}

/// The entries of the built-in catalog, in order.
pub open spec fn builtin_catalog() -> Seq<ModelSpecView> {
    seq![
        ModelSpecView {
            id: "small"@,
            name: "Whisper Small"@,
            description: "Fast and fairly accurate."@,
            filename: "ggml-small.bin"@,
            url: Some("https://blob.handy.computer/ggml-small.bin"@),
            size_mb: 487,
            is_directory: false,
            engine_type: EngineType::Whisper,
        },
        ModelSpecView {
            id: "medium"@,
            name: "Whisper Medium"@,
            description: "Good accuracy, medium speed"@,
            filename: "whisper-medium-q4_1.bin"@,
            url: Some("https://blob.handy.computer/whisper-medium-q4_1.bin"@),
            size_mb: 492,
            is_directory: false,
            engine_type: EngineType::Whisper,
        },
        ModelSpecView {
            id: "turbo"@,
            name: "Whisper Turbo"@,
            description: "Balanced accuracy and speed."@,
            filename: "ggml-large-v3-turbo.bin"@,
            url: Some("https://blob.handy.computer/ggml-large-v3-turbo.bin"@),
            size_mb: 1600,
            is_directory: false,
            engine_type: EngineType::Whisper,
        },
        ModelSpecView {
            id: "large"@,
            name: "Whisper Large"@,
            description: "Good accuracy, but slow."@,
            filename: "ggml-large-v3-q5_0.bin"@,
            url: Some("https://blob.handy.computer/ggml-large-v3-q5_0.bin"@),
            size_mb: 1100,
            is_directory: false,
            engine_type: EngineType::Whisper,
        },
        ModelSpecView {
            id: "parakeet-tdt-0.6b-v2"@,
            name: "Parakeet V2"@,
            description: "English only. The best model for English speakers."@,
            filename: "parakeet-tdt-0.6b-v2-int8"@,
            url: Some("https://blob.handy.computer/parakeet-v2-int8.tar.gz"@),
            size_mb: 473,
            is_directory: true,
            engine_type: EngineType::Parakeet,
        },
        ModelSpecView {
            id: "parakeet-tdt-0.6b-v3"@,
            name: "Parakeet V3"@,
            description: "Fast and accurate"@,
            filename: "parakeet-tdt-0.6b-v3-int8"@,
            url: Some("https://blob.handy.computer/parakeet-v3-int8.tar.gz"@),
            size_mb: 478,
            is_directory: true,
            engine_type: EngineType::Parakeet,
        },
    ]
}

/// The views of the entries of `models`.
pub open spec fn catalog_view(models: Seq<ModelSpec>) -> Seq<ModelSpecView> {
    models.map_values(|m: ModelSpec| m@)
}

/// The built-in model catalog.
pub fn builtin_models() -> (r: Vec<ModelSpec>)
    ensures
        catalog_view(r@) == builtin_catalog(),
{
    let r = vec![
        ModelSpec {
            id: "small",
            name: "Whisper Small",
            description: "Fast and fairly accurate.",
            filename: "ggml-small.bin",
            url: Some("https://blob.handy.computer/ggml-small.bin"),
            size_mb: 487,
            is_directory: false,
            engine_type: EngineType::Whisper,
        },
        ModelSpec {
            id: "medium",
            name: "Whisper Medium",
            description: "Good accuracy, medium speed",
            filename: "whisper-medium-q4_1.bin",
            url: Some("https://blob.handy.computer/whisper-medium-q4_1.bin"),
            size_mb: 492,
            is_directory: false,
            engine_type: EngineType::Whisper,
        },
        ModelSpec {
            id: "turbo",
            name: "Whisper Turbo",
            description: "Balanced accuracy and speed.",
            filename: "ggml-large-v3-turbo.bin",
            url: Some("https://blob.handy.computer/ggml-large-v3-turbo.bin"),
            size_mb: 1600,
            is_directory: false,
            engine_type: EngineType::Whisper,
        },
        ModelSpec {
            id: "large",
            name: "Whisper Large",
            description: "Good accuracy, but slow.",
            filename: "ggml-large-v3-q5_0.bin",
            url: Some("https://blob.handy.computer/ggml-large-v3-q5_0.bin"),
            size_mb: 1100,
            is_directory: false,
            engine_type: EngineType::Whisper,
        },
        ModelSpec {
            id: "parakeet-tdt-0.6b-v2",
            name: "Parakeet V2",
            description: "English only. The best model for English speakers.",
            filename: "parakeet-tdt-0.6b-v2-int8",
            url: Some("https://blob.handy.computer/parakeet-v2-int8.tar.gz"),
            size_mb: 473,
            is_directory: true,
            engine_type: EngineType::Parakeet,
        },
        ModelSpec {
            id: "parakeet-tdt-0.6b-v3",
            name: "Parakeet V3",
            description: "Fast and accurate",
            filename: "parakeet-tdt-0.6b-v3-int8",
            url: Some("https://blob.handy.computer/parakeet-v3-int8.tar.gz"),
            size_mb: 478,
            is_directory: true,
            engine_type: EngineType::Parakeet,
        },
    ];
    assert(catalog_view(r@) =~= builtin_catalog());
    r
}

/// The ids of the built-in catalog are pairwise distinct, so an id names at
/// most one model.
pub proof fn lemma_builtin_ids_distinct()
    ensures
        forall|i: int, j: int|
            0 <= i < j < builtin_catalog().len() ==> builtin_catalog()[i].id
                != builtin_catalog()[j].id,
{
    reveal_strlit("small");
    reveal_strlit("medium");
    reveal_strlit("turbo");
    reveal_strlit("large");
    reveal_strlit("parakeet-tdt-0.6b-v2");
    reveal_strlit("parakeet-tdt-0.6b-v3");
    let c = builtin_catalog();
    assert(c[0].id.len() != c[1].id.len());
    assert(c[0].id[0] != c[2].id[0]);
    assert(c[0].id[0] != c[3].id[0]);
    assert(c[0].id.len() != c[4].id.len());
    assert(c[0].id.len() != c[5].id.len());
    assert(c[1].id.len() != c[2].id.len());
    assert(c[1].id.len() != c[3].id.len());
    assert(c[1].id.len() != c[4].id.len());
    assert(c[1].id.len() != c[5].id.len());
    assert(c[2].id[0] != c[3].id[0]);
    assert(c[2].id.len() != c[4].id.len());
    assert(c[2].id.len() != c[5].id.len());
    assert(c[3].id.len() != c[4].id.len());
    assert(c[3].id.len() != c[5].id.len());
    assert(c[4].id[19] != c[5].id[19]);
}

/// The index of the first entry of `models` whose id is `id`.
pub open spec fn first_with_id(models: Seq<ModelSpec>, id: Seq<char>, i: int) -> bool {
    &&& 0 <= i < models.len()
    &&& models[i].id@ == id
    &&& forall|j: int| 0 <= j < i ==> models[j].id@ != id
}

/// The position of the first model of `models` with id `id`, if any.
pub open spec fn lookup(models: Seq<ModelSpec>, id: Seq<char>) -> Option<int> {
    if exists|i: int| first_with_id(models, id, i) {
        Some(choose|i: int| first_with_id(models, id, i))
    } else {
        None
    }
}

/// Every model of the built-in catalog is found by its id, at its own
/// position.
pub proof fn law_builtin_lookup_by_id(models: Seq<ModelSpec>, i: int)
    requires
        catalog_view(models) == builtin_catalog(),
        0 <= i < models.len(),
    ensures
        lookup(models, models[i].id@) == Some(i),
{
    lemma_builtin_ids_distinct();
    assert(models.len() == builtin_catalog().len());
    assert forall|j: int| 0 <= j < i implies models[j].id@ != models[i].id@ by {
        assert(catalog_view(models)[j] == models[j]@);
        assert(catalog_view(models)[i] == models[i]@);
    }
    assert(first_with_id(models, models[i].id@, i));
    let c = choose|c: int| first_with_id(models, models[i].id@, c);
    assert(c == i) by {
        if c < i {
            assert(models[c].id@ != models[i].id@);
        } else if c > i {
            assert(models[i].id@ != models[i].id@);
        }
    }
}

/// The position of the model with id `id` in `models`.
pub fn find_model(models: &Vec<ModelSpec>, id: &str) -> (r: Option<usize>)
    ensures
        match r {
            Some(i) => lookup(models@, id@) == Some(i as int) && first_with_id(models@, id@, i as int),
            None => lookup(models@, id@) is None,
        },
{
    let n = models.len();
    for i in 0..n
        invariant
            n == models.len(),
            forall|j: int| 0 <= j < i ==> models@[j].id@ != id@,
    {
        if str_equal(models[i].id, id) {
            proof {
                assert(first_with_id(models@, id@, i as int));
                let c = choose|c: int| first_with_id(models@, id@, c);
                assert(c == i) by {
                    if c < i {
                        assert(models@[c].id@ != id@);
                    } else if c > i {
                        assert(models@[i as int].id@ != id@);
                    }
                }
            }
            return Some(i);
        }
    }
    None
}

/// What the host reports about a catalog model.
pub struct ModelInfo {
    pub id: String,
    pub name: String,
    pub description: String,
    pub engine_type: EngineType,
    pub size_mb: u64,
    pub is_downloaded: bool,
    pub is_downloading: bool,
    pub is_directory: bool,
}

/// `info` reports `spec` with the given download state.
pub open spec fn reports(info: ModelInfo, spec: ModelSpec, is_downloaded: bool, is_downloading: bool) -> bool {
    &&& info.id@ == spec.id@
    &&& info.name@ == spec.name@
    &&& info.description@ == spec.description@
    &&& info.engine_type == spec.engine_type
    &&& info.size_mb == spec.size_mb
    &&& info.is_downloaded == is_downloaded
    &&& info.is_downloading == is_downloading
    &&& info.is_directory == spec.is_directory
}

/// A report on a model carries that model's own identity, text, engine,
/// size and kind, and the download state it was given.
pub proof fn law_report_is_of_its_model(
    info: ModelInfo,
    spec: ModelSpec,
    is_downloaded: bool,
    is_downloading: bool,
)
    requires
        reports(info, spec, is_downloaded, is_downloading),
    ensures
        info.id@ == spec.id@,
        info.name@ == spec.name@,
        info.description@ == spec.description@,
        info.engine_type == spec.engine_type,
        info.size_mb == spec.size_mb,
        info.is_downloaded == is_downloaded,
        info.is_downloading == is_downloading,
        info.is_directory == spec.is_directory,
{
}

/// Reports on the built-in catalog, entry by entry, name the four Whisper
/// models first and the two Parakeet models last, each directory-based.
pub proof fn law_builtin_reports_engines(
    models: Seq<ModelSpec>,
    infos: Seq<ModelInfo>,
    downloaded: Seq<bool>,
    downloading: Seq<bool>,
)
    requires
        catalog_view(models) == builtin_catalog(),
        infos.len() == models.len(),
        downloaded.len() == models.len(),
        downloading.len() == models.len(),
        forall|i: int|
            0 <= i < infos.len() ==> reports(
                #[trigger] infos[i],
                models[i],
                downloaded[i],
                downloading[i],
            ),
    ensures
        infos.len() == 6,
        forall|i: int| 0 <= i < 4 ==> (#[trigger] infos[i]).engine_type == EngineType::Whisper
            && !infos[i].is_directory,
        infos[4].engine_type == EngineType::Parakeet && infos[4].is_directory,
        infos[5].engine_type == EngineType::Parakeet && infos[5].is_directory,
{
    assert(catalog_view(models).len() == models.len());
    assert(builtin_catalog().len() == 6);
    assert(models.len() == 6);
    assert forall|i: int| 0 <= i < 6 implies models[i]@ == builtin_catalog()[i] by {
        assert(catalog_view(models)[i] == models[i]@);
    }
    assert(reports(infos[4], models[4], downloaded[4], downloading[4]));
    assert(reports(infos[5], models[5], downloaded[5], downloading[5]));
    assert forall|i: int| 0 <= i < 4 implies (#[trigger] infos[i]).engine_type
        == EngineType::Whisper && !infos[i].is_directory by {
        assert(reports(infos[i], models[i], downloaded[i], downloading[i]));
        assert(models[i]@ == builtin_catalog()[i]);
    }
}

impl ModelSpec {
    /// The report on this model, given whether it is on disk and whether it
    /// is being downloaded.
    pub fn info(&self, is_downloaded: bool, is_downloading: bool) -> (r: ModelInfo)
        ensures
            reports(r, *self, is_downloaded, is_downloading),
            r.id@ == self.id@,
            r.name@ == self.name@,
            r.description@ == self.description@,
            r.engine_type == self.engine_type,
            r.size_mb == self.size_mb,
            r.is_downloaded == is_downloaded,
            r.is_downloading == is_downloading,
            r.is_directory == self.is_directory,
    {
        ModelInfo {
            id: owned(self.id),
            name: owned(self.name),
            description: owned(self.description),
            engine_type: self.engine_type,
            size_mb: self.size_mb,
            is_downloaded,
            is_downloading,
            is_directory: self.is_directory,
        }
    }

    /// The name of the file a download is streamed into.
    pub fn partial_file_name(&self) -> (r: String)
        ensures
            r@ == self.filename@ + ".partial"@,
    {
        concat2(self.filename, ".partial")
    }

    /// The name of the directory an archive is unpacked into before it is
    /// moved into place.
    pub fn extracting_dir_name(&self) -> (r: String)
        ensures
            r@ == self.filename@ + ".extracting"@,
    {
        concat2(self.filename, ".extracting")
    }

    /// Whether the model is on disk, given what the file system says of its
    /// target path: a directory model needs a directory, a file model a file.
    pub fn is_present(&self, exists: bool, is_dir: bool, is_file: bool) -> (r: bool)
        ensures
            r == (exists && if self.is_directory {
                is_dir
            } else {
                is_file
            }),
    {
        if self.is_directory {
            exists && is_dir
        } else {
            exists && is_file
        }
    }
}

} // verus!
