//! The state of the transcription host and what each command does to it.
//!
//! The host keeps the model catalog, which model's engine is loaded, which
//! model is being downloaded, the streaming session and the decoding options.
//! `SttState::apply` decides each command; what needs the file system, the
//! network or an inference engine is handed back as a `Step` for the caller
//! to carry out.
use vstd::prelude::*;
use crate::stt::catalog::{
    builtin_catalog, builtin_models, catalog_view, find_model, lookup, reports, EngineType,
    ModelInfo, ModelSpec,
};
use crate::stt::error::SttError;
use crate::stt::request::{opt_view, Command};
use crate::stt::session::{finish_effect, push_effect, SessionBuffer};
use crate::text::{owned, str_equal};

verus! {

/// The model whose engine is in memory.
pub struct LoadedModel {
    pub id: String,
    pub engine_type: EngineType,
}

/// The host's state.
pub struct SttState {
    pub models: Vec<ModelSpec>,
    pub loaded: Option<LoadedModel>,
    /// The id of the model being downloaded.
    pub downloading: Option<String>,
    pub session: SessionBuffer,
    /// The language to transcribe; `None` lets the engine detect it.
    pub language: Option<String>,
    pub translate: bool,
}

/// A response the host can give at once.
pub enum Reply {
    Version(u64),
    Empty,
    Models(Vec<ModelInfo>),
    Unloaded,
    SessionStarted(u64),
    Pushed,
}

/// What a command leaves for the caller to do.
pub enum Step {
    /// Answer with this reply.
    Reply(Reply),
    /// Download the catalog model at this index in the background, and answer
    /// that it started.
    StartDownload(usize),
    /// Load the engine of the catalog model at this index, and answer that it
    /// is loaded.
    LoadEngine(usize),
    /// Transcribe these samples, recorded at this rate.
    Transcribe { samples: Vec<i16>, sample_rate: u32 },
    /// Read the WAV file at this path and transcribe it.
    TranscribeWav(String),
}

/// How the loaded engine is to be run.
pub enum TranscriptionPlan {
    Whisper { language: Option<String>, translate: bool },
    Parakeet,
}

/// Whether the model with id `id` is being downloaded.
pub open spec fn is_downloading(downloading: Option<String>, id: Seq<char>) -> bool {
    downloading matches Some(d) && d@ == id
}

/// The language hint Whisper gets for the configured language: none for
/// `auto`, `zh` for both Chinese scripts, the language itself otherwise.
pub open spec fn whisper_language_of(language: Option<Seq<char>>) -> Option<Seq<char>> {
    match language {
        None => None,
        Some(l) => if l == "auto"@ {
            None
        } else if l == "zh-Hans"@ || l == "zh-Hant"@ {
            Some("zh"@)
        } else {
            Some(l)
        },
    }
}

/// Only `auto` and the two Chinese script tags are mapped: `auto` leaves the
/// language to the engine, `zh-Hans` and `zh-Hant` become `zh`, and every
/// other configured language reaches Whisper exactly as configured; no
/// configured language leaves no hint.
pub proof fn law_whisper_hint_keeps_other_languages(l: Seq<char>)
    ensures
        whisper_language_of(None) == None::<Seq<char>>,
        l == "auto"@ ==> whisper_language_of(Some(l)) == None::<Seq<char>>,
        l == "zh-Hans"@ || l == "zh-Hant"@ ==> whisper_language_of(Some(l)) == Some("zh"@),
        l != "auto"@ && l != "zh-Hans"@ && l != "zh-Hant"@ ==> whisper_language_of(Some(l))
            == Some(l),
{
    reveal_strlit("auto");
    reveal_strlit("zh-Hans");
    reveal_strlit("zh-Hant");
    assert("auto"@.len() != "zh-Hans"@.len());
    assert("auto"@.len() != "zh-Hant"@.len());
}

/// The view of an outcome that either hands back nothing or fails.
pub open spec fn unit_outcome(r: Result<Step, SttError>) -> Result<(), SttError> {
    match r {
        Ok(_) => Ok(()),
        Err(e) => Err(e),
    }
}

/// The view of an outcome that hands back samples to transcribe.
pub open spec fn samples_outcome(r: Result<Step, SttError>) -> Result<(Seq<i16>, u32), SttError> {
    match r {
        Ok(Step::Transcribe { samples, sample_rate }) => Ok((samples@, sample_rate)),
        Ok(_) => Err(SttError::ModelNotLoaded),
        Err(e) => Err(e),
    }
}

/// The Whisper language hint for `language`.
pub fn whisper_language(language: &Option<String>) -> (r: Option<String>)
    ensures
        opt_view(r) == whisper_language_of(opt_view(*language)),
{
    match language {
        None => None,
        Some(l) => {
            if str_equal(l.as_str(), "auto") {
                None
            } else if str_equal(l.as_str(), "zh-Hans") || str_equal(l.as_str(), "zh-Hant") {
                Some(owned("zh"))
            } else {
                Some(owned(l.as_str()))
            }
        },
    }
}

impl SttState {
    /// The state at start-up: the built-in catalog, no engine, no download,
    /// no session, language detection, no translation.
    pub fn new() -> (s: Self)
        ensures
            catalog_view(s.models@) == builtin_catalog(),
            s.loaded is None,
            s.downloading is None,
            s.session.current is None,
            s.session.audio@.len() == 0,
            s.session.sample_rate is None,
            s.session.next_id == 1,
            s.language is None,
            !s.translate,
    {
        SttState {
            models: builtin_models(),
            loaded: None,
            downloading: None,
            session: SessionBuffer::new(),
            language: None,
            translate: false,
        }
    }

    /// The reports on all catalog models, given which are on disk.
    pub fn list_models(&self, downloaded: &Vec<bool>) -> (r: Vec<ModelInfo>)
        requires
            downloaded@.len() == self.models@.len(),
        ensures
            r@.len() == self.models@.len(),
            forall|i: int|
                0 <= i < r@.len() ==> reports(
                    #[trigger] r@[i],
                    self.models@[i],
                    downloaded@[i],
                    is_downloading(self.downloading, self.models@[i].id@),
                ),
    {
        let n = self.models.len();
        let mut out: Vec<ModelInfo> = Vec::new();
        for i in 0..n
            invariant
                n == self.models@.len(),
                downloaded@.len() == n,
                out@.len() == i,
                forall|j: int|
                    0 <= j < i ==> reports(
                        #[trigger] out@[j],
                        self.models@[j],
                        downloaded@[j],
                        is_downloading(self.downloading, self.models@[j].id@),
                    ),
        {
            let m = &self.models[i];
            let busy = match &self.downloading {
                Some(d) => str_equal(d.as_str(), m.id),
                None => false,
            };
            out.push(m.info(downloaded[i], busy));
        }
        out
    }

    /// Records that the engine of the catalog model at `index` is loaded.
    pub fn engine_loaded(&mut self, index: usize)
        requires
            index < old(self).models@.len(),
        ensures
            final(self).loaded matches Some(l) && l.id@ == old(self).models@[index as int].id@
                && l.engine_type == old(self).models@[index as int].engine_type,
            final(self).models == old(self).models,
            final(self).downloading == old(self).downloading,
            final(self).session == old(self).session,
            final(self).language == old(self).language,
            final(self).translate == old(self).translate,
    {
        let m = &self.models[index];
        let l = LoadedModel { id: owned(m.id), engine_type: m.engine_type };
        self.loaded = Some(l);
    }

    /// Records that the running download ended, however it ended.
    pub fn download_finished(&mut self)
        ensures
            final(self).downloading is None,
            final(self).models == old(self).models,
            final(self).loaded == old(self).loaded,
            final(self).session == old(self).session,
            final(self).language == old(self).language,
            final(self).translate == old(self).translate,
    {
        self.downloading = None;
    }

    /// How the loaded engine is to be run, or `ModelNotLoaded`.
    pub fn transcription_plan(&self) -> (r: Result<TranscriptionPlan, SttError>)
        ensures
            match self.loaded {
                None => r matches Err(SttError::ModelNotLoaded),
                Some(l) => match l.engine_type {
                    EngineType::Whisper => r matches Ok(
                        TranscriptionPlan::Whisper { language, translate },
                    ) && opt_view(language) == whisper_language_of(opt_view(self.language))
                        && translate == self.translate,
                    EngineType::Parakeet => r matches Ok(TranscriptionPlan::Parakeet),
                },
            },
    {
        match &self.loaded {
            None => Err(SttError::ModelNotLoaded),
            Some(l) => match l.engine_type {
                EngineType::Whisper => Ok(
                    TranscriptionPlan::Whisper {
                        language: whisper_language(&self.language),
                        translate: self.translate,
                    },
                ),
                EngineType::Parakeet => Ok(TranscriptionPlan::Parakeet),
            },
        }
    }

    /// Carries out `command`, given which catalog models are on disk.
    pub fn apply(&mut self, command: Command, downloaded: &Vec<bool>) -> (r: Result<Step, SttError>)
        requires
            downloaded@.len() == old(self).models@.len(),
        ensures
            final(self).models == old(self).models,
            match command {
                Command::Ping => (r matches Ok(Step::Reply(Reply::Version(v))) && v == 1)
                    && *final(self) == *old(self),
                Command::SetLanguage(l) => {
                    &&& r matches Ok(Step::Reply(Reply::Empty))
                    &&& opt_view(final(self).language) == opt_view(l)
                    &&& final(self).loaded == old(self).loaded
                    &&& final(self).downloading == old(self).downloading
                    &&& final(self).session == old(self).session
                    &&& final(self).translate == old(self).translate
                },
                Command::SetTranslate(t) => {
                    &&& r matches Ok(Step::Reply(Reply::Empty))
                    &&& final(self).translate == t
                    &&& final(self).loaded == old(self).loaded
                    &&& final(self).downloading == old(self).downloading
                    &&& final(self).session == old(self).session
                    &&& final(self).language == old(self).language
                },
                Command::ListModels => {
                    &&& r matches Ok(Step::Reply(Reply::Models(infos))) && infos@.len()
                        == old(self).models@.len() && forall|i: int|
                        0 <= i < infos@.len() ==> reports(
                            #[trigger] infos@[i],
                            old(self).models@[i],
                            downloaded@[i],
                            is_downloading(old(self).downloading, old(self).models@[i].id@),
                        )
                    &&& *final(self) == *old(self)
                },
                Command::DownloadModel(id) => match lookup(old(self).models@, id@) {
                    None => (r matches Err(SttError::UnknownModel(x)) && x@ == id@) && *final(self)
                        == *old(self),
                    Some(i) => if old(self).models@[i].url is None {
                        (r matches Err(SttError::NoDownloadUrl(x)) && x@ == id@) && *final(self)
                            == *old(self)
                    } else if old(self).downloading is Some {
                        (r matches Err(SttError::AnotherDownload)) && *final(self) == *old(self)
                    } else {
                        &&& r matches Ok(Step::StartDownload(j)) && j == i
                        &&& opt_view(final(self).downloading) == Some(id@)
                        &&& final(self).loaded == old(self).loaded
                        &&& final(self).session == old(self).session
                        &&& final(self).language == old(self).language
                        &&& final(self).translate == old(self).translate
                    },
                },
                Command::LoadModel(id) => *final(self) == *old(self) && match lookup(
                    old(self).models@,
                    id@,
                ) {
                    None => r matches Err(SttError::UnknownModel(x)) && x@ == id@,
                    Some(i) => if !downloaded@[i] {
                        r matches Err(SttError::ModelNotDownloaded(x)) && x@ == id@
                    } else {
                        r matches Ok(Step::LoadEngine(j)) && j == i
                    },
                },
                Command::UnloadModel => {
                    &&& r matches Ok(Step::Reply(Reply::Unloaded))
                    &&& final(self).loaded is None
                    &&& final(self).downloading == old(self).downloading
                    &&& final(self).session == old(self).session
                    &&& final(self).language == old(self).language
                    &&& final(self).translate == old(self).translate
                },
                Command::StartSession(sample_rate) => {
                    &&& r matches Ok(Step::Reply(Reply::SessionStarted(id)))
                        && id == old(self).session.next_id
                    &&& final(self).session.current == Some(old(self).session.next_id)
                    &&& final(self).session.next_id == crate::stt::session::successor_id(
                        old(self).session.next_id,
                    )
                    &&& final(self).session.sample_rate == Some(sample_rate)
                    &&& final(self).session.audio@.len() == 0
                    &&& final(self).loaded == old(self).loaded
                    &&& final(self).downloading == old(self).downloading
                    &&& final(self).language == old(self).language
                    &&& final(self).translate == old(self).translate
                },
                Command::PushAudio { session_id, data } => {
                    &&& push_effect(
                        old(self).session,
                        final(self).session,
                        session_id,
                        data@,
                        unit_outcome(r),
                    )
                    &&& (r is Ok ==> (r matches Ok(Step::Reply(Reply::Pushed))))
                    &&& final(self).loaded == old(self).loaded
                    &&& final(self).downloading == old(self).downloading
                    &&& final(self).language == old(self).language
                    &&& final(self).translate == old(self).translate
                },
                Command::FinishTranscribe(session_id) => {
                    &&& finish_effect(
                        old(self).session,
                        final(self).session,
                        session_id,
                        samples_outcome(r),
                    )
                    &&& final(self).loaded == old(self).loaded
                    &&& final(self).downloading == old(self).downloading
                    &&& final(self).language == old(self).language
                    &&& final(self).translate == old(self).translate
                },
                Command::TranscribeWav(path) => (r matches Ok(Step::TranscribeWav(p)) && p@
                    == path@) && *final(self) == *old(self),
            },
    {
        match command {
            Command::Ping => Ok(Step::Reply(Reply::Version(1))),
            Command::SetLanguage(l) => {
                self.language = l;
                Ok(Step::Reply(Reply::Empty))
            },
            Command::SetTranslate(t) => {
                self.translate = t;
                Ok(Step::Reply(Reply::Empty))
            },
            Command::ListModels => Ok(Step::Reply(Reply::Models(self.list_models(downloaded)))),
            Command::DownloadModel(id) => {
                let i = match find_model(&self.models, id.as_str()) {
                    Some(i) => i,
                    None => {
                        return Err(SttError::UnknownModel(id));
                    },
                };
                if self.models[i].url.is_none() {
                    return Err(SttError::NoDownloadUrl(id));
                }
                if self.downloading.is_some() {
                    return Err(SttError::AnotherDownload);
                }
                self.downloading = Some(id);
                Ok(Step::StartDownload(i))
            },
            Command::LoadModel(id) => {
                let i = match find_model(&self.models, id.as_str()) {
                    Some(i) => i,
                    None => {
                        return Err(SttError::UnknownModel(id));
                    },
                };
                if !downloaded[i] {
                    return Err(SttError::ModelNotDownloaded(id));
                }
                Ok(Step::LoadEngine(i))
            },
            Command::UnloadModel => {
                self.loaded = None;
                Ok(Step::Reply(Reply::Unloaded))
            },
            Command::StartSession(sample_rate) => {
                let id = self.session.start(sample_rate);
                Ok(Step::Reply(Reply::SessionStarted(id)))
            },
            Command::PushAudio { session_id, data } => {
                match self.session.push_base64(session_id, data.as_str()) {
                    Ok(()) => Ok(Step::Reply(Reply::Pushed)),
                    Err(e) => Err(e),
                }
            },
            Command::FinishTranscribe(session_id) => {
                match self.session.finish(session_id) {
                    Ok((samples, sample_rate)) => Ok(Step::Transcribe { samples, sample_rate }),
                    Err(e) => Err(e),
                }
            },
            Command::TranscribeWav(path) => Ok(Step::TranscribeWav(path)),
        }
    }
}

} // verus!
