//! The commands of the transcription host's line protocol and how a request
//! names one.
use vstd::prelude::*;
use crate::stt::error::{ArgName, SttError};
use crate::text::{owned, str_equal};

verus! {

/// The arguments of a request, each present when the request's `args`
/// object holds that key with a value of the expected JSON type.
pub struct RequestArgs {
    pub language: Option<String>,
    pub translate: Option<bool>,
    pub model_id: Option<String>,
    pub sample_rate: Option<u64>,
    pub session_id: Option<u64>,
    pub encoding: Option<String>,
    pub data: Option<String>,
    pub path: Option<String>,
}

/// A request the host acts on.
pub enum Command {
    Ping,
    SetLanguage(Option<String>),
    SetTranslate(bool),
    ListModels,
    DownloadModel(String),
    LoadModel(String),
    UnloadModel,
    StartSession(u32),
    PushAudio { session_id: u64, data: String },
    FinishTranscribe(u64),
    TranscribeWav(String),
}

/// The characters of an optional string.
pub open spec fn opt_view(s: Option<String>) -> Option<Seq<char>> {
    match s {
        Some(v) => Some(v@),
        None => None,
    }
}

/// The encoding a `push_audio` request names; `pcm_s16le` when it names none.
pub open spec fn requested_encoding(args: RequestArgs) -> Seq<char> {
    match args.encoding {
        Some(e) => e@,
        None => "pcm_s16le"@,
    }
}

/// The sample rate a `start_session` request names, truncated to 32 bits;
/// 16000 when it names none.
pub open spec fn requested_sample_rate(args: RequestArgs) -> u32 {
    match args.sample_rate {
        Some(v) => #[verifier::truncate]
        (v as u32),
        None => 16000,
    }
}

/// The command names of the protocol.
#[derive(Clone, Copy, Debug, PartialEq, Eq, Structural)]
pub enum CommandName {
    Ping,
    SetLanguage,
    SetTranslate,
    ListModels,
    DownloadModel,
    LoadModel,
    UnloadModel,
    StartSession,
    PushAudio,
    FinishTranscribe,
    TranscribeWav,
}

/// The text by which a request names a command.
pub open spec fn command_text(k: CommandName) -> Seq<char> {
    match k {
        CommandName::Ping => "ping"@,
        CommandName::SetLanguage => "set_language"@,
        CommandName::SetTranslate => "set_translate"@,
        CommandName::ListModels => "list_models"@,
        CommandName::DownloadModel => "download_model"@,
        CommandName::LoadModel => "load_model"@,
        CommandName::UnloadModel => "unload_model"@,
        CommandName::StartSession => "start_session"@,
        CommandName::PushAudio => "push_audio"@,
        CommandName::FinishTranscribe => "finish_transcribe"@,
        CommandName::TranscribeWav => "transcribe_wav"@,
    }
}

/// The command names the host knows.
pub open spec fn is_known_command(cmd: Seq<char>) -> bool {
    exists|k: CommandName| command_text(k) == cmd
}

/// Distinct commands have distinct names.
pub proof fn lemma_command_text_injective()
    ensures
        forall|a: CommandName, b: CommandName| command_text(a) == command_text(b) ==> a == b,
{
    reveal_strlit("ping");
    reveal_strlit("set_language");
    reveal_strlit("set_translate");
    reveal_strlit("list_models");
    reveal_strlit("download_model");
    reveal_strlit("load_model");
    reveal_strlit("unload_model");
    reveal_strlit("start_session");
    reveal_strlit("push_audio");
    reveal_strlit("finish_transcribe");
    reveal_strlit("transcribe_wav");
    assert forall|a: CommandName, b: CommandName| command_text(a) == command_text(b) implies a == b by {
        let ta = command_text(a);
        let tb = command_text(b);
        assert(ta.len() == tb.len());
        assert(ta[0] == tb[0]);
        assert(ta[1] == tb[1]);
    }
}

/// The command that `cmd` names, if any.
pub fn command_name(cmd: &str) -> (r: Option<CommandName>)
    ensures
        match r {
            Some(k) => cmd@ == command_text(k),
            None => !is_known_command(cmd@),
        },
{
    if str_equal(cmd, "ping") {
        return Some(CommandName::Ping);
    }
    if str_equal(cmd, "set_language") {
        return Some(CommandName::SetLanguage);
    }
    if str_equal(cmd, "set_translate") {
        return Some(CommandName::SetTranslate);
    }
    if str_equal(cmd, "list_models") {
        return Some(CommandName::ListModels);
    }
    if str_equal(cmd, "download_model") {
        return Some(CommandName::DownloadModel);
    }
    if str_equal(cmd, "load_model") {
        return Some(CommandName::LoadModel);
    }
    if str_equal(cmd, "unload_model") {
        return Some(CommandName::UnloadModel);
    }
    if str_equal(cmd, "start_session") {
        return Some(CommandName::StartSession);
    }
    if str_equal(cmd, "push_audio") {
        return Some(CommandName::PushAudio);
    }
    if str_equal(cmd, "finish_transcribe") {
        return Some(CommandName::FinishTranscribe);
    }
    if str_equal(cmd, "transcribe_wav") {
        return Some(CommandName::TranscribeWav);
    }
    assert forall|k: CommandName| command_text(k) != cmd@ by {
        match k {
            CommandName::Ping => {},
            CommandName::SetLanguage => {},
            CommandName::SetTranslate => {},
            CommandName::ListModels => {},
            CommandName::DownloadModel => {},
            CommandName::LoadModel => {},
            CommandName::UnloadModel => {},
            CommandName::StartSession => {},
            CommandName::PushAudio => {},
            CommandName::FinishTranscribe => {},
            CommandName::TranscribeWav => {},
        }
    }
    None
}

fn copy_opt(s: &Option<String>) -> (r: Option<String>)
    ensures
        opt_view(r) == opt_view(*s),
{
    match s {
        Some(v) => Some(owned(v.as_str())),
        None => None,
    }
}

/// The command that a request with command name `cmd` and arguments `args`
/// names, or why it names none.
pub fn parse_command(cmd: &str, args: &RequestArgs) -> (r: Result<Command, SttError>)
    ensures
        cmd@ == command_text(CommandName::Ping) ==> r matches Ok(Command::Ping),
        cmd@ == command_text(CommandName::SetLanguage) ==> (r matches Ok(Command::SetLanguage(l)) && opt_view(l)
            == opt_view(args.language)),
        cmd@ == command_text(CommandName::SetTranslate) ==> (r matches Ok(Command::SetTranslate(t)) && t == (
        match args.translate {
            Some(b) => b,
            None => false,
        })),
        cmd@ == command_text(CommandName::ListModels) ==> r matches Ok(Command::ListModels),
        cmd@ == command_text(CommandName::DownloadModel) ==> match args.model_id {
            Some(m) => r matches Ok(Command::DownloadModel(x)) && x@ == m@,
            None => r matches Err(SttError::MissingArgument(ArgName::ModelId)),
        },
        cmd@ == command_text(CommandName::LoadModel) ==> match args.model_id {
            Some(m) => r matches Ok(Command::LoadModel(x)) && x@ == m@,
            None => r matches Err(SttError::MissingArgument(ArgName::ModelId)),
        },
        cmd@ == command_text(CommandName::UnloadModel) ==> r matches Ok(Command::UnloadModel),
        cmd@ == command_text(CommandName::StartSession) ==> (r matches Ok(Command::StartSession(sr)) && sr
            == requested_sample_rate(*args)),
        cmd@ == command_text(CommandName::PushAudio) ==> match args.session_id {
            None => r matches Err(SttError::MissingArgument(ArgName::SessionId)),
            Some(sid) => if requested_encoding(*args) != "pcm_s16le"@ {
                r matches Err(SttError::UnsupportedEncoding(e)) && e@ == requested_encoding(*args)
            } else {
                match args.data {
                    None => r matches Err(SttError::MissingArgument(ArgName::Data)),
                    Some(d) => r matches Ok(Command::PushAudio { session_id, data }) && session_id
                        == sid && data@ == d@,
                }
            },
        },
        cmd@ == command_text(CommandName::FinishTranscribe) ==> match args.session_id {
            None => r matches Err(SttError::MissingArgument(ArgName::SessionId)),
            Some(sid) => r matches Ok(Command::FinishTranscribe(x)) && x == sid,
        },
        cmd@ == command_text(CommandName::TranscribeWav) ==> match args.path {
            None => r matches Err(SttError::MissingArgument(ArgName::Path)),
            Some(p) => r matches Ok(Command::TranscribeWav(x)) && x@ == p@,
        },
        !is_known_command(cmd@) ==> (r matches Err(SttError::UnknownCommand(c)) && c@ == cmd@),
{
    let name = command_name(cmd);
    proof {
        lemma_command_text_injective();
        if is_known_command(cmd@) {
            let k = choose|k: CommandName| command_text(k) == cmd@;
            assert(name == Some(k));
        }
    }
    match name {
        None => Err(SttError::UnknownCommand(owned(cmd))),
        Some(CommandName::Ping) => Ok(Command::Ping),
        Some(CommandName::SetLanguage) => Ok(Command::SetLanguage(copy_opt(&args.language))),
        Some(CommandName::SetTranslate) => {
            let t = match args.translate {
                Some(b) => b,
                None => false,
            };
            Ok(Command::SetTranslate(t))
        },
        Some(CommandName::ListModels) => Ok(Command::ListModels),
        Some(CommandName::DownloadModel) => match &args.model_id {
            Some(m) => Ok(Command::DownloadModel(owned(m.as_str()))),
            None => Err(SttError::MissingArgument(ArgName::ModelId)),
        },
        Some(CommandName::LoadModel) => match &args.model_id {
            Some(m) => Ok(Command::LoadModel(owned(m.as_str()))),
            None => Err(SttError::MissingArgument(ArgName::ModelId)),
        },
        Some(CommandName::UnloadModel) => Ok(Command::UnloadModel),
        Some(CommandName::StartSession) => {
            let sr: u32 = match args.sample_rate {
                Some(v) => #[verifier::truncate]
                (v as u32),
                None => 16000,
            };
            Ok(Command::StartSession(sr))
        },
        Some(CommandName::PushAudio) => {
            let sid = match args.session_id {
                Some(s) => s,
                None => {
                    return Err(SttError::MissingArgument(ArgName::SessionId));
                },
            };
            match &args.encoding {
                Some(e) => {
                    if !str_equal(e.as_str(), "pcm_s16le") {
                        return Err(SttError::UnsupportedEncoding(owned(e.as_str())));
                    }
                },
                None => {},
            }
            match &args.data {
                Some(d) => Ok(Command::PushAudio { session_id: sid, data: owned(d.as_str()) }),
                None => Err(SttError::MissingArgument(ArgName::Data)),
            }
        },
        Some(CommandName::FinishTranscribe) => match args.session_id {
            Some(s) => Ok(Command::FinishTranscribe(s)),
            None => Err(SttError::MissingArgument(ArgName::SessionId)),
        },
        Some(CommandName::TranscribeWav) => match &args.path {
            Some(p) => Ok(Command::TranscribeWav(owned(p.as_str()))),
            None => Err(SttError::MissingArgument(ArgName::Path)),
        },
    }
}

} // verus!
