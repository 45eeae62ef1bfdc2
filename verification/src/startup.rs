//! The decisions the desktop app and the transcription host make at start-up:
//! how a crash-log line is written, which paths get a non-ASCII warning, and
//! where the models directory is.
use vstd::prelude::*;
use crate::stt::request::opt_view;
use crate::text::{chars_of, concat2, owned, str_equal};
use vstd::string::*;
use vstd::utf8::is_ascii_chars;

verus! {

/// What is written to the crash log for `line`: the line, ended by a newline
/// unless it already ends with one.
pub open spec fn crash_log_text(line: Seq<char>) -> Seq<char> {
    if line.len() > 0 && line.last() == '\n' {
        line
    } else {
        line + "\n"@
    }
}

/// Every crash-log record ends with a newline, and a line that already is a
/// record is written as it is.
pub proof fn law_crash_log_record_is_line(line: Seq<char>)
    ensures
        crash_log_text(line).len() > 0,
        crash_log_text(line).last() == '\n',
        crash_log_text(crash_log_text(line)) == crash_log_text(line),
{
    reveal_strlit("\n");
}

/// A crash-log record holds the whole line: the line is a prefix of the
/// record, and the record is the line itself (when it already ends with a
/// newline) or the line followed by one newline.
pub proof fn law_crash_log_record_keeps_whole_line(line: Seq<char>)
    ensures
        crash_log_text(line).len() >= line.len(),
        crash_log_text(line).take(line.len() as int) == line,
        crash_log_text(line) == line || crash_log_text(line) == line.push('\n'),
        line.len() > 0 && line.last() == '\n' ==> crash_log_text(line) == line,
        !(line.len() > 0 && line.last() == '\n') ==> crash_log_text(line) == line.push('\n'),
{
    reveal_strlit("\n");
    assert(line + "\n"@ =~= line.push('\n'));
    assert(crash_log_text(line).take(line.len() as int) =~= line);
}

/// The text appended to the crash log for `line`.
pub fn crash_log_record(line: &str) -> (r: String)
    ensures
        r@ == crash_log_text(line@),
{
    let chars = chars_of(line);
    let n = chars.len();
    if n > 0 && chars[n - 1] == '\n' {
        owned(line)
    } else {
        concat2(line, "\n")
    }
}

/// The characters of an optional `&str`.
pub open spec fn opt_str_view(s: Option<&str>) -> Option<Seq<char>> {
    match s {
        Some(v) => Some(v@),
        None => None,
    }
}

/// The warning for `value` under `label`, if it holds a non-ASCII character.
pub open spec fn non_ascii_warning(label: Seq<char>, value: Option<Seq<char>>) -> Seq<Seq<char>> {
    match value {
        Some(v) => if is_ascii_chars(v) {
            seq![]
        } else {
            seq![label + " contains non-ASCII chars: "@ + v]
        },
        None => seq![],
    }
}

/// The warnings about the `APPDATA` and `LOCALAPPDATA` variables and the
/// executable's path, in that order, for each that holds a non-ASCII
/// character.
pub open spec fn non_ascii_warnings(
    appdata: Option<Seq<char>>,
    local_appdata: Option<Seq<char>>,
    exe_path: Option<Seq<char>>,
) -> Seq<Seq<char>> {
    non_ascii_warning("APPDATA"@, appdata) + non_ascii_warning("LOCALAPPDATA"@, local_appdata)
        + non_ascii_warning("Executable path"@, exe_path)
}

/// The characters of each string of `v`.
pub open spec fn string_views(v: Seq<String>) -> Seq<Seq<char>> {
    v.map_values(|s: String| s@)
}

fn push_non_ascii_warning(out: &mut Vec<String>, label: &str, value: Option<&str>)
    ensures
        string_views(final(out)@) == string_views(old(out)@) + non_ascii_warning(
            label@,
            opt_str_view(value),
        ),
{
    match value {
        Some(v) => {
            if !v.is_ascii() {
                let mut msg = concat2(label, " contains non-ASCII chars: ");
                msg.append(v);
                out.push(msg);
                assert(string_views(final(out)@) =~= string_views(old(out)@) + non_ascii_warning(
                    label@,
                    opt_str_view(value),
                ));
            } else {
                assert(string_views(final(out)@) =~= string_views(old(out)@) + non_ascii_warning(
                    label@,
                    opt_str_view(value),
                ));
            }
        },
        None => {
            assert(string_views(final(out)@) =~= string_views(old(out)@) + non_ascii_warning(
                label@,
                opt_str_view(value),
            ));
        },
    }
}

/// The warnings to log about paths that some native libraries cannot open.
pub fn non_ascii_findings(appdata: Option<&str>, local_appdata: Option<&str>, exe_path: Option<
    &str,
>) -> (r: Vec<String>)
    ensures
        string_views(r@) == non_ascii_warnings(
            opt_str_view(appdata),
            opt_str_view(local_appdata),
            opt_str_view(exe_path),
        ),
{
    let mut out: Vec<String> = Vec::new();
    assert(string_views(out@) =~= Seq::<Seq<char>>::empty());
    push_non_ascii_warning(&mut out, "APPDATA", appdata);
    push_non_ascii_warning(&mut out, "LOCALAPPDATA", local_appdata);
    push_non_ascii_warning(&mut out, "Executable path", exe_path);
    assert(string_views(out@) =~= non_ascii_warnings(
        opt_str_view(appdata),
        opt_str_view(local_appdata),
        opt_str_view(exe_path),
    ));
    out
}

/// The value of the last `--models-dir` flag among `args` that is followed
/// by a value; a value is never itself read as a flag.
pub open spec fn models_dir_flag(args: Seq<Seq<char>>) -> Option<Seq<char>>
    decreases args.len(),
{
    if args.len() == 0 {
        None
    } else if args[0] == "--models-dir"@ {
        if args.len() >= 2 {
            match models_dir_flag(args.skip(2)) {
                Some(v) => Some(v),
                None => Some(args[1]),
            }
        } else {
            None
        }
    } else {
        models_dir_flag(args.drop_first())
    }
}

/// `a`, or `b` when `a` is none.
pub open spec fn or_else(a: Option<Seq<char>>, b: Option<Seq<char>>) -> Option<Seq<char>> {
    match a {
        Some(v) => Some(v),
        None => b,
    }
}

/// The models directory named on the command line (`args` without the
/// program name).
pub fn models_dir_arg(args: &Vec<String>) -> (r: Option<String>)
    ensures
        opt_view(r) == models_dir_flag(string_views(args@)),
{
    let n = args.len();
    let ghost views = string_views(args@);
    let mut i: usize = 0;
    let mut found: Option<String> = None;
    assert(views.skip(0) =~= views);
    while i < n
        invariant
            i <= n,
            n == args@.len(),
            views == string_views(args@),
            models_dir_flag(views) == or_else(models_dir_flag(views.skip(i as int)), opt_view(found)),
        decreases n - i,
    {
        assert(views[i as int] == args@[i as int]@);
        if str_equal(args[i].as_str(), "--models-dir") {
            if i + 1 < n {
                assert(views.skip(i as int).skip(2) =~= views.skip(i + 2));
                assert(views[i + 1] == args@[i + 1]@);
                found = Some(owned(args[i + 1].as_str()));
                i += 2;
            } else {
                assert(views.skip(i + 1).len() == 0);
                i += 1;
            }
        } else {
            assert(views.skip(i as int).drop_first() =~= views.skip(i + 1));
            i += 1;
        }
    }
    assert(views.skip(i as int).len() == 0);
    found
}

/// Where the models directory comes from.
pub enum ModelsDirSource {
    /// The `--models-dir` flag.
    Flag(String),
    /// The `HANDY_MODELS_DIR` environment variable.
    Environment(String),
    /// `models` under the current directory.
    CurrentDirModels,
}

/// The models directory: the flag wins over the environment variable, which
/// wins over `models` under the current directory.
pub fn choose_models_dir(flag: Option<String>, env: Option<String>) -> (r: ModelsDirSource)
    ensures
        match flag {
            Some(f) => r matches ModelsDirSource::Flag(x) && x@ == f@,
            None => match env {
                Some(e) => r matches ModelsDirSource::Environment(x) && x@ == e@,
                None => r matches ModelsDirSource::CurrentDirModels,
            },
        },
{
    match flag {
        Some(f) => ModelsDirSource::Flag(f),
        None => match env {
            Some(e) => ModelsDirSource::Environment(e),
            None => ModelsDirSource::CurrentDirModels,
        },
    }
}

} // verus!
