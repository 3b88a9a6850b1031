//! Command-line handling of the `kugou-dsp` program: the `--dll-dir`
//! option, the sub-command, the options of `wav`, and the texts printed
//! for usage and errors.
use vstd::prelude::*;
use crate::presets::{allowed_list_text, allowed_text, cli_allowed_ids, is_cli_allowed};
use crate::text::{
    debug_quoted, debug_text, dec_text, is_digit, lemma_parse_dec_roundtrip, parse_i32,
    parse_i32_text, push_dec_i64, str_eq, unsigned_part,
};

verus! {

/// The arguments split into the DLL directory option and the rest.
#[derive(Debug)]
pub struct Invocation {
    /// Value of the last `--dll-dir` option that had a value.
    pub dll_dir: Option<String>,
    /// The remaining arguments, in order.
    pub positional: Vec<String>,
}

/// Sub-commands of the program.
#[derive(PartialEq, Eq, Structural, Clone, Copy, Debug)]
pub enum Command {
    /// `info`: load self-test.
    Info,
    /// `wav IN OUT ...`: offline processing.
    Wav,
}

/// Options of the `wav` sub-command.
#[derive(Debug)]
pub struct WavOptions {
    /// Input WAV path.
    pub input: String,
    /// Output WAV path.
    pub output: String,
    /// Preset id (whitelisted).
    pub preset: i32,
    /// Whether to keep the reverb tail after the end of the input.
    pub keep_tail: bool,
}

/// Errors of the command line; each ends the program with exit code 2.
#[derive(Debug)]
pub enum CliError {
    /// `wav` without both paths.
    WavNeedsPaths,
    /// A sub-command that does not exist.
    UnknownCommand(String),
    /// A `--preset` value that is not an integer.
    BadPresetValue(String),
    /// An argument that `wav` does not know.
    UnknownArg(String),
    /// `wav` without `--preset`.
    MissingPreset,
    /// A preset that is not on the whitelist.
    PresetNotAllowed(i32),
}

/// The split that the argument loop computes from position `i` on, given
/// what it has gathered so far.
pub open spec fn scan_dll_dir(args: Seq<String>, i: int, dll: Option<String>, pos: Seq<String>) -> (
    Option<String>,
    Seq<String>,
)
    decreases args.len() - i,
{
    if i < 0 || i >= args.len() {
        (dll, pos)
    } else if args[i]@ == "--dll-dir"@ && i + 1 < args.len() {
        scan_dll_dir(args, i + 2, Some(args[i + 1]), pos)
    } else {
        scan_dll_dir(args, i + 1, dll, pos.push(args[i]))
    }
}

/// Separates `--dll-dir DIR` from the other arguments; a later option
/// overrides an earlier one, and a trailing `--dll-dir` without a value is
/// kept as an ordinary argument.
pub fn split_dll_dir(args: &Vec<String>) -> (r: Invocation)
    ensures
        (r.dll_dir, r.positional@) == scan_dll_dir(args@, 0, None, Seq::empty()),
{
    let mut dll: Option<String> = None;
    let mut pos: Vec<String> = Vec::new();
    let mut i: usize = 0;
    while i < args.len()
        invariant
            i <= args@.len(),
            scan_dll_dir(args@, 0, None, Seq::empty()) == scan_dll_dir(args@, i as int, dll, pos@),
        decreases args@.len() - i,
    {
        if str_eq(args[i].as_str(), "--dll-dir") && i + 1 < args.len() {
            dll = Some(args[i + 1].clone());
            i = i + 2;
        } else {
            pos.push(args[i].clone());
            i = i + 1;
        }
    }
    Invocation { dll_dir: dll, positional: pos }
}

/// Whether an argument list can be extended without its last argument
/// taking the next one as its value.
pub open spec fn ends_without_dll_flag(s: Seq<String>) -> bool {
    s.len() == 0 || s.last()@ != "--dll-dir"@
}

proof fn lemma_scan_dll_dir_prefix(
    s: Seq<String>,
    t: Seq<String>,
    i: int,
    dll: Option<String>,
    pos: Seq<String>,
)
    requires
        0 <= i <= s.len(),
        ends_without_dll_flag(s),
    ensures
        scan_dll_dir(s + t, i, dll, pos) == scan_dll_dir(
            s + t,
            s.len() as int,
            scan_dll_dir(s, i, dll, pos).0,
            scan_dll_dir(s, i, dll, pos).1,
        ),
    decreases s.len() - i,
{
    if i < s.len() {
        assert((s + t)[i] == s[i]);
        if s[i]@ == "--dll-dir"@ && i + 1 < s.len() {
            assert((s + t)[i + 1] == s[i + 1]);
            lemma_scan_dll_dir_prefix(s, t, i + 2, Some(s[i + 1]), pos);
        } else {
            if s[i]@ == "--dll-dir"@ {
                assert(i == s.len() - 1);
            }
            lemma_scan_dll_dir_prefix(s, t, i + 1, dll, pos.push(s[i]));
        }
    }
}

/// `--dll-dir D` at the end of the arguments sets the DLL directory to `D`
/// and takes both arguments out of the positional ones, whatever came
/// before (unless the argument before is itself a `--dll-dir` waiting for
/// its value); so `x --dll-dir D` gives `D` and `[x]`.
pub proof fn lemma_dll_dir_pair_taken(s: Seq<String>, flag: String, dir: String)
    requires
        ends_without_dll_flag(s),
        flag@ == "--dll-dir"@,
    ensures
        scan_dll_dir(s + seq![flag, dir], 0, None, Seq::empty()) == (
            Some(dir),
            scan_dll_dir(s, 0, None, Seq::empty()).1,
        ),
{
    let t = seq![flag, dir];
    lemma_scan_dll_dir_prefix(s, t, 0, None, Seq::empty());
    let r = scan_dll_dir(s, 0, None, Seq::empty());
    let a = s + t;
    assert(a[s.len() as int] == flag);
    assert(a[s.len() + 1int] == dir);
    assert(scan_dll_dir(a, s.len() + 2int, Some(dir), r.1) == (Some(dir), r.1));
}

/// Any other argument at the end (or a last `--dll-dir` with no value
/// after it) is kept, last, among the positional arguments, and the DLL
/// directory stays what the arguments before gave.
pub proof fn lemma_dll_dir_other_arg_kept(s: Seq<String>, arg: String)
    requires
        ends_without_dll_flag(s),
    ensures
        scan_dll_dir(s + seq![arg], 0, None, Seq::empty()) == (
            scan_dll_dir(s, 0, None, Seq::empty()).0,
            scan_dll_dir(s, 0, None, Seq::empty()).1.push(arg),
        ),
{
    let t = seq![arg];
    lemma_scan_dll_dir_prefix(s, t, 0, None, Seq::empty());
    let r = scan_dll_dir(s, 0, None, Seq::empty());
    let a = s + t;
    assert(a[s.len() as int] == arg);
    assert(scan_dll_dir(a, s.len() + 1int, r.0, r.1.push(arg)) == (r.0, r.1.push(arg)));
}

/// The sub-command named by the first positional argument.
pub open spec fn command_of(pos: Seq<String>) -> Result<Command, CliError> {
    if pos[0]@ == "info"@ {
        Ok(Command::Info)
    } else if pos[0]@ == "wav"@ {
        if pos.len() < 3 {
            Err(CliError::WavNeedsPaths)
        } else {
            Ok(Command::Wav)
        }
    } else {
        Err(CliError::UnknownCommand(pos[0]))
    }
}

/// Chooses the sub-command; `wav` needs its two paths.
pub fn select_command(pos: &Vec<String>) -> (r: Result<Command, CliError>)
    requires
        pos@.len() > 0,
    ensures
        r == command_of(pos@),
{
    if str_eq(pos[0].as_str(), "info") {
        Ok(Command::Info)
    } else if str_eq(pos[0].as_str(), "wav") {
        if pos.len() < 3 {
            Err(CliError::WavNeedsPaths)
        } else {
            Ok(Command::Wav)
        }
    } else {
        Err(CliError::UnknownCommand(pos[0].clone()))
    }
}

/// The `wav` options loop from position `i` on: `--preset N` (the last one
/// wins) and `--keep-tail`; anything else is an error.
pub open spec fn scan_wav_options(pos: Seq<String>, i: int, preset: Option<i32>, keep: bool) -> Result<
    (Option<i32>, bool),
    CliError,
>
    decreases pos.len() - i,
{
    if i < 0 || i >= pos.len() {
        Ok((preset, keep))
    } else if pos[i]@ == "--preset"@ && i + 1 < pos.len() {
        match parse_i32_text(pos[i + 1]@) {
            Some(v) => scan_wav_options(pos, i + 2, Some(v), keep),
            None => Err(CliError::BadPresetValue(pos[i + 1])),
        }
    } else if pos[i]@ == "--keep-tail"@ {
        scan_wav_options(pos, i + 1, preset, true)
    } else {
        Err(CliError::UnknownArg(pos[i]))
    }
}

/// What `wav IN OUT [options]` asks for.
pub open spec fn wav_options_of(pos: Seq<String>) -> Result<(String, String, i32, bool), CliError> {
    match scan_wav_options(pos, 3, None, false) {
        Err(e) => Err(e),
        Ok((None, _)) => Err(CliError::MissingPreset),
        Ok((Some(p), keep)) => if cli_allowed_ids().contains(p) {
            Ok((pos[1], pos[2], p, keep))
        } else {
            Err(CliError::PresetNotAllowed(p))
        },
    }
}

/// No preset value reads as the `--keep-tail` or `--preset` flag.
proof fn lemma_flags_are_not_numbers()
    ensures
        parse_i32_text("--keep-tail"@) is None,
        parse_i32_text("--preset"@) is None,
        "--preset"@ != "--keep-tail"@,
{
    reveal_strlit("--keep-tail");
    reveal_strlit("--preset");
    let k = "--keep-tail"@;
    let p = "--preset"@;
    assert(unsigned_part(k)[0] == '-');
    assert(!is_digit(unsigned_part(k)[0]));
    assert(unsigned_part(p)[0] == '-');
    assert(!is_digit(unsigned_part(p)[0]));
    assert(p.len() != k.len());
}

/// Whether `pos[j]` is a `--preset` with no other `--preset` after it.
pub open spec fn last_preset_at(pos: Seq<String>, j: int) -> bool {
    &&& pos[j]@ == "--preset"@
    &&& forall|k: int| j < k < pos.len() ==> (#[trigger] pos[k])@ != "--preset"@
}

proof fn lemma_scan_wav_flags(pos: Seq<String>, i: int, preset: Option<i32>, keep: bool)
    requires
        0 <= i,
    ensures
        scan_wav_options(pos, i, preset, keep) matches Ok((p, k)) ==> {
            &&& (k <==> (keep || exists|j: int|
                i <= j < pos.len() && (#[trigger] pos[j])@ == "--keep-tail"@))
            &&& (!(exists|j: int| i <= j < pos.len() && (#[trigger] pos[j])@ == "--preset"@)
                ==> p == preset)
            &&& ((exists|j: int| i <= j < pos.len() && (#[trigger] pos[j])@ == "--preset"@)
                ==> exists|j: int|
                i <= j < pos.len() - 1 && last_preset_at(pos, j) && parse_i32_text(pos[j + 1]@)
                    == p)
        },
    decreases pos.len() - i,
{
    lemma_flags_are_not_numbers();
    if i >= pos.len() {
    } else if pos[i]@ == "--preset"@ && i + 1 < pos.len() {
        match parse_i32_text(pos[i + 1]@) {
            Some(v) => {
                lemma_scan_wav_flags(pos, i + 2, Some(v), keep);
                if scan_wav_options(pos, i, preset, keep) is Ok {
                    assert(pos[i]@ != "--keep-tail"@);
                    assert(pos[i + 1]@ != "--keep-tail"@);
                    assert(pos[i + 1]@ != "--preset"@);
                    assert((exists|j: int| i <= j < pos.len() && (#[trigger] pos[j])@ == "--keep-tail"@)
                        <==> (exists|j: int|
                        i + 2 <= j < pos.len() && (#[trigger] pos[j])@ == "--keep-tail"@));
                    if !(exists|j: int| i + 2 <= j < pos.len() && (#[trigger] pos[j])@ == "--preset"@) {
                        assert(last_preset_at(pos, i));
                    }
                }
            },
            None => {},
        }
    } else if pos[i]@ == "--keep-tail"@ {
        lemma_scan_wav_flags(pos, i + 1, preset, true);
        assert(pos[i]@ != "--preset"@);
        assert((exists|j: int| i <= j < pos.len() && (#[trigger] pos[j])@ == "--preset"@) <==> (
        exists|j: int| i + 1 <= j < pos.len() && (#[trigger] pos[j])@ == "--preset"@));
    } else {
    }
}

/// `--keep-tail` counts wherever it stands among the options, and the
/// last `--preset` wins: when the options of `wav` parse, the paths are
/// the two arguments after `wav`, the tail is kept exactly when some
/// option after them is `--keep-tail`, and the preset is the whitelisted
/// value given after the last `--preset`.
pub proof fn lemma_wav_options_flags(pos: Seq<String>)
    ensures
        wav_options_of(pos) matches Ok((input, output, p, keep)) ==> {
            &&& input == pos[1]
            &&& output == pos[2]
            &&& (keep <==> exists|j: int| 3 <= j < pos.len() && (#[trigger] pos[j])@ == "--keep-tail"@)
            &&& cli_allowed_ids().contains(p)
            &&& exists|j: int|
                3 <= j < pos.len() - 1 && last_preset_at(pos, j) && parse_i32_text(pos[j + 1]@)
                    == Some(p)
        },
{
    lemma_scan_wav_flags(pos, 3, None, false);
}

/// Parses the options of `wav IN OUT ...` (options start after the two
/// paths; without them there can be no `--preset`).
pub fn parse_wav_options(pos: &Vec<String>) -> (r: Result<WavOptions, CliError>)
    ensures
        match (r, wav_options_of(pos@)) {
            (Ok(o), Ok((input, output, preset, keep))) => o.input == input && o.output == output
                && o.preset == preset && o.keep_tail == keep,
            (Err(e), Err(f)) => e == f,
            _ => false,
        },
{
    let mut preset: Option<i32> = None;
    let mut keep = false;
    let mut i: usize = 3;
    while i < pos.len()
        invariant
            3 <= i,
            i <= pos@.len() || i == 3,
            preset is Some ==> 5 <= i <= pos@.len(),
            scan_wav_options(pos@, 3, None, false) == scan_wav_options(pos@, i as int, preset, keep),
        decreases pos@.len() - i,
    {
        if str_eq(pos[i].as_str(), "--preset") && i + 1 < pos.len() {
            match parse_i32(pos[i + 1].as_str()) {
                Some(v) => {
                    preset = Some(v);
                    i = i + 2;
                },
                None => {
                    return Err(CliError::BadPresetValue(pos[i + 1].clone()));
                },
            }
        } else if str_eq(pos[i].as_str(), "--keep-tail") {
            keep = true;
            i = i + 1;
        } else {
            return Err(CliError::UnknownArg(pos[i].clone()));
        }
    }
    match preset {
        None => Err(CliError::MissingPreset),
        Some(p) => {
            if !is_cli_allowed(p) {
                Err(CliError::PresetNotAllowed(p))
            } else {
                Ok(WavOptions { input: pos[1].clone(), output: pos[2].clone(), preset: p, keep_tail: keep })
            }
        },
    }
}

/// The usage text; it ends with the preset whitelist.
pub open spec fn usage_text_spec() -> Seq<char> {
    "用法:\nkugou-dsp info [--dll-dir DIR]\nkugou-dsp wav <in.wav> <out.wav> --preset <ID> [--keep-tail] [--dll-dir DIR]\n\n--keep-tail  保留结尾混响拖尾（输出比输入略长；默认与输入等长）\n可用预设 ID: "@
        + allowed_text()
}

/// The usage text printed for a missing or unknown sub-command.
pub fn usage_text() -> (r: String)
    ensures
        r@ == usage_text_spec(),
{
    let mut s = String::from_str(
        "用法:\nkugou-dsp info [--dll-dir DIR]\nkugou-dsp wav <in.wav> <out.wav> --preset <ID> [--keep-tail] [--dll-dir DIR]\n\n--keep-tail  保留结尾混响拖尾（输出比输入略长；默认与输入等长）\n可用预设 ID: ",
    );
    let list = allowed_list_text();
    s.append(list.as_str());
    s
}

/// The message printed for a command-line error.
pub open spec fn cli_error_text(e: CliError) -> Seq<char> {
    match e {
        CliError::WavNeedsPaths => "wav 需要 <in.wav> <out.wav>"@,
        CliError::UnknownCommand(c) => "未知子命令: "@ + c@,
        CliError::BadPresetValue(v) => "--preset 需要整数 ID，收到 "@ + debug_text(v@),
        CliError::UnknownArg(a) => "未知参数 "@ + a@,
        CliError::MissingPreset => "缺少 --preset 参数。可用预设: "@ + allowed_text(),
        CliError::PresetNotAllowed(p) => "预设 "@ + dec_text(p as int) + " 不在 CLI 白名单内。可用预设: "@
            + allowed_text(),
    }
}

/// The message for a `--preset` value that is not an integer, given the
/// value as `{:?}` renders it.
pub fn bad_preset_message(quoted: &str) -> (r: String)
    ensures
        r@ == "--preset 需要整数 ID，收到 "@ + quoted@,
{
    let mut s = String::from_str("--preset 需要整数 ID，收到 ");
    s.append(quoted);
    s
}

/// The message of a command-line error.
pub fn cli_error_message(e: &CliError) -> (r: String)
    ensures
        r@ == cli_error_text(*e),
{
    match e {
        CliError::WavNeedsPaths => String::from_str("wav 需要 <in.wav> <out.wav>"),
        CliError::UnknownCommand(c) => {
            let mut s = String::from_str("未知子命令: ");
            s.append(c.as_str());
            s
        },
        CliError::BadPresetValue(v) => {
            let q = debug_quoted(v.as_str());
            bad_preset_message(q.as_str())
        },
        CliError::UnknownArg(a) => {
            let mut s = String::from_str("未知参数 ");
            s.append(a.as_str());
            s
        },
        CliError::MissingPreset => {
            let mut s = String::from_str("缺少 --preset 参数。可用预设: ");
            let list = allowed_list_text();
            s.append(list.as_str());
            s
        },
        CliError::PresetNotAllowed(p) => {
            let mut s = String::from_str("预设 ");
            push_dec_i64(&mut s, *p as i64);
            s.append(" 不在 CLI 白名单内。可用预设: ");
            let list = allowed_list_text();
            s.append(list.as_str());
            s
        },
    }
}

/// Whole frames in an interleaved buffer, as the `wav` command reports
/// them: a channel count of 0 counts as 1.
pub fn frame_count(samples: usize, channels: u16) -> (r: usize)
    ensures
        r as int == samples as int / (if channels == 0 {
            1int
        } else {
            channels as int
        }),
{
    let c: usize = if channels == 0 {
        1
    } else {
        channels as usize
    };
    samples / c
}

/// Every preset that the usage text offers is accepted: `wav IN OUT
/// --preset N` with `N` written as the whitelist writes it selects preset
/// `N` without keeping the tail.
pub proof fn lemma_listed_presets_are_accepted(pos: Seq<String>, id: i32)
    requires
        cli_allowed_ids().contains(id),
        pos.len() == 5,
        pos[3]@ == "--preset"@,
        pos[4]@ == dec_text(id as int),
    ensures
        wav_options_of(pos) == Ok::<(String, String, i32, bool), CliError>((pos[1], pos[2], id, false)),
{
    lemma_parse_dec_roundtrip(id);
    assert(scan_wav_options(pos, 5, Some(id), false) == Ok::<(Option<i32>, bool), CliError>((Some(id), false)));
}

} // verus!
