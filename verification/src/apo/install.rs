//! `apo-install` / `apo-uninstall`: arguments, registry paths, the backup
//! of an endpoint's original effect slot and its restoration, and the
//! messages of both commands.
use vstd::prelude::*;
use crate::apo::{APO_DIR, BACKUP_ROOT, CLSID_KUGOU_APO, FX_PROP_KEY};
use crate::text::{
    count_char, count_matches, join_with, lemma_join_push, str_eq, strip_both, strip_chars, strip_end,
    strip_start, trim_text, CharSet,
};

verus! {

/// What `apo-install` / `apo-uninstall` took from their arguments.
#[derive(Debug)]
pub struct InstallArgs {
    /// `--from DIR`: where the APO files are.
    pub from: Option<String>,
    /// `--device ID`: the endpoint to use.
    pub device: Option<String>,
    /// One warning per argument that was not understood.
    pub warnings: Vec<String>,
}

/// The warning for an argument that is not understood.
pub open spec fn unknown_arg_warning(arg: Seq<char>) -> Seq<char> {
    "忽略无法识别的参数: "@ + arg + "（--device 的值应为设备 ID 本身，如 {b5287108-...}）"@
}

/// The argument loop from position `i` on.
pub open spec fn scan_install_args(
    args: Seq<String>,
    i: int,
    from: Option<String>,
    device: Option<String>,
    warnings: Seq<Seq<char>>,
) -> (Option<String>, Option<String>, Seq<Seq<char>>)
    decreases args.len() - i,
{
    if i < 0 || i >= args.len() {
        (from, device, warnings)
    } else if args[i]@ == "--from"@ && i + 1 < args.len() {
        scan_install_args(args, i + 2, Some(args[i + 1]), device, warnings)
    } else if args[i]@ == "--device"@ && i + 1 < args.len() {
        scan_install_args(args, i + 2, from, Some(args[i + 1]), warnings)
    } else {
        scan_install_args(args, i + 1, from, device, warnings.push(unknown_arg_warning(args[i]@)))
    }
}

/// Whether an argument list can be extended without its last argument
/// taking the next one as its value.
pub open spec fn ends_without_install_flag(s: Seq<String>) -> bool {
    s.len() == 0 || (s.last()@ != "--from"@ && s.last()@ != "--device"@)
}

/// What the arguments `s` give on their own.
pub open spec fn install_args_of(s: Seq<String>) -> (Option<String>, Option<String>, Seq<Seq<char>>) {
    scan_install_args(s, 0, None, None, Seq::empty())
}

proof fn lemma_scan_install_prefix(
    s: Seq<String>,
    t: Seq<String>,
    i: int,
    from: Option<String>,
    device: Option<String>,
    warnings: Seq<Seq<char>>,
)
    requires
        0 <= i <= s.len(),
        ends_without_install_flag(s),
    ensures
        ({
            let r = scan_install_args(s, i, from, device, warnings);
            scan_install_args(s + t, i, from, device, warnings) == scan_install_args(
                s + t,
                s.len() as int,
                r.0,
                r.1,
                r.2,
            )
        }),
    decreases s.len() - i,
{
    if i < s.len() {
        assert((s + t)[i] == s[i]);
        if i + 1 < s.len() {
            assert((s + t)[i + 1] == s[i + 1]);
        }
        if s[i]@ == "--from"@ && i + 1 < s.len() {
            lemma_scan_install_prefix(s, t, i + 2, Some(s[i + 1]), device, warnings);
        } else if s[i]@ == "--device"@ && i + 1 < s.len() {
            lemma_scan_install_prefix(s, t, i + 2, from, Some(s[i + 1]), warnings);
        } else {
            if s[i]@ == "--from"@ || s[i]@ == "--device"@ {
                assert(i == s.len() - 1);
            }
            lemma_scan_install_prefix(
                s,
                t,
                i + 1,
                from,
                device,
                warnings.push(unknown_arg_warning(s[i]@)),
            );
        }
    }
}

/// `--device ID` at the end of the arguments chooses `ID` as the device,
/// with no warning, whatever came before (unless the argument before is
/// itself an option waiting for its value); so `--device ID` alone gives
/// no `--from`, the device `ID` and no warning.
pub proof fn lemma_device_option_taken(s: Seq<String>, flag: String, id: String)
    requires
        ends_without_install_flag(s),
        flag@ == "--device"@,
    ensures
        install_args_of(s + seq![flag, id]) == (install_args_of(s).0, Some(id), install_args_of(s).2),
{
    let t = seq![flag, id];
    let a = s + t;
    lemma_scan_install_prefix(s, t, 0, None, None, Seq::empty());
    let r = install_args_of(s);
    reveal_strlit("--from");
    reveal_strlit("--device");
    assert(a[s.len() as int] == flag);
    assert(a[s.len() + 1int] == id);
    assert("--from"@.len() == 6);
    assert(flag@.len() == 8);
    assert(flag@ != "--from"@);
    assert(scan_install_args(a, s.len() + 2int, r.0, Some(id), r.2) == (r.0, Some(id), r.2));
}

/// `--from DIR` at the end of the arguments chooses `DIR` as the source,
/// with no warning, whatever came before (with the same exception).
pub proof fn lemma_from_option_taken(s: Seq<String>, flag: String, dir: String)
    requires
        ends_without_install_flag(s),
        flag@ == "--from"@,
    ensures
        install_args_of(s + seq![flag, dir]) == (Some(dir), install_args_of(s).1, install_args_of(s).2),
{
    let t = seq![flag, dir];
    let a = s + t;
    lemma_scan_install_prefix(s, t, 0, None, None, Seq::empty());
    let r = install_args_of(s);
    assert(a[s.len() as int] == flag);
    assert(a[s.len() + 1int] == dir);
    assert(scan_install_args(a, s.len() + 2int, Some(dir), r.1, r.2) == (Some(dir), r.1, r.2));
}

/// Any other argument at the end (or a last option with no value after
/// it) adds one warning naming it, and changes nothing else.
pub proof fn lemma_other_install_arg_warned(s: Seq<String>, arg: String)
    requires
        ends_without_install_flag(s),
    ensures
        install_args_of(s + seq![arg]) == (
            install_args_of(s).0,
            install_args_of(s).1,
            install_args_of(s).2.push(unknown_arg_warning(arg@)),
        ),
{
    let t = seq![arg];
    let a = s + t;
    lemma_scan_install_prefix(s, t, 0, None, None, Seq::empty());
    let r = install_args_of(s);
    assert(a[s.len() as int] == arg);
    let w = r.2.push(unknown_arg_warning(arg@));
    assert(scan_install_args(a, s.len() + 1int, r.0, r.1, w) == (r.0, r.1, w));
}

/// Reads `--from DIR` and `--device ID` (the last of each wins); every
/// other argument gives a warning.
pub fn parse_args(args: &Vec<String>) -> (r: InstallArgs)
    ensures
        (r.from, r.device, r.warnings@.map_values(|w: String| w@)) == scan_install_args(
            args@,
            0,
            None,
            None,
            Seq::empty(),
        ),
{
    let mut from: Option<String> = None;
    let mut device: Option<String> = None;
    let mut warnings: Vec<String> = Vec::new();
    let mut i: usize = 0;
    assert(warnings@.map_values(|w: String| w@) =~= Seq::<Seq<char>>::empty());
    while i < args.len()
        invariant
            i <= args@.len(),
            scan_install_args(args@, 0, None, None, Seq::empty()) == scan_install_args(
                args@,
                i as int,
                from,
                device,
                warnings@.map_values(|w: String| w@),
            ),
        decreases args@.len() - i,
    {
        if str_eq(args[i].as_str(), "--from") && i + 1 < args.len() {
            from = Some(args[i + 1].clone());
            i = i + 2;
        } else if str_eq(args[i].as_str(), "--device") && i + 1 < args.len() {
            device = Some(args[i + 1].clone());
            i = i + 2;
        } else {
            let ghost before = warnings@;
            let mut w = String::from_str("忽略无法识别的参数: ");
            w.append(args[i].as_str());
            w.append("（--device 的值应为设备 ID 本身，如 {b5287108-...}）");
            warnings.push(w);
            assert(warnings@.map_values(|w: String| w@) =~= before.map_values(|w: String| w@).push(
                unknown_arg_warning(args@[i as int]@),
            ));
            i = i + 1;
        }
    }
    InstallArgs { from, device, warnings }
}

/// A device id without surrounding white space and braces.
pub open spec fn endpoint_id_text(d: Seq<char>) -> Seq<char> {
    strip_end(strip_start(trim_text(d), CharSet::OpenBrace), CharSet::CloseBrace)
}

/// Removes white space, then leading `{` and trailing `}`, from a device
/// id: the form used in registry paths.
pub fn endpoint_id(d: &str) -> (r: String)
    ensures
        r@ == endpoint_id_text(d@),
{
    let t = strip_chars(d, CharSet::WhiteSpace, true, true);
    let u = strip_chars(t.as_str(), CharSet::OpenBrace, true, false);
    strip_chars(u.as_str(), CharSet::CloseBrace, false, true)
}

/// Removes leading `{` and trailing `}` (no white-space trim): the form
/// of the default device's GUID used in registry paths.
pub fn unbrace(d: &str) -> (r: String)
    ensures
        r@ == strip_end(strip_start(d@, CharSet::OpenBrace), CharSet::CloseBrace),
{
    let u = strip_chars(d, CharSet::OpenBrace, true, false);
    strip_chars(u.as_str(), CharSet::CloseBrace, false, true)
}

/// Whether a device id looks like a GUID: 36 bytes of UTF-8 (the length
/// as `str::len` reports it) with four
/// hyphens, once white space and braces are removed.
pub open spec fn looks_like_guid_text(d: Seq<char>) -> bool {
    &&& vstd::utf8::encode_utf8(endpoint_id_text(d)).len() as usize == 36
    &&& count_char(endpoint_id_text(d), '-') == 4
}

/// The rough check of `--device` values.
pub fn looks_like_guid(d: &str) -> (r: bool)
    ensures
        r == looks_like_guid_text(d@),
{
    let g = endpoint_id(d);
    let gs = g.as_str();
    gs.len() == 36 && count_matches(gs, '-') == 4
}

/// The error for a `--device` value that is not a device id.
pub open spec fn bad_device_text(d: Seq<char>) -> Seq<char> {
    "[失败] --device 的值不是合法设备 ID: "@ + d
        + "\n正确格式示例（注意花括号是 ID 的一部分）:\n  apo-install --device \"{b5287108-53c1-41d2-aa81-4955c333e08b}\"\n先运行 `kugou-dsp devices` 查看设备清单"@
}

/// The error for a `--device` value that is not a device id.
pub fn bad_device_message(d: &str) -> (r: String)
    ensures
        r@ == bad_device_text(d@),
{
    let mut s = String::from_str("[失败] --device 的值不是合法设备 ID: ");
    s.append(d);
    s.append(
        "\n正确格式示例（注意花括号是 ID 的一部分）:\n  apo-install --device \"{b5287108-53c1-41d2-aa81-4955c333e08b}\"\n先运行 `kugou-dsp devices` 查看设备清单",
    );
    s
}

/// Arguments for the elevated copy of `apo-install`.
pub open spec fn install_relaunch_text(from: Option<Seq<char>>, device: Option<Seq<char>>) -> Seq<
    char,
> {
    "apo-install"@ + match from {
        Some(f) => " --from \""@ + f + "\""@,
        None => Seq::empty(),
    } + match device {
        Some(d) => " --device "@ + d,
        None => Seq::empty(),
    } + " --elevated"@
}

/// Arguments for the elevated copy of `apo-install`.
pub fn install_relaunch_args(from: &Option<String>, device: &Option<String>) -> (r: String)
    ensures
        r@ == install_relaunch_text(
            match from {
                Some(f) => Some(f@),
                None => None,
            },
            match device {
                Some(d) => Some(d@),
                None => None,
            },
        ),
{
    let mut s = String::from_str("apo-install");
    match from {
        Some(f) => {
            s.append(" --from \"");
            s.append(f.as_str());
            s.append("\"");
        },
        None => {},
    }
    match device {
        Some(d) => {
            s.append(" --device ");
            s.append(d.as_str());
        },
        None => {},
    }
    s.append(" --elevated");
    s
}

/// Arguments for the elevated copy of `apo-uninstall`.
pub fn uninstall_relaunch_args(device: &Option<String>) -> (r: String)
    ensures
        r@ == "apo-uninstall"@ + match device {
            Some(d) => " --device "@ + d@,
            None => Seq::empty(),
        } + " --elevated"@,
{
    let mut s = String::from_str("apo-uninstall");
    match device {
        Some(d) => {
            s.append(" --device ");
            s.append(d.as_str());
        },
        None => {},
    }
    s.append(" --elevated");
    s
}

/// Registry key of the KuGouAPO COM class.
pub open spec fn clsid_key_text() -> Seq<char> {
    "SOFTWARE\\Classes\\CLSID\\"@ + CLSID_KUGOU_APO@
}

/// Registry key of the KuGouAPO COM class.
pub fn clsid_key() -> (r: String)
    ensures
        r@ == clsid_key_text(),
{
    let mut s = String::from_str("SOFTWARE\\Classes\\CLSID\\");
    s.append(CLSID_KUGOU_APO);
    s
}

/// Registry key of the class's in-process server.
pub fn inproc_key() -> (r: String)
    ensures
        r@ == "SOFTWARE\\Classes\\CLSID\\"@ + CLSID_KUGOU_APO@ + "\\InprocServer32"@,
{
    let mut s = clsid_key();
    s.append("\\InprocServer32");
    s
}

/// Path of the deployed 64-bit APO DLL.
pub fn apo_dll_path() -> (r: String)
    ensures
        r@ == APO_DIR@ + "\\kgapo64.dll"@,
{
    let mut s = String::from_str(APO_DIR);
    s.append("\\kgapo64.dll");
    s
}

/// FxProperties key of the endpoint `guid` (given without braces).
pub open spec fn fx_key_text(guid: Seq<char>) -> Seq<char> {
    FX_PROP_KEY@ + "\\{"@ + guid + "}\\FxProperties"@
}

/// FxProperties key of the endpoint `guid` (given without braces).
pub fn fx_key(guid: &str) -> (r: String)
    ensures
        r@ == fx_key_text(guid@),
{
    let mut s = String::from_str(FX_PROP_KEY);
    s.append("\\{");
    s.append(guid);
    s.append("}\\FxProperties");
    s
}

/// FxProperties key of an endpoint subkey as enumerated (with braces).
pub fn fx_key_of_subkey(dev: &str) -> (r: String)
    ensures
        r@ == FX_PROP_KEY@ + "\\"@ + dev@ + "\\FxProperties"@,
{
    let mut s = String::from_str(FX_PROP_KEY);
    s.append("\\");
    s.append(dev);
    s.append("\\FxProperties");
    s
}

/// Backup key of the endpoint `guid` (given without braces).
pub open spec fn backup_key_text(guid: Seq<char>) -> Seq<char> {
    BACKUP_ROOT@ + "\\{"@ + guid + "}"@
}

/// Backup key of the endpoint `guid` (given without braces).
pub fn backup_key(guid: &str) -> (r: String)
    ensures
        r@ == backup_key_text(guid@),
{
    let mut s = String::from_str(BACKUP_ROOT);
    s.append("\\{");
    s.append(guid);
    s.append("}");
    s
}

/// Marker stored in a backup when the endpoint had no value in the slot.
pub const NO_VALUE_MARK: &'static str = "!VALUE";

/// What the backup records for the slot's original value.
pub open spec fn backup_text(original: Option<Seq<char>>) -> Seq<char> {
    match original {
        Some(v) => v,
        None => NO_VALUE_MARK@,
    }
}

/// What the backup records: the original value, or the marker when there
/// was none.
pub fn backup_value(original: &Option<String>) -> (r: String)
    ensures
        r@ == backup_text(
            match original {
                Some(v) => Some(v@),
                None => None,
            },
        ),
{
    match original {
        Some(v) => v.clone(),
        None => String::from_str(NO_VALUE_MARK),
    }
}

/// How an endpoint's slot is restored from its backup.
#[derive(Debug)]
pub enum RestoreAction {
    /// Delete the value from the slot.
    Delete,
    /// Write this value into the slot.
    Write(String),
}

/// The slot after a restoration (`None`: no value).
pub open spec fn action_slot(a: RestoreAction) -> Option<Seq<char>> {
    match a {
        RestoreAction::Delete => None,
        RestoreAction::Write(v) => Some(v@),
    }
}

/// The slot after restoring from a backup value (`None`: no value).
pub open spec fn restored_slot(backup: Option<Seq<char>>) -> Option<Seq<char>> {
    match backup {
        Some(v) => if v == NO_VALUE_MARK@ {
            None
        } else {
            Some(v)
        },
        None => None,
    }
}

/// The restoration that a backup value calls for: the marker, or a missing
/// backup value, deletes the slot's value; any other value is written back.
pub fn restore_action(backup: &Option<String>) -> (r: RestoreAction)
    ensures
        restored_slot(
            match backup {
                Some(v) => Some(v@),
                None => None,
            },
        ) == action_slot(r),
{
    match backup {
        Some(v) => {
            if str_eq(v.as_str(), NO_VALUE_MARK) {
                RestoreAction::Delete
            } else {
                RestoreAction::Write(v.clone())
            }
        },
        None => RestoreAction::Delete,
    }
}

/// Uninstalling restores what installing backed up: the slot gets its
/// original value back, or loses its value if it had none. (An original
/// value that is itself the marker `!VALUE` is deleted instead.)
pub proof fn lemma_backup_restore_roundtrip(original: Option<Seq<char>>)
    requires
        original != Some(NO_VALUE_MARK@),
    ensures
        restored_slot(Some(backup_text(original))) == original,
{
}

/// Whether an endpoint's slot holds KuGouAPO.
pub open spec fn mounts_kugou(value: Option<Seq<char>>) -> bool {
    value == Some(CLSID_KUGOU_APO@)
}

/// An enumerated endpoint subkey and the value of its effect slot.
pub open spec fn entry_view(e: (String, Option<String>)) -> (Seq<char>, Option<Seq<char>>) {
    (
        e.0@,
        match e.1 {
            Some(v) => Some(v@),
            None => None,
        },
    )
}

/// The endpoints (subkey names without braces) whose slot holds
/// KuGouAPO, in enumeration order.
pub open spec fn mounted_of(entries: Seq<(Seq<char>, Option<Seq<char>>)>) -> Seq<Seq<char>>
    decreases entries.len(),
{
    if entries.len() == 0 {
        seq![]
    } else {
        let rest = mounted_of(entries.drop_last());
        if mounts_kugou(entries.last().1) {
            rest.push(strip_both(entries.last().0, CharSet::Braces))
        } else {
            rest
        }
    }
}

/// Whether an enumerated entry's slot holds exactly the KuGouAPO CLSID.
pub open spec fn slot_is_kugou(e: (Seq<char>, Option<Seq<char>>)) -> bool {
    e.1 == Some(CLSID_KUGOU_APO@)
}

/// The endpoints reported as mounted are exactly the enumerated entries
/// whose slot value is the KuGouAPO CLSID, kept in enumeration order and
/// named by their subkey without braces; whether an entry is reported
/// depends on its slot value alone.
pub proof fn lemma_mounted_are_the_kugou_slots(entries: Seq<(Seq<char>, Option<Seq<char>>)>)
    ensures
        mounted_of(entries) == entries.filter(|e: (Seq<char>, Option<Seq<char>>)| slot_is_kugou(e)).map_values(
            |e: (Seq<char>, Option<Seq<char>>)| strip_both(e.0, CharSet::Braces),
        ),
    decreases entries.len(),
{
    let pred = |e: (Seq<char>, Option<Seq<char>>)| slot_is_kugou(e);
    let name = |e: (Seq<char>, Option<Seq<char>>)| strip_both(e.0, CharSet::Braces);
    reveal(Seq::filter);
    if entries.len() == 0 {
        assert(entries.filter(pred).map_values(name) =~= Seq::<Seq<char>>::empty());
    } else {
        lemma_mounted_are_the_kugou_slots(entries.drop_last());
        let sub = entries.drop_last().filter(pred);
        if pred(entries.last()) {
            assert(sub.push(entries.last()).map_values(name) =~= sub.map_values(name).push(
                name(entries.last()),
            ));
        }
    }
}

/// Two enumerations read one after the other report the endpoints of the
/// first, then those of the second.
pub proof fn lemma_mounted_of_concat(
    a: Seq<(Seq<char>, Option<Seq<char>>)>,
    b: Seq<(Seq<char>, Option<Seq<char>>)>,
)
    ensures
        mounted_of(a + b) == mounted_of(a) + mounted_of(b),
    decreases b.len(),
{
    if b.len() == 0 {
        assert(a + b =~= a);
        assert(mounted_of(a) + mounted_of(b) =~= mounted_of(a));
    } else {
        lemma_mounted_of_concat(a, b.drop_last());
        assert((a + b).drop_last() =~= a + b.drop_last());
        assert((a + b).last() == b.last());
        if mounts_kugou(b.last().1) {
            assert(mounted_of(a) + mounted_of(b) =~= (mounted_of(a) + mounted_of(b.drop_last())).push(
                strip_both(b.last().0, CharSet::Braces),
            ));
        } else {
            assert(mounted_of(a) + mounted_of(b) =~= mounted_of(a) + mounted_of(b.drop_last()));
        }
    }
}

/// Whether a slot value names KuGouAPO.
pub fn is_kugou_mounted(value: &Option<String>) -> (r: bool)
    ensures
        r == mounts_kugou(
            match value {
                Some(v) => Some(v@),
                None => None,
            },
        ),
{
    match value {
        Some(v) => str_eq(v.as_str(), CLSID_KUGOU_APO),
        None => false,
    }
}

/// The endpoints with KuGouAPO mounted, from the enumerated subkeys and
/// their slot values.
pub fn mounted_endpoints(entries: &Vec<(String, Option<String>)>) -> (r: Vec<String>)
    ensures
        r@.map_values(|g: String| g@) == mounted_of(entries@.map_values(|e| entry_view(e))),
{
    let ghost ev = entries@.map_values(|e| entry_view(e));
    let mut out: Vec<String> = Vec::new();
    let mut i: usize = 0;
    assert(ev.take(0) =~= Seq::<(Seq<char>, Option<Seq<char>>)>::empty());
    assert(out@.map_values(|g: String| g@) =~= Seq::<Seq<char>>::empty());
    while i < entries.len()
        invariant
            i <= entries@.len(),
            ev == entries@.map_values(|e| entry_view(e)),
            out@.map_values(|g: String| g@) == mounted_of(ev.take(i as int)),
        decreases entries@.len() - i,
    {
        assert(ev.take(i + 1).drop_last() =~= ev.take(i as int));
        assert(ev.take(i + 1).last() == entry_view(entries@[i as int]));
        let ghost before = out@;
        if is_kugou_mounted(&entries[i].1) {
            let g = strip_chars(entries[i].0.as_str(), CharSet::Braces, true, true);
            out.push(g);
            assert(out@.map_values(|g: String| g@) =~= before.map_values(|g: String| g@).push(
                strip_both(entries@[i as int].0@, CharSet::Braces),
            ));
        }
        i = i + 1;
    }
    assert(ev.take(i as int) =~= ev);
    out
}

/// The endpoints that `apo-uninstall` restores: the given device (without
/// white space and braces), or else every endpoint with KuGouAPO mounted.
pub fn uninstall_targets(device: &Option<String>, entries: &Vec<(String, Option<String>)>) -> (r:
    Vec<String>)
    ensures
        r@.map_values(|g: String| g@) == match device {
            Some(d) => seq![endpoint_id_text(d@)],
            None => mounted_of(entries@.map_values(|e| entry_view(e))),
        },
{
    match device {
        Some(d) => {
            let mut v: Vec<String> = Vec::new();
            v.push(endpoint_id(d.as_str()));
            assert(v@.map_values(|g: String| g@) =~= seq![endpoint_id_text(d@)]);
            v
        },
        None => mounted_endpoints(entries),
    }
}

/// The install state: the COM class is registered and an endpoint has
/// KuGouAPO mounted (the first such endpoint is reported).
pub fn install_state(clsid_registered: bool, entries: &Vec<(String, Option<String>)>) -> (r: (
    bool,
    Option<String>,
))
    ensures
        ({
            let m = mounted_of(entries@.map_values(|e| entry_view(e)));
            &&& r.0 == (clsid_registered && m.len() > 0)
            &&& match r.1 {
                Some(g) => m.len() > 0 && g@ == m[0],
                None => m.len() == 0,
            }
        }),
{
    let all = mounted_endpoints(entries);
    if all.len() > 0 {
        let first = all[0].clone();
        proof {
            assert(all@.map_values(|g: String| g@)[0] == all@[0]@);
        }
        (clsid_registered, Some(first))
    } else {
        (false, None)
    }
}

/// The message of a completed install.
pub open spec fn install_summary_text(endpoint: Seq<char>) -> Seq<char> {
    "安装完成。端点 {"@ + endpoint + "} 已挂载 KuGouAPO。\n用 `kugou-dsp apo-on` 或 UI 开启音效。"@
}

/// The message of a completed install.
pub fn install_summary(endpoint: &str) -> (r: String)
    ensures
        r@ == install_summary_text(endpoint@),
{
    let mut s = String::from_str("安装完成。端点 {");
    s.append(endpoint);
    s.append("} 已挂载 KuGouAPO。\n用 `kugou-dsp apo-on` 或 UI 开启音效。");
    s
}

/// An endpoint in braces.
pub open spec fn braced(g: Seq<char>) -> Seq<char> {
    "{"@ + g + "}"@
}

/// The message of a completed uninstall: the restored endpoints, or a note
/// that nothing was mounted.
pub open spec fn uninstall_summary_text(targets: Seq<Seq<char>>) -> Seq<char> {
    if targets.len() == 0 {
        "未发现挂载点（可能已卸载）"@
    } else {
        "卸载完成，已还原端点: "@ + join_with(targets.map_values(|g: Seq<char>| braced(g)), ", "@)
            + "\n如声音异常请重启 Windows Audio 服务或重启电脑"@
    }
}

/// The message of a completed uninstall.
pub fn uninstall_summary(targets: &Vec<String>) -> (r: String)
    ensures
        r@ == uninstall_summary_text(targets@.map_values(|g: String| g@)),
{
    let ghost tv = targets@.map_values(|g: String| g@);
    if targets.len() == 0 {
        return String::from_str("未发现挂载点（可能已卸载）");
    }
    let ghost parts = tv.map_values(|g: Seq<char>| braced(g));
    let mut list = String::new();
    let mut i: usize = 0;
    assert(parts.take(0) =~= Seq::<Seq<char>>::empty());
    while i < targets.len()
        invariant
            i <= targets@.len(),
            tv == targets@.map_values(|g: String| g@),
            parts == tv.map_values(|g: Seq<char>| braced(g)),
            list@ == join_with(parts.take(i as int), ", "@),
        decreases targets@.len() - i,
    {
        let ghost before = list@;
        proof {
            lemma_join_push(parts.take(i as int), ", "@, braced(targets@[i as int]@));
            assert(parts.take(i + 1) =~= parts.take(i as int).push(braced(targets@[i as int]@)));
        }
        if i > 0 {
            list.append(", ");
        }
        list.append("{");
        list.append(targets[i].as_str());
        list.append("}");
        proof {
            if i > 0 {
                assert(list@ =~= before + ", "@ + braced(targets@[i as int]@));
            } else {
                assert(list@ =~= braced(targets@[i as int]@));
            }
        }
        i = i + 1;
    }
    assert(parts.take(i as int) =~= parts);
    let mut s = String::from_str("卸载完成，已还原端点: ");
    s.append(list.as_str());
    s.append("\n如声音异常请重启 Windows Audio 服务或重启电脑");
    s
}

} // verus!
