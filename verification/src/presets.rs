//! The table of KuGou sound-effect presets and the command-line whitelist.
//!
//! A preset is loaded into the engine by its integer id; id `-1` switches
//! the effect off and restores the engine defaults. The engine accepts
//! program numbers `0..=112`; the UI names ten of them.
use vstd::prelude::*;
use crate::text::{dec_text, join_with, lemma_join_push, push_dec_i64};

verus! {

/// Metadata of one preset.
#[derive(Debug)]
pub struct PresetInfo {
    /// Id passed to `LoadPreset`.
    pub id: i32,
    /// Name shown by the KuGou UI.
    pub name: &'static str,
    /// Short description.
    pub desc: &'static str,
}

/// Ids of all known presets, in table order.
pub open spec fn preset_ids() -> Seq<i32> {
    seq![-1i32, 1, 2, 3, 4, 5, 6, 7, 8, 9, 10]
}

/// Ids that the command line accepts, in order.
pub open spec fn cli_allowed_ids() -> Seq<i32> {
    seq![1i32, 2, 3, 4]
}

/// The UI name of preset `id`, if it is a known preset.
pub open spec fn preset_name(id: int) -> Option<Seq<char>> {
    if id == -1 {
        Some("默认"@)
    } else if id == 1 {
        Some("3D丽音"@)
    } else if id == 2 {
        Some("超重低音"@)
    } else if id == 3 {
        Some("纯净人声"@)
    } else if id == 4 {
        Some("HIFI现场"@)
    } else if id == 5 {
        Some("3D旋转"@)
    } else if id == 6 {
        Some("5.1全景"@)
    } else if id == 7 {
        Some("黑胶唱片"@)
    } else if id == 8 {
        Some("虚拟环境"@)
    } else if id == 9 {
        Some("耳机音效"@)
    } else if id == 10 {
        Some("声乐古风"@)
    } else {
        None
    }
}

/// The short description of preset `id`, if it is a known preset.
pub open spec fn preset_desc(id: int) -> Option<Seq<char>> {
    if id == -1 {
        Some("关闭音效，重置引擎默认参数"@)
    } else if id == 1 {
        Some("HRTF 声场强化，轻空间感突出清晰度"@)
    } else if id == 2 {
        Some("低频增强"@)
    } else if id == 3 {
        Some("收敛混响拖尾，人声凸显"@)
    } else if id == 4 {
        Some("干声直通+短早期反射，临场感"@)
    } else if id == 5 {
        Some("声场旋转"@)
    } else if id == 6 {
        Some("多声道全景渲染"@)
    } else if id == 7 {
        Some("黑胶模拟"@)
    } else if id == 8 {
        Some("虚拟环境声"@)
    } else if id == 9 {
        Some("耳机优化"@)
    } else if id == 10 {
        Some("古风人声"@)
    } else {
        None
    }
}

/// The whitelist entry `"{id}={name}"` of a known preset.
pub open spec fn entry_text(id: int) -> Option<Seq<char>> {
    match preset_name(id) {
        Some(n) => Some(dec_text(id) + "="@ + n),
        None => None,
    }
}

/// The entries of the named presets among `ids`, in order.
pub open spec fn entries_of(ids: Seq<i32>) -> Seq<Seq<char>>
    decreases ids.len(),
{
    if ids.len() == 0 {
        seq![]
    } else {
        let rest = entries_of(ids.drop_last());
        match entry_text(ids.last() as int) {
            Some(e) => rest.push(e),
            None => rest,
        }
    }
}

/// The command-line whitelist text: entries separated by two spaces.
pub open spec fn allowed_text() -> Seq<char> {
    join_with(entries_of(cli_allowed_ids()), "  "@)
}

/// The ids that the command line accepts: 3D丽音, 超重低音, 纯净人声, HIFI现场.
pub const CLI_ALLOWED: [i32; 4] = [1, 2, 3, 4];

/// All known presets, in the order of the KuGou name table.
pub fn presets() -> (r: Vec<PresetInfo>)
    ensures
        r@.len() == preset_ids().len(),
        forall|i: int|
            0 <= i < r@.len() ==> {
                &&& #[trigger] r@[i].id == preset_ids()[i]
                &&& preset_name(r@[i].id as int) == Some(r@[i].name@)
                &&& preset_desc(r@[i].id as int) == Some(r@[i].desc@)
            },
{
    let r = vec![
        PresetInfo { id: -1, name: "默认", desc: "关闭音效，重置引擎默认参数" },
        PresetInfo { id: 1, name: "3D丽音", desc: "HRTF 声场强化，轻空间感突出清晰度" },
        PresetInfo { id: 2, name: "超重低音", desc: "低频增强" },
        PresetInfo { id: 3, name: "纯净人声", desc: "收敛混响拖尾，人声凸显" },
        PresetInfo { id: 4, name: "HIFI现场", desc: "干声直通+短早期反射，临场感" },
        PresetInfo { id: 5, name: "3D旋转", desc: "声场旋转" },
        PresetInfo { id: 6, name: "5.1全景", desc: "多声道全景渲染" },
        PresetInfo { id: 7, name: "黑胶唱片", desc: "黑胶模拟" },
        PresetInfo { id: 8, name: "虚拟环境", desc: "虚拟环境声" },
        PresetInfo { id: 9, name: "耳机音效", desc: "耳机优化" },
        PresetInfo { id: 10, name: "声乐古风", desc: "古风人声" },
    ];
    assert(r@.len() == 11);
    r
}

/// Whether the command line may use preset `id`.
pub fn is_cli_allowed(id: i32) -> (r: bool)
    ensures
        r == cli_allowed_ids().contains(id),
{
    let allowed = CLI_ALLOWED;
    let mut i: usize = 0;
    while i < 4
        invariant
            i <= 4,
            allowed@ == cli_allowed_ids(),
            forall|j: int| 0 <= j < i ==> allowed@[j] != id,
        decreases 4 - i,
    {
        if allowed[i] == id {
            assert(cli_allowed_ids()[i as int] == id);
            return true;
        }
        i = i + 1;
    }
    false
}

/// The UI name of preset `id`; `None` for an unknown id.
pub fn name_of(id: i32) -> (r: Option<&'static str>)
    ensures
        r is Some <==> preset_name(id as int) is Some,
        r matches Some(n) ==> preset_name(id as int) == Some(n@),
{
    let table = presets();
    let mut i: usize = 0;
    while i < table.len()
        invariant
            i <= table@.len(),
            table@.len() == preset_ids().len(),
            forall|j: int|
                0 <= j < table@.len() ==> {
                    &&& #[trigger] table@[j].id == preset_ids()[j]
                    &&& preset_name(table@[j].id as int) == Some(table@[j].name@)
                },
            forall|j: int| 0 <= j < i ==> table@[j].id != id,
        decreases table@.len() - i,
    {
        if table[i].id == id {
            return Some(table[i].name);
        }
        i = i + 1;
    }
    proof {
        assert forall|j: int| 0 <= j < preset_ids().len() implies preset_ids()[j] != id by {
            assert(table@[j].id == preset_ids()[j]);
        }
        assert(preset_ids()[0] == -1);
        assert(preset_ids()[1] == 1);
        assert(preset_ids()[2] == 2);
        assert(preset_ids()[3] == 3);
        assert(preset_ids()[4] == 4);
        assert(preset_ids()[5] == 5);
        assert(preset_ids()[6] == 6);
        assert(preset_ids()[7] == 7);
        assert(preset_ids()[8] == 8);
        assert(preset_ids()[9] == 9);
        assert(preset_ids()[10] == 10);
    }
    None
}

/// The whitelist text used in usage and error messages: `"{id}={name}"`
/// for each whitelisted id that has a name, separated by two spaces.
pub fn allowed_list_text() -> (r: String)
    ensures
        r@ == allowed_text(),
{
    let allowed = CLI_ALLOWED;
    let mut out = String::new();
    let mut count: usize = 0;
    let mut i: usize = 0;
    while i < 4
        invariant
            i <= 4,
            allowed@ == cli_allowed_ids(),
            count == entries_of(cli_allowed_ids().take(i as int)).len(),
            count <= i,
            out@ == join_with(entries_of(cli_allowed_ids().take(i as int)), "  "@),
        decreases 4 - i,
    {
        let id = allowed[i];
        let ghost prev = cli_allowed_ids().take(i as int);
        assert(cli_allowed_ids().take(i + 1).drop_last() =~= prev);
        assert(cli_allowed_ids().take(i + 1).last() == id);
        match name_of(id) {
            Some(n) => {
                let ghost before = out@;
                if count > 0 {
                    out.append("  ");
                }
                let ghost mid = out@;
                let mut entry = String::new();
                push_dec_i64(&mut entry, id as i64);
                entry.append("=");
                entry.append(n);
                out.append(entry.as_str());
                proof {
                    lemma_join_push(entries_of(prev), "  "@, dec_text(id as int) + "="@ + n@);
                    if count > 0 {
                        assert(out@ =~= before + "  "@ + (dec_text(id as int) + "="@ + n@));
                    } else {
                        assert(out@ =~= dec_text(id as int) + "="@ + n@);
                    }
                }
                count = count + 1;
            },
            None => {},
        }
        i = i + 1;
    }
    assert(cli_allowed_ids().take(4) =~= cli_allowed_ids());
    out
}

/// Every whitelisted preset is a known preset with a name.
pub proof fn lemma_cli_allowed_presets_are_named(id: i32)
    requires
        cli_allowed_ids().contains(id),
    ensures
        preset_name(id as int) is Some,
{
    let k = choose|k: int| 0 <= k < cli_allowed_ids().len() && cli_allowed_ids()[k] == id;
    assert(0 <= k < 4);
}

/// Every known preset id is either the "off" id `-1` or a program number
/// that the engine accepts (`0..=112`); the off id is named "默认".
pub proof fn lemma_known_presets_in_engine_range(id: int)
    requires
        preset_name(id) is Some,
    ensures
        id == -1 || 0 <= id <= 112,
        id == -1 ==> preset_name(id) == Some("默认"@),
{
}

} // verus!
