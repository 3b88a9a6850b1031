//! Audio render endpoints: their registry GUIDs, names and the default
//! device, as the device enumeration reports them.
use vstd::prelude::*;
use crate::text::{
    chars_of, in_set, lemma_strip_end_at, lemma_strip_start_at, str_eq, string_of_range,
    strip_end, strip_start, CharSet,
};
use crate::apo::install::unbrace;

verus! {

/// A render device.
#[derive(Debug)]
pub struct RenderDevice {
    /// Registry key name of the endpoint: the GUID in one pair of braces.
    pub guid: String,
    /// Friendly name.
    pub name: String,
    /// Whether it is the system's default render device.
    pub is_default: bool,
}

/// Registry property of an endpoint's friendly name.
pub const PKEY_FRIENDLY_NAME: &'static str = "{a45c254e-df1c-4efd-8020-67d146a850e0},14";

/// Registry property of an endpoint's device description.
pub const PKEY_DEVICE_DESC: &'static str = "{a45c254e-df1c-4efd-8020-67d146a850e0},2";

/// Name shown when neither property can be read.
pub const UNKNOWN_DEVICE: &'static str = "(未知设备)";

/// Index of the last `c` in `s`, or -1.
pub open spec fn last_index_of(s: Seq<char>, c: char) -> int
    decreases s.len(),
{
    if s.len() == 0 {
        -1
    } else if s.last() == c {
        s.len() - 1
    } else {
        last_index_of(s.drop_last(), c)
    }
}

proof fn lemma_last_index_of(s: Seq<char>, c: char, k: int)
    requires
        -1 <= k < s.len(),
        k >= 0 ==> s[k] == c,
        forall|j: int| k < j < s.len() ==> s[j] != c,
    ensures
        last_index_of(s, c) == k,
    decreases s.len(),
{
    if s.len() > 0 && k < s.len() - 1 {
        let t = s.drop_last();
        assert forall|j: int| k < j < t.len() implies t[j] != c by {
            assert(t[j] == s[j]);
        }
        if k >= 0 {
            assert(t[k] == s[k]);
        }
        lemma_last_index_of(t, c, k);
    }
}

/// The part of an endpoint id after its last `.` (the whole id if it has
/// none): from `{0.0.0.00000000}.{GUID}` the `{GUID}` that names the
/// endpoint's registry key.
pub open spec fn endpoint_guid_text(id: Seq<char>) -> Seq<char> {
    id.subrange(last_index_of(id, '.') + 1, id.len() as int)
}

/// The part of an endpoint id after its last `.`; like `rsplit('.').next()`
/// it always has a value.
pub fn endpoint_guid(id: &str) -> (r: Option<String>)
    ensures
        r matches Some(g) && g@ == endpoint_guid_text(id@),
{
    let cs = chars_of(id);
    let mut k: usize = cs.len();
    while k > 0 && cs[k - 1] != '.'
        invariant
            cs@ == id@,
            k <= cs@.len(),
            forall|j: int| k <= j < cs@.len() ==> cs@[j] != '.',
        decreases k,
    {
        k = k - 1;
    }
    proof {
        lemma_last_index_of(id@, '.', k - 1);
    }
    Some(string_of_range(&cs, k, cs.len()))
}

/// `str::to_lowercase`: the full Unicode lowercase mapping.
pub uninterp spec fn lowercase_text(s: Seq<char>) -> Seq<char>;

/// Lowercases text (std `str::to_lowercase`).
#[verifier::external_body]
pub(crate) fn to_lowercase(s: &str) -> (r: String)
    ensures
        r@ == lowercase_text(s@),
{
    s.to_lowercase()
}

/// The lowercase GUID of the default device, from its endpoint id; empty
/// when the default device or its id is unknown.
pub fn default_guid_key(default_id: &Option<String>) -> (r: String)
    ensures
        r@ == match default_id {
            Some(id) => lowercase_text(endpoint_guid_text(id@)),
            None => Seq::empty(),
        },
{
    match default_id {
        Some(id) => match endpoint_guid(id.as_str()) {
            Some(g) => to_lowercase(g.as_str()),
            None => String::new(),
        },
        None => String::new(),
    }
}

/// The registry key name of an endpoint whose id ends in `g`: the GUID
/// with its braces removed, put back in one pair of braces.
pub open spec fn braced_key(g: Seq<char>) -> Seq<char> {
    "{"@ + strip_end(strip_start(g, CharSet::OpenBrace), CharSet::CloseBrace) + "}"@
}

/// An endpoint GUID that is already in one pair of braces is its own key
/// name.
pub proof fn lemma_braced_key_of_braced(x: Seq<char>)
    requires
        forall|j: int| 0 <= j < x.len() ==> #[trigger] x[j] != '{' && x[j] != '}',
    ensures
        braced_key("{"@ + x + "}"@) == "{"@ + x + "}"@,
{
    reveal_strlit("{");
    reveal_strlit("}");
    let g = "{"@ + x + "}"@;
    assert(g.len() == x.len() + 2);
    assert(g[0] == '{');
    assert forall|j: int| 0 <= j < 1 implies in_set(CharSet::OpenBrace, #[trigger] g[j]) by {}
    assert(!in_set(CharSet::OpenBrace, g[1])) by {
        if x.len() > 0 {
            assert(g[1] == x[0]);
        } else {
            assert(g[1] == '}');
        }
    }
    lemma_strip_start_at(g, CharSet::OpenBrace, 1);
    let m = g.subrange(1, g.len() as int);
    assert(m =~= x + "}"@);
    let k = x.len() as int;
    assert(m[k] == '}');
    assert forall|j: int| k <= j < m.len() implies in_set(CharSet::CloseBrace, #[trigger] m[j]) by {}
    assert(k > 0 ==> !in_set(CharSet::CloseBrace, m[k - 1])) by {
        if k > 0 {
            assert(m[k - 1] == x[k - 1]);
        }
    }
    lemma_strip_end_at(m, CharSet::CloseBrace, k);
    assert(m.subrange(0, k) =~= x);
}

/// The device entry of an endpoint whose id ends in `g`, given `g` in
/// lowercase: the GUID in one pair of braces, and whether it is the
/// default device.
pub fn device_entry(g: &str, lower_g: &str, name: String, default_key: &str) -> (r: RenderDevice)
    ensures
        r.guid@ == braced_key(g@),
        r.name == name,
        r.is_default == (lower_g@ == default_key@),
{
    let bare = unbrace(g);
    let mut guid = String::from_str("{");
    guid.append(bare.as_str());
    guid.append("}");
    RenderDevice { guid, name, is_default: str_eq(lower_g, default_key) }
}

/// The device entry of an endpoint whose id ends in `g`: the GUID in one
/// pair of braces, and whether it is the default device (compared in
/// lowercase).
pub fn render_device(g: &str, name: String, default_key: &str) -> (r: RenderDevice)
    ensures
        r.guid@ == braced_key(g@),
        r.name == name,
        r.is_default == (lowercase_text(g@) == default_key@),
{
    let lower = to_lowercase(g);
    device_entry(g, lower.as_str(), name, default_key)
}

/// Registry key with the properties of the endpoint `g`.
pub fn properties_key(g: &str) -> (r: String)
    ensures
        r@ == "SOFTWARE\\Microsoft\\Windows\\CurrentVersion\\MMDevices\\Audio\\Render\\"@ + g@
            + "\\Properties"@,
{
    let mut s = String::from_str("SOFTWARE\\Microsoft\\Windows\\CurrentVersion\\MMDevices\\Audio\\Render\\");
    s.append(g);
    s.append("\\Properties");
    s
}

/// A device's name: the friendly name, else the description, else a
/// placeholder.
pub fn friendly_name(friendly: Option<String>, desc: Option<String>) -> (r: String)
    ensures
        r@ == match friendly {
            Some(f) => f@,
            None => match desc {
                Some(d) => d@,
                None => UNKNOWN_DEVICE@,
            },
        },
{
    match friendly {
        Some(f) => f,
        None => match desc {
            Some(d) => d,
            None => String::from_str(UNKNOWN_DEVICE),
        },
    }
}

/// Index of the first default device, if any.
pub open spec fn first_default(list: Seq<RenderDevice>) -> Option<int>
    decreases list.len(),
{
    if list.len() == 0 {
        None
    } else {
        match first_default(list.drop_last()) {
            Some(k) => Some(k),
            None => if list.last().is_default {
                Some(list.len() - 1)
            } else {
                None
            },
        }
    }
}

proof fn lemma_first_default(list: Seq<RenderDevice>, k: int)
    requires
        0 <= k <= list.len(),
        forall|j: int| 0 <= j < k ==> !(#[trigger] list[j]).is_default,
        k < list.len() ==> list[k].is_default,
    ensures
        first_default(list) == if k < list.len() {
            Some(k)
        } else {
            None::<int>
        },
    decreases list.len(),
{
    if list.len() > 0 {
        let t = list.drop_last();
        if k < list.len() - 1 {
            assert forall|j: int| 0 <= j < k implies !(#[trigger] t[j]).is_default by {
                assert(t[j] == list[j]);
            }
            assert(t[k] == list[k]);
            lemma_first_default(t, k);
        } else {
            assert forall|j: int| 0 <= j < t.len() implies !(#[trigger] t[j]).is_default by {
                assert(t[j] == list[j]);
            }
            lemma_first_default(t, t.len() as int);
        }
    }
}

/// The GUID of the default render device: the first device marked as
/// default, or an error when there is none.
pub fn default_render_device(list: Vec<RenderDevice>) -> (r: Result<String, String>)
    ensures
        match first_default(list@) {
            Some(k) => r == Ok::<String, String>(list@[k].guid),
            None => r matches Err(e) && e@ == "未找到默认渲染设备"@,
        },
{
    let mut i: usize = 0;
    while i < list.len() && !list[i].is_default
        invariant
            i <= list@.len(),
            forall|j: int| 0 <= j < i ==> !(#[trigger] list@[j]).is_default,
        decreases list@.len() - i,
    {
        i = i + 1;
    }
    proof {
        lemma_first_default(list@, i as int);
    }
    if i < list.len() {
        Ok(list[i].guid.clone())
    } else {
        Err(String::from_str("未找到默认渲染设备"))
    }
}

/// One line of the device listing: a star for the default device, the
/// name and the GUID.
pub fn device_line(d: &RenderDevice) -> (r: String)
    ensures
        r@ == "  "@ + (if d.is_default {
            "*"@
        } else {
            " "@
        }) + " "@ + d.name@ + "  "@ + d.guid@,
{
    let mut s = String::from_str("  ");
    if d.is_default {
        s.append("*");
    } else {
        s.append(" ");
    }
    s.append(" ");
    s.append(d.name.as_str());
    s.append("  ");
    s.append(d.guid.as_str());
    s
}

} // verus!
