//! Decisions of the control window: what a `WM_COMMAND` asks for, which
//! buttons are enabled, the status text and the device list entries.
use vstd::prelude::*;
use crate::apo::device::RenderDevice;
use crate::apo::reg::{utf16_encode, wide};

verus! {

/// Control id of the device combo box.
pub const IDC_COMBO_DEVICE: u32 = 2001;
/// Control id of the install button.
pub const IDC_BTN_INSTALL: u32 = 1001;
/// Control id of the uninstall button.
pub const IDC_BTN_UNINSTALL: u32 = 1002;
/// Control id of the "on" button.
pub const IDC_BTN_ON: u32 = 1003;
/// Control id of the "off" button.
pub const IDC_BTN_OFF: u32 = 1004;
/// Combo-box notification: the selection changed.
pub const CBN_SELCHANGE: u32 = 1;

/// What a `WM_COMMAND` message asks the window to do.
#[derive(PartialEq, Eq, Structural, Clone, Copy, Debug)]
pub enum UiCommand {
    /// Install (elevated).
    Install,
    /// Uninstall (elevated).
    Uninstall,
    /// Switch the effect on.
    On,
    /// Switch the effect off.
    Off,
    /// The device selection changed.
    SelectDevice,
    /// Nothing.
    Ignore,
}

/// The command of a control id and notification code.
pub open spec fn command_of(id: u32, code: u32) -> UiCommand {
    if id == IDC_BTN_INSTALL {
        UiCommand::Install
    } else if id == IDC_BTN_UNINSTALL {
        UiCommand::Uninstall
    } else if id == IDC_BTN_ON {
        UiCommand::On
    } else if id == IDC_BTN_OFF {
        UiCommand::Off
    } else if id == IDC_COMBO_DEVICE && code == CBN_SELCHANGE {
        UiCommand::SelectDevice
    } else {
        UiCommand::Ignore
    }
}

/// Decodes the `wParam` of `WM_COMMAND`: the low word of its low 32 bits
/// is the control id, the high word the notification code.
pub fn decode_command(wp: usize) -> (r: UiCommand)
    ensures
        r == command_of(((wp as u32) & 0xFFFF) as u32, ((wp as u32) >> 16u32) as u32),
{
    let w = wp as u32;
    let id = w & 0xFFFF;
    let code = w >> 16u32;
    if id == IDC_BTN_INSTALL {
        UiCommand::Install
    } else if id == IDC_BTN_UNINSTALL {
        UiCommand::Uninstall
    } else if id == IDC_BTN_ON {
        UiCommand::On
    } else if id == IDC_BTN_OFF {
        UiCommand::Off
    } else if id == IDC_COMBO_DEVICE && code == CBN_SELCHANGE {
        UiCommand::SelectDevice
    } else {
        UiCommand::Ignore
    }
}

/// Window text as NUL-terminated UTF-16.
pub fn w(s: &str) -> (r: Vec<u16>)
    ensures
        r@ == utf16_encode(s@).push(0u16),
{
    wide(s)
}

/// Arguments of the elevated install started from the window.
pub fn gui_install_args(selected: &Option<String>) -> (r: String)
    ensures
        r@ == "apo-install"@ + match selected {
            Some(d) => " --device \""@ + d@ + "\""@,
            None => Seq::empty(),
        } + " --elevated"@,
{
    let mut s = String::from_str("apo-install");
    match selected {
        Some(d) => {
            s.append(" --device \"");
            s.append(d.as_str());
            s.append("\"");
        },
        None => {},
    }
    s.append(" --elevated");
    s
}

/// Arguments of the elevated uninstall started from the window.
pub fn gui_uninstall_args() -> (r: String)
    ensures
        r@ == "apo-uninstall --elevated"@,
{
    String::from_str("apo-uninstall --elevated")
}

/// What the window shows after a refresh.
#[derive(Debug)]
pub struct UiView {
    /// Status text.
    pub status: String,
    /// Install button enabled.
    pub install: bool,
    /// Uninstall button enabled.
    pub uninstall: bool,
    /// "On" button enabled.
    pub on: bool,
    /// "Off" button enabled.
    pub off: bool,
    /// Device combo box enabled.
    pub combo: bool,
}

/// The status text of the window.
pub open spec fn ui_status_text(installed: bool, endpoint: Option<Seq<char>>, enabled: bool) -> Seq<
    char,
> {
    "安装状态: "@ + (if installed {
        "已安装"@
    } else {
        "未安装"@
    }) + "\n"@ + match endpoint {
        Some(ep) => "挂载端点: {"@ + ep + "}\n"@,
        None => Seq::empty(),
    } + "开关状态: "@ + (if installed {
        if enabled {
            "开启中"@
        } else {
            "关闭"@
        }
    } else {
        "-"@
    }) + "\n"@ + "效果本体: 酷狗 kgapo64.dll（原版）· 安装后开机自动生效"@
}

/// The window after a refresh: nothing changes while an elevated command
/// runs (`busy`); otherwise the status text and the buttons that make
/// sense in the current state.
pub fn ui_refresh(installed: bool, endpoint: &Option<String>, enabled: bool, busy: bool) -> (r:
    Option<UiView>)
    ensures
        busy ==> r is None,
        !busy ==> (r matches Some(v) && v.status@ == ui_status_text(
            installed,
            match endpoint {
                Some(ep) => Some(ep@),
                None => None,
            },
            enabled,
        ) && v.install == !installed && v.uninstall == installed && v.on == (installed
            && !enabled) && v.off == (installed && enabled) && v.combo),
{
    if busy {
        return None;
    }
    let mut s = String::from_str("安装状态: ");
    if installed {
        s.append("已安装");
    } else {
        s.append("未安装");
    }
    s.append("\n");
    match endpoint {
        Some(ep) => {
            s.append("挂载端点: {");
            s.append(ep.as_str());
            s.append("}\n");
        },
        None => {},
    }
    s.append("开关状态: ");
    if installed {
        if enabled {
            s.append("开启中");
        } else {
            s.append("关闭");
        }
    } else {
        s.append("-");
    }
    s.append("\n");
    s.append("效果本体: 酷狗 kgapo64.dll（原版）· 安装后开机自动生效");
    Some(
        UiView {
            status: s,
            install: !installed,
            uninstall: installed,
            on: installed && !enabled,
            off: installed && enabled,
            combo: true,
        },
    )
}

/// In every state of the window that is not busy, exactly one of
/// install/uninstall is offered, and "on" and "off" are never offered
/// together (neither is offered before installing).
pub proof fn lemma_buttons_consistent(installed: bool, enabled: bool)
    ensures
        (!installed) != installed,
        !((installed && !enabled) && (installed && enabled)),
        !installed ==> !(installed && !enabled) && !(installed && enabled),
{
}

/// The combo-box label of a device.
pub open spec fn device_label_text(d: RenderDevice) -> Seq<char> {
    (if d.is_default {
        "[默认] "@
    } else {
        Seq::empty()
    }) + d.name@
}

/// The index of the last default device among `list`, if any.
pub open spec fn last_default(list: Seq<RenderDevice>) -> Option<int>
    decreases list.len(),
{
    if list.len() == 0 {
        None
    } else if list.last().is_default {
        Some(list.len() - 1)
    } else {
        last_default(list.drop_last())
    }
}

/// The combo-box contents for a device list: a label per device, the index
/// to select (the last default device, else the first entry) and the
/// device GUID that becomes selected (that of the last default device).
#[derive(Debug)]
pub struct DeviceChoices {
    /// One label per device.
    pub labels: Vec<String>,
    /// The entry to select.
    pub selected_index: usize,
    /// GUID of the default device, if there is one.
    pub selected_guid: Option<String>,
}

/// Builds the combo-box contents for a device list.
pub fn device_choices(list: &Vec<RenderDevice>) -> (r: DeviceChoices)
    ensures
        r.labels@.len() == list@.len(),
        forall|i: int| 0 <= i < list@.len() ==> (#[trigger] r.labels@[i])@ == device_label_text(list@[i]),
        match last_default(list@) {
            Some(k) => r.selected_index == k && r.selected_guid == Some(list@[k].guid),
            None => r.selected_index == 0 && r.selected_guid is None,
        },
{
    let mut labels: Vec<String> = Vec::new();
    let mut idx: Option<usize> = None;
    let mut guid: Option<String> = None;
    let mut i: usize = 0;
    while i < list.len()
        invariant
            i <= list@.len(),
            labels@.len() == i,
            forall|j: int| 0 <= j < i ==> (#[trigger] labels@[j])@ == device_label_text(list@[j]),
            match last_default(list@.take(i as int)) {
                Some(k) => (idx matches Some(x) && x == k) && guid == Some(list@[k].guid) && 0 <= k < i,
                None => idx is None && guid is None,
            },
        decreases list@.len() - i,
    {
        assert(list@.take(i + 1).drop_last() =~= list@.take(i as int));
        assert(list@.take(i + 1).last() == list@[i as int]);
        let mut label = String::new();
        if list[i].is_default {
            label.append("[默认] ");
            idx = Some(i);
            guid = Some(list[i].guid.clone());
        }
        label.append(list[i].name.as_str());
        labels.push(label);
        i = i + 1;
    }
    assert(list@.take(i as int) =~= list@);
    let selected_index = match idx {
        Some(k) => k,
        None => 0,
    };
    DeviceChoices { labels, selected_index, selected_guid: guid }
}

/// The selected device after a selection change to combo index `sel`:
/// `None` leaves the selection as it was (no selection); otherwise the
/// GUID of that entry, or no device when the index is past the list.
pub fn selection_after(list: &Vec<RenderDevice>, sel: isize) -> (r: Option<Option<String>>)
    ensures
        sel < 0 ==> r is None,
        sel >= 0 ==> r == Some(
            if sel < list@.len() {
                Some(list@[sel as int].guid)
            } else {
                None::<String>
            },
        ),
{
    if sel < 0 {
        None
    } else {
        let k = sel as usize;
        if k < list.len() {
            Some(Some(list[k].guid.clone()))
        } else {
            Some(None)
        }
    }
}

} // verus!
