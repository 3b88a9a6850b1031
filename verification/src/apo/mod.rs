//! The global-effect (APO) side of the tool. KuGou's own `kgapo64.dll`
//! (an EqualizerAPO derivative with the ViPER engine inside) is registered
//! as a COM class and mounted on an audio endpoint; a one-byte config file
//! switches it on and off. This module holds the decisions and texts of
//! that process; the registry, file and COM calls are made around it.
//!
//! Sub-commands: `apo-install [--device <GUID>] [--from <dir>]`,
//! `apo-uninstall [--device <GUID>]`, `apo-on`, `apo-off`, `apo-status`,
//! and `gui` for a small control window.
pub mod device;
pub mod gui;
pub mod install;
pub mod reg;
pub mod sec;
pub mod setup;
pub mod toggle;
pub mod uninstall;

use vstd::prelude::*;
use crate::text::str_eq;

verus! {

/// COM CLSID of KuGouAPO (`kgapo64.dll`).
pub const CLSID_KUGOU_APO: &'static str = "{B19D744D-4269-41A5-8361-314020726F10}";

/// Friendly name of the COM class.
pub const KUGOU_APO_CLASS: &'static str = "KuGouAPO Class";

/// The config file; `kgapo64` reads this fixed path.
pub const CONFIG_FILE: &'static str = "C:\\ProgramData\\Kugou\\kugou_apo_config_file";

/// Global event that announces a config change.
pub const EVENT_CONFIG_CHANGED: &'static str = "Global\\kugou_apo_config_changed_event";

/// Where the APO files are deployed.
pub const APO_DIR: &'static str = "C:\\ProgramData\\Kugou\\KGApo\\v1.0";

/// Files to deploy, as shipped by the KuGou installer.
pub const APO_FILES: [&'static str; 3] = ["ApoConfigurator.exe", "kgapo.dll", "kgapo64.dll"];

/// Registry key of the render endpoints.
pub const FX_PROP_KEY: &'static str = "SOFTWARE\\Microsoft\\Windows\\CurrentVersion\\MMDevices\\Audio\\Render";

/// Property slot of an endpoint's FxProperties that holds the endpoint
/// effect CLSID (`PKEY_FX_EndpointEffectClsid`).
pub const FX_PROP_VALUE: &'static str = "{d04e05a6-594b-4fb6-a80d-01af5eed7d1d},2";

/// Root key of the backups of the original slot values.
pub const BACKUP_ROOT: &'static str = "SOFTWARE\\Kugou\\BackupAPOs_kugoudsp";

/// The APO sub-commands.
#[derive(PartialEq, Eq, Structural, Clone, Copy, Debug)]
pub enum ApoCommand {
    /// `apo-install`
    Install,
    /// `apo-uninstall`
    Uninstall,
    /// `apo-on`
    On,
    /// `apo-off`
    Off,
    /// `apo-status`
    Status,
}

/// The APO sub-command named `cmd`.
pub open spec fn apo_command_of(cmd: Seq<char>) -> Option<ApoCommand> {
    if cmd == "apo-install"@ {
        Some(ApoCommand::Install)
    } else if cmd == "apo-uninstall"@ {
        Some(ApoCommand::Uninstall)
    } else if cmd == "apo-on"@ {
        Some(ApoCommand::On)
    } else if cmd == "apo-off"@ {
        Some(ApoCommand::Off)
    } else if cmd == "apo-status"@ {
        Some(ApoCommand::Status)
    } else {
        None
    }
}

/// Chooses the APO sub-command; `None` for an unknown name (exit code 2).
pub fn apo_command(cmd: &str) -> (r: Option<ApoCommand>)
    ensures
        r == apo_command_of(cmd@),
{
    if str_eq(cmd, "apo-install") {
        Some(ApoCommand::Install)
    } else if str_eq(cmd, "apo-uninstall") {
        Some(ApoCommand::Uninstall)
    } else if str_eq(cmd, "apo-on") {
        Some(ApoCommand::On)
    } else if str_eq(cmd, "apo-off") {
        Some(ApoCommand::Off)
    } else if str_eq(cmd, "apo-status") {
        Some(ApoCommand::Status)
    } else {
        None
    }
}

/// The two lines printed for an unknown APO sub-command.
pub fn unknown_apo_command_message(cmd: &str) -> (r: String)
    ensures
        r@ == "未知 apo 子命令: "@ + cmd@
            + "\n可用: apo-install / apo-uninstall / apo-on / apo-off / apo-status"@,
{
    let mut s = String::from_str("未知 apo 子命令: ");
    s.append(cmd);
    s.append("\n可用: apo-install / apo-uninstall / apo-on / apo-off / apo-status");
    s
}

/// The `apo-status` report.
pub open spec fn status_text(installed: bool, endpoint: Option<Seq<char>>, enabled: bool) -> Seq<char> {
    "KuGouAPO 安装状态: "@ + (if installed {
        "已安装"@
    } else {
        "未安装"@
    }) + match endpoint {
        Some(d) => "\n挂载端点: {"@ + d + "}"@,
        None => Seq::empty(),
    } + "\n开关状态: "@ + (if enabled {
        "开启"@
    } else {
        "关闭"@
    })
}

/// The `apo-status` report: install state, mounted endpoint (if any) and
/// switch state, one per line.
pub fn status_report(installed: bool, endpoint: &Option<String>, enabled: bool) -> (r: String)
    ensures
        r@ == status_text(
            installed,
            match endpoint {
                Some(d) => Some(d@),
                None => None,
            },
            enabled,
        ),
{
    let mut s = String::from_str("KuGouAPO 安装状态: ");
    if installed {
        s.append("已安装");
    } else {
        s.append("未安装");
    }
    match endpoint {
        Some(d) => {
            s.append("\n挂载端点: {");
            s.append(d.as_str());
            s.append("}");
        },
        None => {},
    }
    s.append("\n开关状态: ");
    if enabled {
        s.append("开启");
    } else {
        s.append("关闭");
    }
    s
}

} // verus!
