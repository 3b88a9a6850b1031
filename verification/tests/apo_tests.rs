use kugou_dsp::apo::device::{
    default_guid_key, default_render_device, device_entry, device_line, endpoint_guid,
    friendly_name, properties_key, render_device, RenderDevice,
};
use kugou_dsp::apo::gui::{
    decode_command, device_choices, gui_install_args, gui_uninstall_args, selection_after, ui_refresh,
    UiCommand,
};
use kugou_dsp::apo::install::{
    apo_dll_path, backup_key, backup_value, bad_device_message, clsid_key, endpoint_id, fx_key,
    fx_key_of_subkey, inproc_key, install_relaunch_args, install_state, install_summary,
    is_kugou_mounted, looks_like_guid, mounted_endpoints, parse_args,
    restore_action, unbrace, uninstall_relaunch_args, uninstall_summary, uninstall_targets,
    RestoreAction,
};
use kugou_dsp::apo::sec::{privilege_result, security_object_path, still_not_writable_message};
use kugou_dsp::apo::toggle::{config_byte, first_byte, is_enabled, toggle_failure_message, toggle_message};
use kugou_dsp::apo::{apo_command, status_report, unknown_apo_command_message, ApoCommand, CLSID_KUGOU_APO};

fn args(v: &[&str]) -> Vec<String> {
    v.iter().map(|s| s.to_string()).collect()
}

#[test]
fn apo_commands() {
    assert_eq!(apo_command("apo-install"), Some(ApoCommand::Install));
    assert_eq!(apo_command("apo-uninstall"), Some(ApoCommand::Uninstall));
    assert_eq!(apo_command("apo-on"), Some(ApoCommand::On));
    assert_eq!(apo_command("apo-off"), Some(ApoCommand::Off));
    assert_eq!(apo_command("apo-status"), Some(ApoCommand::Status));
    assert_eq!(apo_command("apo"), None);
    assert_eq!(
        unknown_apo_command_message("x"),
        "未知 apo 子命令: x\n可用: apo-install / apo-uninstall / apo-on / apo-off / apo-status"
    );
}

#[test]
fn status_report_lines() {
    assert_eq!(
        status_report(true, &Some("abc".to_string()), true),
        "KuGouAPO 安装状态: 已安装\n挂载端点: {abc}\n开关状态: 开启"
    );
    assert_eq!(status_report(false, &None, false), "KuGouAPO 安装状态: 未安装\n开关状态: 关闭");
}

#[test]
fn switch_roundtrip() {
    for on in [true, false] {
        assert_eq!(is_enabled(first_byte(&vec![config_byte(on)])), on);
    }
    assert_eq!(config_byte(true), 1);
    assert_eq!(config_byte(false), 0);
    assert!(!is_enabled(first_byte(&vec![])));
    assert!(!is_enabled(Some(2)));
    assert_eq!(first_byte(&vec![1, 0]), Some(1));
}

#[test]
fn toggle_messages() {
    assert_eq!(toggle_message(true, true), "[完成] 全局音效已开启");
    assert_eq!(
        toggle_message(false, false),
        "[完成] 全局音效已关闭（未找到变更事件——APO 可能尚未安装或音频服务未重启，音效不会即时生效）"
    );
    assert_eq!(
        toggle_failure_message("E"),
        "[失败] E\n提示: 若权限不足请以管理员运行一次 apo-install 重新部署"
    );
}

#[test]
fn install_args_and_warnings() {
    let a = parse_args(&args(&["--from", "D:\\x", "junk", "--device", "{g}", "--device"]));
    assert_eq!(a.from.as_deref(), Some("D:\\x"));
    assert_eq!(a.device.as_deref(), Some("{g}"));
    assert_eq!(a.warnings.len(), 2);
    assert_eq!(
        a.warnings[0],
        "忽略无法识别的参数: junk（--device 的值应为设备 ID 本身，如 {b5287108-...}）"
    );
    assert!(a.warnings[1].contains("--device"));
}

#[test]
fn device_ids_are_normalized_and_checked() {
    let d = "  {b5287108-53c1-41d2-aa81-4955c333e08b}} ";
    assert_eq!(endpoint_id(d), d.trim().trim_start_matches('{').trim_end_matches('}'));
    assert_eq!(endpoint_id(d), "b5287108-53c1-41d2-aa81-4955c333e08b");
    assert!(looks_like_guid(d));
    assert!(!looks_like_guid("b5287108"));
    assert!(!looks_like_guid("b5287108-53c1-41d2-aa81-4955c333e08bX"));
    assert!(!looks_like_guid("b5287108_53c1_41d2_aa81_4955c333e08b"));
    assert_eq!(unbrace("{{abc}"), "abc");
    assert_eq!(
        bad_device_message("x"),
        "[失败] --device 的值不是合法设备 ID: x\n正确格式示例（注意花括号是 ID 的一部分）:\n  apo-install --device \"{b5287108-53c1-41d2-aa81-4955c333e08b}\"\n先运行 `kugou-dsp devices` 查看设备清单"
    );
}

#[test]
fn relaunch_arguments() {
    assert_eq!(
        install_relaunch_args(&Some("C:\\src".into()), &Some("{g}".into())),
        "apo-install --from \"C:\\src\" --device {g} --elevated"
    );
    assert_eq!(install_relaunch_args(&None, &None), "apo-install --elevated");
    assert_eq!(uninstall_relaunch_args(&Some("{g}".into())), "apo-uninstall --device {g} --elevated");
    assert_eq!(uninstall_relaunch_args(&None), "apo-uninstall --elevated");
    assert_eq!(gui_install_args(&Some("{g}".into())), "apo-install --device \"{g}\" --elevated");
    assert_eq!(gui_install_args(&None), "apo-install --elevated");
    assert_eq!(gui_uninstall_args(), "apo-uninstall --elevated");
}

#[test]
fn registry_paths() {
    assert_eq!(clsid_key(), "SOFTWARE\\Classes\\CLSID\\{B19D744D-4269-41A5-8361-314020726F10}");
    assert_eq!(inproc_key(), format!("{}\\InprocServer32", clsid_key()));
    assert_eq!(apo_dll_path(), "C:\\ProgramData\\Kugou\\KGApo\\v1.0\\kgapo64.dll");
    assert_eq!(
        fx_key("g"),
        "SOFTWARE\\Microsoft\\Windows\\CurrentVersion\\MMDevices\\Audio\\Render\\{g}\\FxProperties"
    );
    assert_eq!(
        fx_key_of_subkey("{g}"),
        "SOFTWARE\\Microsoft\\Windows\\CurrentVersion\\MMDevices\\Audio\\Render\\{g}\\FxProperties"
    );
    assert_eq!(backup_key("g"), "SOFTWARE\\Kugou\\BackupAPOs_kugoudsp\\{g}");
    assert_eq!(security_object_path("SOFTWARE\\x"), "MACHINE\\SOFTWARE\\x");
}

fn restored(backup: Option<String>) -> Option<String> {
    match restore_action(&backup) {
        RestoreAction::Delete => None,
        RestoreAction::Write(v) => Some(v),
    }
}

#[test]
fn backup_then_restore_gives_original() {
    for orig in [None, Some("{62dc1a93-ae24-464c-a43e-452f824c4250}".to_string()), Some(String::new())] {
        assert_eq!(restored(Some(backup_value(&orig))), orig);
    }
    assert_eq!(backup_value(&None), "!VALUE");
    assert_eq!(restored(None), None);
    // an original value that is the marker itself is not restored
    assert_eq!(restored(Some(backup_value(&Some("!VALUE".into())))), None);
}

#[test]
fn mounted_endpoints_and_state() {
    let entries = vec![
        ("{a}".to_string(), Some("{other}".to_string())),
        ("{b}".to_string(), Some(CLSID_KUGOU_APO.to_string())),
        ("{c}".to_string(), None),
        ("{{d}}".to_string(), Some(CLSID_KUGOU_APO.to_string())),
    ];
    assert!(is_kugou_mounted(&Some(CLSID_KUGOU_APO.to_string())));
    assert!(!is_kugou_mounted(&None));
    assert_eq!(mounted_endpoints(&entries), vec!["b".to_string(), "d".to_string()]);
    assert_eq!(install_state(true, &entries), (true, Some("b".to_string())));
    assert_eq!(install_state(false, &entries), (false, Some("b".to_string())));
    assert_eq!(install_state(true, &vec![]), (false, None));
    assert_eq!(uninstall_targets(&None, &entries), vec!["b".to_string(), "d".to_string()]);
    assert_eq!(uninstall_targets(&Some(" {x} ".into()), &entries), vec!["x".to_string()]);
}

#[test]
fn install_and_uninstall_summaries() {
    assert_eq!(
        install_summary("g"),
        "安装完成。端点 {g} 已挂载 KuGouAPO。\n用 `kugou-dsp apo-on` 或 UI 开启音效。"
    );
    assert_eq!(uninstall_summary(&vec![]), "未发现挂载点（可能已卸载）");
    assert_eq!(
        uninstall_summary(&vec!["a".into(), "b".into()]),
        "卸载完成，已还原端点: {a}, {b}\n如声音异常请重启 Windows Audio 服务或重启电脑"
    );
}

#[test]
fn endpoint_guids_and_devices() {
    assert_eq!(endpoint_guid("{0.0.0.00000000}.{ABC-1}").as_deref(), Some("{ABC-1}"));
    assert_eq!(endpoint_guid("nodots").as_deref(), Some("nodots"));
    assert_eq!(endpoint_guid("ends.").as_deref(), Some(""));
    assert_eq!(default_guid_key(&Some("{0.0.0.00000000}.{ABC-1}".into())), "{abc-1}");
    assert_eq!(default_guid_key(&None), "");
    let d = render_device("{ABC-1}", "Speakers".into(), "{abc-1}");
    assert_eq!(d.guid, "{ABC-1}");
    assert_eq!(render_device("ABC-2", "n".into(), "").guid, "{ABC-2}");
    assert_eq!(device_entry("{{g}}", "g", "n".into(), "").guid, "{g}");
    assert!(d.is_default);
    assert!(!render_device("{X}", "n".into(), "{abc-1}").is_default);
    assert!(device_entry("g", "g", "n".into(), "g").is_default);
    assert_eq!(friendly_name(Some("F".into()), Some("D".into())), "F");
    assert_eq!(friendly_name(None, Some("D".into())), "D");
    assert_eq!(friendly_name(None, None), "(未知设备)");
    assert_eq!(
        properties_key("{g}"),
        "SOFTWARE\\Microsoft\\Windows\\CurrentVersion\\MMDevices\\Audio\\Render\\{g}\\Properties"
    );
}

fn dev(g: &str, n: &str, def: bool) -> RenderDevice {
    RenderDevice { guid: g.into(), name: n.into(), is_default: def }
}

#[test]
fn default_device_is_the_first_marked() {
    assert_eq!(default_render_device(vec![dev("a", "A", false), dev("b", "B", true), dev("c", "C", true)]), Ok("b".to_string()));
    assert_eq!(default_render_device(vec![dev("a", "A", false)]), Err("未找到默认渲染设备".to_string()));
    assert_eq!(device_line(&dev("{g}", "Spk", true)), "  * Spk  {g}");
    assert_eq!(device_line(&dev("{g}", "Spk", false)), "    Spk  {g}");
}

#[test]
fn window_commands_and_view() {
    assert_eq!(decode_command(1001), UiCommand::Install);
    assert_eq!(decode_command(1002), UiCommand::Uninstall);
    assert_eq!(decode_command(1003), UiCommand::On);
    assert_eq!(decode_command((5 << 16) | 1004), UiCommand::Off);
    assert_eq!(decode_command((1 << 16) | 2001), UiCommand::SelectDevice);
    assert_eq!(decode_command(2001), UiCommand::Ignore);
    assert_eq!(decode_command(7), UiCommand::Ignore);
    assert!(ui_refresh(true, &None, true, true).is_none());
    let v = ui_refresh(true, &Some("g".into()), false, false).unwrap();
    assert_eq!(v.status, "安装状态: 已安装\n挂载端点: {g}\n开关状态: 关闭\n效果本体: 酷狗 kgapo64.dll（原版）· 安装后开机自动生效");
    assert!(!v.install && v.uninstall && v.on && !v.off && v.combo);
    let v = ui_refresh(false, &None, true, false).unwrap();
    assert_eq!(v.status, "安装状态: 未安装\n开关状态: -\n效果本体: 酷狗 kgapo64.dll（原版）· 安装后开机自动生效");
    assert!(v.install && !v.uninstall && !v.on && !v.off);
}

#[test]
fn device_choices_select_last_default() {
    let list = vec![dev("a", "A", true), dev("b", "B", false), dev("c", "C", true)];
    let c = device_choices(&list);
    assert_eq!(c.labels, vec!["[默认] A".to_string(), "B".to_string(), "[默认] C".to_string()]);
    assert_eq!(c.selected_index, 2);
    assert_eq!(c.selected_guid.as_deref(), Some("c"));
    let none = device_choices(&vec![dev("a", "A", false)]);
    assert_eq!(none.selected_index, 0);
    assert!(none.selected_guid.is_none());
    assert_eq!(selection_after(&list, -1), None);
    assert_eq!(selection_after(&list, 1), Some(Some("b".to_string())));
    assert_eq!(selection_after(&list, 5), Some(None));
}

#[test]
fn privilege_outcomes() {
    assert_eq!(privilege_result(false, 0, "P"), Err("AdjustTokenPrivileges 调用失败".to_string()));
    assert_eq!(privilege_result(true, 1300, "P"), Err("特权 P 未被授予（需要管理员身份运行）".to_string()));
    assert_eq!(privilege_result(true, 0, "P"), Ok(()));
    assert_eq!(
        still_not_writable_message("K"),
        "放权后仍无法写入 K\n手动修复: regedit 定位 HKLM\\K → 权限 → 高级 → 所有者改为 Administrators 并勾选完全控制"
    );
}

use kugou_dsp::apo::sec::{KeyWritability, WritableEvent, WritableStep};
use kugou_dsp::apo::toggle::{GrantAccess, GrantStep};

fn run_key(events: Vec<WritableEvent>) -> (KeyWritability, Vec<WritableStep>) {
    let mut k = KeyWritability::new("SOFTWARE\\K".to_string());
    let mut steps = vec![k.step];
    for ev in events {
        k.advance(ev);
        steps.push(k.step);
    }
    (k, steps)
}

#[test]
fn writable_key_needs_nothing_more() {
    let (k, steps) = run_key(vec![WritableEvent::Opened(true)]);
    assert_eq!(steps, vec![WritableStep::OpenForWrite, WritableStep::Finished]);
    assert_eq!(k.outcome, Some(Ok(())));
}

#[test]
fn key_ownership_taken_and_dacl_written() {
    let (k, steps) = run_key(vec![
        WritableEvent::Opened(false),
        WritableEvent::Privilege(Ok(())),
        WritableEvent::SidAllocated(true),
        WritableEvent::SecurityRead { status: 0, owner_differs: true },
        WritableEvent::Status(0),
        WritableEvent::Status(0),
        WritableEvent::Status(0),
        WritableEvent::Released,
        WritableEvent::Opened(true),
    ]);
    assert_eq!(
        steps,
        vec![
            WritableStep::OpenForWrite,
            WritableStep::EnableTakeOwnership,
            WritableStep::AllocAdminsSid,
            WritableStep::ReadSecurity,
            WritableStep::TakeOwnership,
            WritableStep::BuildDacl,
            WritableStep::WriteDacl,
            WritableStep::Release,
            WritableStep::ReopenForWrite,
            WritableStep::Finished,
        ]
    );
    assert_eq!(k.outcome, Some(Ok(())));
    assert!(!k.holds_sid);
}

#[test]
fn key_errors_are_reported_after_release() {
    let (k, steps) = run_key(vec![
        WritableEvent::Opened(false),
        WritableEvent::Privilege(Ok(())),
        WritableEvent::SidAllocated(true),
        WritableEvent::SecurityRead { status: 0, owner_differs: false },
        WritableEvent::Status(0x57),
        WritableEvent::Released,
    ]);
    assert_eq!(steps[4], WritableStep::BuildDacl);
    assert_eq!(steps[5], WritableStep::Release);
    assert_eq!(k.outcome, Some(Err("SetEntriesInAcl 失败: 0x57".to_string())));
    let (k, _) = run_key(vec![
        WritableEvent::Opened(false),
        WritableEvent::Privilege(Ok(())),
        WritableEvent::SidAllocated(true),
        WritableEvent::SecurityRead { status: 0x5, owner_differs: false },
        WritableEvent::Released,
    ]);
    assert_eq!(k.outcome, Some(Err("GetNamedSecurityInfo(MACHINE\\SOFTWARE\\K) 失败: 0x5".to_string())));
    let (k, _) = run_key(vec![
        WritableEvent::Opened(false),
        WritableEvent::Privilege(Ok(())),
        WritableEvent::SidAllocated(true),
        WritableEvent::SecurityRead { status: 0, owner_differs: true },
        WritableEvent::Status(0xAB),
        WritableEvent::Released,
    ]);
    assert_eq!(k.outcome, Some(Err("接管属主失败(MACHINE\\SOFTWARE\\K): 0xAB".to_string())));
    let (k, _) = run_key(vec![
        WritableEvent::Opened(false),
        WritableEvent::Privilege(Ok(())),
        WritableEvent::SidAllocated(true),
        WritableEvent::SecurityRead { status: 0, owner_differs: false },
        WritableEvent::Status(0),
        WritableEvent::Status(1),
        WritableEvent::Released,
    ]);
    assert_eq!(k.outcome, Some(Err("写入新 DACL 失败(MACHINE\\SOFTWARE\\K): 0x1".to_string())));
}

#[test]
fn key_early_failures() {
    let (k, _) = run_key(vec![WritableEvent::Opened(false), WritableEvent::Privilege(Err("E".into()))]);
    assert_eq!(k.outcome, Some(Err("启用特权失败: E".to_string())));
    let (k, _) = run_key(vec![
        WritableEvent::Opened(false),
        WritableEvent::Privilege(Ok(())),
        WritableEvent::SidAllocated(false),
    ]);
    assert_eq!(k.outcome, Some(Err("AllocateAndInitializeSid 失败".to_string())));
    let (k, _) = run_key(vec![
        WritableEvent::Opened(false),
        WritableEvent::Privilege(Ok(())),
        WritableEvent::SidAllocated(true),
        WritableEvent::SecurityRead { status: 0, owner_differs: false },
        WritableEvent::Status(0),
        WritableEvent::Status(0),
        WritableEvent::Released,
        WritableEvent::Opened(false),
    ]);
    assert_eq!(k.outcome, Some(Err(still_not_writable_message("SOFTWARE\\K"))));
}

fn run_grant(statuses: &[u32]) -> (GrantAccess, Vec<GrantStep>) {
    let mut g = GrantAccess::new();
    let mut steps = vec![g.step];
    for &r in statuses {
        g.advance(r);
        steps.push(g.step);
    }
    (g, steps)
}

#[test]
fn grant_access_paths() {
    let (g, steps) = run_grant(&[0, 0, 0, 0]);
    assert_eq!(
        steps,
        vec![GrantStep::ReadDacl, GrantStep::BuildDacl, GrantStep::WriteDacl, GrantStep::Release, GrantStep::Finished]
    );
    assert_eq!(g.outcome, Some(Ok(())));
    let (g, _) = run_grant(&[2]);
    assert_eq!(g.outcome, Some(Err("GetNamedSecurityInfo 失败: 0x2".to_string())));
    let (g, steps) = run_grant(&[0, 0x3E6, 0]);
    assert_eq!(steps[2], GrantStep::Release);
    assert_eq!(g.outcome, Some(Err("SetEntriesInAcl 失败: 0x3E6".to_string())));
    let (g, _) = run_grant(&[0, 0, 5, 0]);
    assert_eq!(g.outcome, Some(Err("SetNamedSecurityInfo 失败: 0x5".to_string())));
}
