use kugou_dsp::apo::setup::{Install, InstallCall, InstallEvent, InstallStep};
use kugou_dsp::apo::CLSID_KUGOU_APO;

const BACKUP: &str = "SOFTWARE\\Kugou\\BackupAPOs_kugoudsp";
const FX: &str = "SOFTWARE\\Microsoft\\Windows\\CurrentVersion\\MMDevices\\Audio\\Render";

/// Answers for the install calls; `fail_at` makes one call fail.
struct Answers {
    default_device: Result<String, String>,
    slot: Option<String>,
    fail_at: Option<&'static str>,
}

fn run_install(device: Option<&str>, a: &Answers) -> (Result<String, String>, Vec<String>) {
    let mut flow = Install::new(Some("D:\\KGApo".to_string()), device.map(|d| d.to_string()));
    let mut log: Vec<String> = Vec::new();
    let fails = |name: &str| a.fail_at == Some(name);
    loop {
        let ev = match flow.next_call() {
            InstallCall::Deploy { from } => {
                log.push(format!("deploy {}", from.unwrap_or_default()));
                InstallEvent::Completed(if fails("deploy") { Err("源缺失".into()) } else { Ok(()) })
            }
            InstallCall::RegisterClass => {
                log.push("register".into());
                InstallEvent::Completed(Ok(()))
            }
            InstallCall::DefaultDevice => {
                log.push("default".into());
                InstallEvent::DefaultFound(a.default_device.clone())
            }
            InstallCall::EnsureWritable { key } => {
                log.push(format!("writable {key}"));
                InstallEvent::Completed(if fails("writable") { Err("locked".into()) } else { Ok(()) })
            }
            InstallCall::ReadSlot { key } => {
                log.push(format!("read {key}"));
                InstallEvent::SlotRead(if fails("read") { Err(2) } else { Ok(a.slot.clone()) })
            }
            InstallCall::WriteBackup { key, value } => {
                log.push(format!("backup {key} = {value}"));
                InstallEvent::BackupWritten(if fails("backup") { Err(5) } else { Ok(()) })
            }
            InstallCall::OpenSlot { key } => {
                log.push(format!("open {key}"));
                InstallEvent::SlotOpened(if fails("open") { Err(0x8000_0005) } else { Ok(()) })
            }
            InstallCall::WriteSlot { value } => {
                log.push(format!("mount {value}"));
                InstallEvent::SlotWritten(!fails("mount"))
            }
            InstallCall::SwitchOff { byte } => {
                log.push(format!("off {byte}"));
                InstallEvent::Completed(Ok(()))
            }
            InstallCall::GrantWrite => {
                log.push("grant".into());
                InstallEvent::Completed(if fails("grant") { Err("acl".into()) } else { Ok(()) })
            }
            InstallCall::Done => break,
        };
        flow.advance(ev);
    }
    assert_eq!(flow.step, InstallStep::Finished);
    (flow.into_outcome(), log)
}

fn answers() -> Answers {
    Answers { default_device: Ok("{dflt}".into()), slot: Some("{orig}".into()), fail_at: None }
}

#[test]
fn install_backs_up_before_mounting() {
    let (r, log) = run_install(Some(" {dev} "), &answers());
    assert_eq!(
        r,
        Ok("安装完成。端点 {dev} 已挂载 KuGouAPO。\n用 `kugou-dsp apo-on` 或 UI 开启音效。".to_string())
    );
    assert_eq!(
        log,
        vec![
            "deploy D:\\KGApo".to_string(),
            "register".to_string(),
            format!("writable {FX}\\{{dev}}\\FxProperties"),
            format!("read {FX}\\{{dev}}\\FxProperties"),
            format!("backup {BACKUP}\\{{dev}} = {{orig}}"),
            format!("open {FX}\\{{dev}}\\FxProperties"),
            format!("mount {CLSID_KUGOU_APO}"),
            "off 0".to_string(),
            "grant".to_string(),
        ]
    );
}

#[test]
fn install_uses_the_default_device_and_marks_a_missing_value() {
    let mut a = answers();
    a.slot = None;
    let (r, log) = run_install(None, &a);
    assert!(r.unwrap().contains("端点 {dflt}"));
    assert_eq!(log[2], "default");
    assert_eq!(log[5], format!("backup {BACKUP}\\{{dflt}} = !VALUE"));
}

#[test]
fn install_without_a_default_device_fails() {
    let mut a = answers();
    a.default_device = Err("未找到默认渲染设备".into());
    let (r, log) = run_install(None, &a);
    assert_eq!(r, Err("未找到默认渲染设备".to_string()));
    assert_eq!(log.last().map(String::as_str), Some("default"));
}

#[test]
fn install_stops_at_the_first_error() {
    let cases: [(&str, &str); 6] = [
        ("deploy", "源缺失"),
        ("writable", "locked"),
        ("backup", "创建备份键失败: 0x5"),
        ("open", "端点 FxProperties 打开写失败: 0x80000005"),
        ("mount", "写入 FxProperties 失败"),
        ("grant", "acl"),
    ];
    for (at, msg) in cases {
        let mut a = answers();
        a.fail_at = Some(at);
        let (r, log) = run_install(Some("g"), &a);
        assert_eq!(r, Err(msg.to_string()), "failing at {at}");
        assert!(log.last().unwrap().starts_with(at) || (at == "mount" && log.last().unwrap().starts_with("mount")));
        if at != "grant" {
            assert!(!log.contains(&"grant".to_string()));
        }
    }
    let mut a = answers();
    a.fail_at = Some("read");
    let (r, _) = run_install(Some("g"), &a);
    assert_eq!(
        r,
        Err(format!("端点 FxProperties 打开失败({FX}\\{{g}}\\FxProperties): 0x2\n该设备可能是虚拟设备，换 --device 试试"))
    );
}
