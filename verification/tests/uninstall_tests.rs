use kugou_dsp::apo::install::RestoreAction;
use kugou_dsp::apo::uninstall::{Uninstall, UninstallCall, UninstallEvent, UninstallStep};
use kugou_dsp::apo::CLSID_KUGOU_APO;

const BACKUP: &str = "SOFTWARE\\Kugou\\BackupAPOs_kugoudsp";
const FX: &str = "SOFTWARE\\Microsoft\\Windows\\CurrentVersion\\MMDevices\\Audio\\Render";

/// A fake registry for the uninstall sequence: the backups that exist, the
/// keys that cannot be made writable, the slot keys that do not open.
struct World {
    listing: Vec<(String, Option<String>)>,
    backups: Vec<(String, Option<String>)>,
    not_writable: Vec<String>,
    slot_fails: Vec<String>,
}

fn run(device: Option<&str>, world: &World) -> (Result<String, String>, Vec<String>) {
    let mut flow = Uninstall::new(device.map(|d| d.to_string()));
    let mut log = Vec::new();
    loop {
        let ev = match flow.next_call() {
            UninstallCall::SwitchOff { byte } => {
                log.push(format!("off {byte}"));
                UninstallEvent::SwitchedOff
            }
            UninstallCall::ListMounted => {
                log.push("list".to_string());
                UninstallEvent::Listed(world.listing.clone())
            }
            UninstallCall::ReadBackup { key } => {
                log.push(format!("read {key}"));
                match world.backups.iter().find(|(k, _)| *k == key) {
                    Some((_, v)) => UninstallEvent::Backup { found: true, value: v.clone() },
                    None => UninstallEvent::Backup { found: false, value: None },
                }
            }
            UninstallCall::EnsureWritable { key } => {
                log.push(format!("writable {key}"));
                if world.not_writable.contains(&key) {
                    UninstallEvent::Writable(Err(format!("denied {key}")))
                } else {
                    UninstallEvent::Writable(Ok(()))
                }
            }
            UninstallCall::OpenSlot { key } => {
                log.push(format!("open {key}"));
                UninstallEvent::SlotOpened(!world.slot_fails.contains(&key))
            }
            UninstallCall::Restore { action } => {
                log.push(match action {
                    RestoreAction::Delete => "delete value".to_string(),
                    RestoreAction::Write(v) => format!("write {v}"),
                });
                UninstallEvent::Restored
            }
            UninstallCall::DeleteBackup { key } => {
                log.push(format!("drop {key}"));
                UninstallEvent::BackupDeleted
            }
            UninstallCall::DeleteClass { key } => {
                log.push(format!("drop {key}"));
                UninstallEvent::ClassDeleted
            }
            UninstallCall::Done => break,
        };
        flow.advance(ev);
    }
    assert_eq!(flow.step, UninstallStep::Finished);
    (flow.into_outcome(), log)
}

fn empty_world() -> World {
    World { listing: vec![], backups: vec![], not_writable: vec![], slot_fails: vec![] }
}

fn class_key() -> String {
    format!("SOFTWARE\\Classes\\CLSID\\{CLSID_KUGOU_APO}")
}

#[test]
fn uninstall_restores_the_given_device() {
    let mut world = empty_world();
    world.backups.push((format!("{BACKUP}\\{{abc}}"), Some("{old-clsid}".to_string())));
    let (r, log) = run(Some(" {abc} "), &world);
    assert_eq!(
        r,
        Ok("卸载完成，已还原端点: {abc}\n如声音异常请重启 Windows Audio 服务或重启电脑".to_string())
    );
    assert_eq!(
        log,
        vec![
            "off 0".to_string(),
            format!("read {BACKUP}\\{{abc}}"),
            format!("writable {FX}\\{{abc}}\\FxProperties"),
            format!("open {FX}\\{{abc}}\\FxProperties"),
            "write {old-clsid}".to_string(),
            format!("drop {BACKUP}\\{{abc}}"),
            format!("drop {}", class_key()),
        ]
    );
}

#[test]
fn uninstall_lists_mounted_endpoints_and_skips_missing_backups() {
    let mut world = empty_world();
    world.listing = vec![
        ("{a}".to_string(), Some(CLSID_KUGOU_APO.to_string())),
        ("{b}".to_string(), Some("{other}".to_string())),
        ("{c}".to_string(), Some(CLSID_KUGOU_APO.to_string())),
    ];
    world.backups.push((format!("{BACKUP}\\{{c}}"), Some("!VALUE".to_string())));
    let (r, log) = run(None, &world);
    assert_eq!(
        r,
        Ok("卸载完成，已还原端点: {a}, {c}\n如声音异常请重启 Windows Audio 服务或重启电脑".to_string())
    );
    assert_eq!(
        log,
        vec![
            "off 0".to_string(),
            "list".to_string(),
            format!("read {BACKUP}\\{{a}}"),
            format!("read {BACKUP}\\{{c}}"),
            format!("writable {FX}\\{{c}}\\FxProperties"),
            format!("open {FX}\\{{c}}\\FxProperties"),
            "delete value".to_string(),
            format!("drop {BACKUP}\\{{c}}"),
            format!("drop {}", class_key()),
        ]
    );
}

#[test]
fn uninstall_with_nothing_mounted_still_removes_the_class() {
    let (r, log) = run(None, &empty_world());
    assert_eq!(r, Ok("未发现挂载点（可能已卸载）".to_string()));
    assert_eq!(log, vec!["off 0".to_string(), "list".to_string(), format!("drop {}", class_key())]);
}

#[test]
fn uninstall_stops_at_the_first_key_that_stays_locked() {
    let mut world = empty_world();
    world.listing = vec![
        ("{a}".to_string(), Some(CLSID_KUGOU_APO.to_string())),
        ("{b}".to_string(), Some(CLSID_KUGOU_APO.to_string())),
    ];
    world.backups.push((format!("{BACKUP}\\{{a}}"), Some("{x}".to_string())));
    world.backups.push((format!("{BACKUP}\\{{b}}"), None));
    world.not_writable.push(format!("{FX}\\{{b}}\\FxProperties"));
    let (r, log) = run(None, &world);
    assert_eq!(r, Err(format!("denied {FX}\\{{b}}\\FxProperties")));
    assert!(log.contains(&"write {x}".to_string()));
    assert!(!log.iter().any(|l| l.contains("CLSID")));
    assert_eq!(log.last(), Some(&format!("writable {FX}\\{{b}}\\FxProperties")));
}

#[test]
fn uninstall_drops_the_backup_when_the_slot_does_not_open() {
    let mut world = empty_world();
    world.backups.push((format!("{BACKUP}\\{{d}}"), Some("{y}".to_string())));
    world.slot_fails.push(format!("{FX}\\{{d}}\\FxProperties"));
    let (r, log) = run(Some("d"), &world);
    assert!(r.is_ok());
    assert!(!log.iter().any(|l| l.starts_with("write")));
    assert!(log.contains(&format!("drop {BACKUP}\\{{d}}")));
    assert_eq!(log.last(), Some(&format!("drop {}", class_key())));
}
