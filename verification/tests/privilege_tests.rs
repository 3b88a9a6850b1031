use kugou_dsp::apo::sec::{
    admins_full_control, admins_sid, key_security_call, AccessEntry, PrivilegeEnabling,
    PrivilegeEvent, PrivilegeStep, SecurityCall, WritableStep, TAKE_OWNERSHIP_PRIVILEGE,
    TOKEN_ACCESS,
};
use kugou_dsp::apo::toggle::{config_security_call, everyone_write, EVERYONE};

/// Runs the privilege steps with the given answers; returns the outcome
/// and the steps seen.
fn enable(
    name: &str,
    opens: &[bool],
    found: bool,
    adjusted: (bool, u32),
) -> (Result<(), String>, Vec<PrivilegeStep>) {
    let mut p = PrivilegeEnabling::new(name.to_string());
    let mut steps = Vec::new();
    let mut opened = 0;
    loop {
        steps.push(p.step);
        let ev = match p.step {
            PrivilegeStep::OpenToken { .. } | PrivilegeStep::ReopenToken { .. } => {
                opened += 1;
                PrivilegeEvent::TokenOpened(opens[opened - 1])
            }
            PrivilegeStep::LookupValue => PrivilegeEvent::LookedUp(found),
            PrivilegeStep::CloseAfterLookup { .. } | PrivilegeStep::CloseAfterAdjust { .. } => {
                PrivilegeEvent::Closed
            }
            PrivilegeStep::Adjust { .. } => {
                PrivilegeEvent::Adjusted { ok: adjusted.0, last_error: adjusted.1 }
            }
            PrivilegeStep::Finished => break,
        };
        p.advance(ev);
    }
    (p.outcome.expect("finished"), steps)
}

#[test]
fn privilege_enabled_with_fixed_arguments() {
    let (r, steps) = enable("SeX", &[true, true], true, (true, 0));
    assert_eq!(r, Ok(()));
    assert_eq!(
        steps,
        vec![
            PrivilegeStep::OpenToken { access: 0x28 },
            PrivilegeStep::LookupValue,
            PrivilegeStep::CloseAfterLookup { found: true },
            PrivilegeStep::ReopenToken { access: 0x28 },
            PrivilegeStep::Adjust { disable_all: 0, attributes: 2 },
            PrivilegeStep::CloseAfterAdjust { ok: true, last_error: 0 },
            PrivilegeStep::Finished,
        ]
    );
    assert_eq!(TOKEN_ACCESS, 0x0020 | 0x0008);
    assert_eq!(TAKE_OWNERSHIP_PRIVILEGE, "SeTakeOwnershipPrivilege");
}

#[test]
fn privilege_token_that_does_not_open() {
    let (r, steps) = enable("SeX", &[false], true, (true, 0));
    assert_eq!(r, Err("OpenProcessToken 失败".to_string()));
    assert_eq!(steps.len(), 2);
    let (r, steps) = enable("SeX", &[true, false], true, (true, 0));
    assert_eq!(r, Err("OpenProcessToken 失败".to_string()));
    assert_eq!(steps.len(), 5);
}

#[test]
fn privilege_unknown_name_is_reported_after_closing() {
    let (r, steps) = enable("SeNoSuch", &[true], false, (true, 0));
    assert_eq!(r, Err("LookupPrivilegeValue(SeNoSuch) 失败".to_string()));
    assert_eq!(steps[2], PrivilegeStep::CloseAfterLookup { found: false });
    assert_eq!(steps[3], PrivilegeStep::Finished);
}

#[test]
fn privilege_adjust_failures() {
    let (r, _) = enable("SeX", &[true, true], true, (false, 0));
    assert_eq!(r, Err("AdjustTokenPrivileges 调用失败".to_string()));
    let (r, steps) = enable("SeX", &[true, true], true, (true, 1300));
    assert_eq!(r, Err("特权 SeX 未被授予（需要管理员身份运行）".to_string()));
    assert_eq!(steps[5], PrivilegeStep::CloseAfterAdjust { ok: true, last_error: 1300 });
}

#[test]
fn key_acl_is_administrators_full_control() {
    let sid = admins_sid();
    assert_eq!(sid.authority, [0, 0, 0, 0, 0, 5]);
    assert_eq!((sid.sub_count, sid.rid0, sid.rid1), (2, 32, 544));
    assert_eq!(
        admins_full_control(),
        AccessEntry {
            multiple_trustee_operation: 0,
            trustee_form: 0,
            trustee_type: 2,
            access_permissions: 0x000F_003F,
            access_mode: 2,
            inheritance: 0,
        }
    );
    assert_eq!(
        key_security_call(WritableStep::ReadSecurity),
        Some(SecurityCall { object_type: 2, info: 1 | 4 })
    );
    assert_eq!(
        key_security_call(WritableStep::TakeOwnership),
        Some(SecurityCall { object_type: 2, info: 1 })
    );
    assert_eq!(
        key_security_call(WritableStep::WriteDacl),
        Some(SecurityCall { object_type: 2, info: 4 })
    );
    assert_eq!(key_security_call(WritableStep::BuildDacl), None);
}

#[test]
fn config_acl_lets_everyone_write() {
    assert_eq!(EVERYONE, "Everyone");
    assert_eq!(
        everyone_write(),
        AccessEntry {
            multiple_trustee_operation: 0,
            trustee_form: 1,
            trustee_type: 5,
            access_permissions: 0x0012_0116,
            access_mode: 2,
            inheritance: 2,
        }
    );
    assert_eq!(config_security_call(), SecurityCall { object_type: 1, info: 4 });
}
