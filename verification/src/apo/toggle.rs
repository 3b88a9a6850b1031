//! `apo-on` / `apo-off`: the one-byte config and the change event.
use vstd::prelude::*;
use crate::apo::sec::{
    outcome_view, status_hex, AccessEntry, SecurityCall, DACL_SECURITY_INFORMATION,
    NO_MULTIPLE_TRUSTEE, SET_ACCESS, SE_FILE_OBJECT, TRUSTEE_IS_NAME, TRUSTEE_IS_WELL_KNOWN_GROUP,
};
use crate::text::push_hex_upper;

verus! {

/// The config byte for a switch state: 1 on, 0 off.
pub open spec fn config_byte_of(on: bool) -> u8 {
    if on {
        1
    } else {
        0
    }
}

/// Whether a config (its first byte, if the file exists) means "on".
pub open spec fn enabled_by(cfg: Option<u8>) -> bool {
    cfg == Some(1u8)
}

/// The byte written for a switch state.
pub fn config_byte(on: bool) -> (r: u8)
    ensures
        r == config_byte_of(on),
{
    if on {
        1
    } else {
        0
    }
}

/// The config as read back: the file's first byte, `None` when the file
/// is empty.
pub fn first_byte(data: &Vec<u8>) -> (r: Option<u8>)
    ensures
        r == (if data@.len() > 0 {
            Some(data@[0])
        } else {
            None::<u8>
        }),
{
    if data.len() > 0 {
        Some(data[0])
    } else {
        None
    }
}

/// Whether the switch is on.
pub fn is_enabled(cfg: Option<u8>) -> (r: bool)
    ensures
        r == enabled_by(cfg),
{
    match cfg {
        Some(b) => b == 1,
        None => false,
    }
}

/// Reading back what was written gives the switch state that was set.
pub proof fn lemma_switch_roundtrip(on: bool)
    ensures
        enabled_by(Some(config_byte_of(on))) == on,
{
}

/// The message after switching: the new state, and a note when no change
/// event could be signalled (the APO then only picks the change up later).
pub open spec fn toggle_text(on: bool, signaled: bool) -> Seq<char> {
    "[完成] 全局音效已"@ + (if on {
        "开启"@
    } else {
        "关闭"@
    }) + (if signaled {
        Seq::empty()
    } else {
        "（未找到变更事件——APO 可能尚未安装或音频服务未重启，音效不会即时生效）"@
    })
}

/// The message after switching.
pub fn toggle_message(on: bool, signaled: bool) -> (r: String)
    ensures
        r@ == toggle_text(on, signaled),
{
    let mut s = String::from_str("[完成] 全局音效已");
    if on {
        s.append("开启");
    } else {
        s.append("关闭");
    }
    if !signaled {
        s.append("（未找到变更事件——APO 可能尚未安装或音频服务未重启，音效不会即时生效）");
    }
    proof {
        if signaled {
            assert(s@ =~= toggle_text(on, signaled));
        }
    }
    s
}

/// The message when the config cannot be written.
pub fn toggle_failure_message(err: &str) -> (r: String)
    ensures
        r@ == "[失败] "@ + err@ + "\n提示: 若权限不足请以管理员运行一次 apo-install 重新部署"@,
{
    let mut s = String::from_str("[失败] ");
    s.append(err);
    s.append("\n提示: 若权限不足请以管理员运行一次 apo-install 重新部署");
    s
}

/// Name of the trustee that may write the config file.
pub const EVERYONE: &'static str = "Everyone";

/// `FILE_GENERIC_WRITE`
pub const FILE_GENERIC_WRITE: u32 = 0x0012_0116;

/// `SUB_CONTAINERS_AND_OBJECTS_INHERIT`
pub const SUB_CONTAINERS_AND_OBJECTS_INHERIT: u32 = 2;

/// The entry added to the config file's DACL: the well-known group
/// Everyone, by name, gets generic write access (replacing what it had),
/// inherited by sub-containers and objects.
pub fn everyone_write() -> (r: AccessEntry)
    ensures
        r == (AccessEntry {
            multiple_trustee_operation: NO_MULTIPLE_TRUSTEE,
            trustee_form: TRUSTEE_IS_NAME,
            trustee_type: TRUSTEE_IS_WELL_KNOWN_GROUP,
            access_permissions: FILE_GENERIC_WRITE,
            access_mode: SET_ACCESS,
            inheritance: SUB_CONTAINERS_AND_OBJECTS_INHERIT,
        }),
{
    AccessEntry {
        multiple_trustee_operation: NO_MULTIPLE_TRUSTEE,
        trustee_form: TRUSTEE_IS_NAME,
        trustee_type: TRUSTEE_IS_WELL_KNOWN_GROUP,
        access_permissions: FILE_GENERIC_WRITE,
        access_mode: SET_ACCESS,
        inheritance: SUB_CONTAINERS_AND_OBJECTS_INHERIT,
    }
}

/// The security calls on the config file read and write its DACL only.
pub fn config_security_call() -> (r: SecurityCall)
    ensures
        r == (SecurityCall { object_type: SE_FILE_OBJECT, info: DACL_SECURITY_INFORMATION }),
{
    SecurityCall { object_type: SE_FILE_OBJECT, info: DACL_SECURITY_INFORMATION }
}

/// Steps of letting Everyone write the config file; each is one outside
/// call made by the caller.
#[derive(PartialEq, Eq, Structural, Clone, Copy, Debug)]
pub enum GrantStep {
    /// Read the file's DACL (`GetNamedSecurityInfoW`).
    ReadDacl,
    /// Build a DACL with an Everyone write entry (`SetEntriesInAclW`).
    BuildDacl,
    /// Write the new DACL (`SetNamedSecurityInfoW`).
    WriteDacl,
    /// Free the new DACL and the security descriptor, where allocated.
    Release,
    /// Nothing left to do.
    Finished,
}

/// The process of granting write access on the config file.
#[derive(Debug)]
pub struct GrantAccess {
    /// The next step.
    pub step: GrantStep,
    /// An error waiting for the release.
    pub pending: Option<String>,
    /// The outcome, once finished.
    pub outcome: Option<Result<(), String>>,
}

/// The state after a step with status `r` (0: success): next step, pending
/// error, outcome.
pub open spec fn grant_transition(step: GrantStep, pending: Option<Seq<char>>, r: u32) -> (
    GrantStep,
    Option<Seq<char>>,
    Option<Result<(), Seq<char>>>,
) {
    match step {
        GrantStep::ReadDacl => if r != 0 {
            (GrantStep::Finished, None, Some(Err("GetNamedSecurityInfo 失败: "@ + status_hex(r))))
        } else {
            (GrantStep::BuildDacl, None, None)
        },
        GrantStep::BuildDacl => if r != 0 {
            (GrantStep::Release, Some("SetEntriesInAcl 失败: "@ + status_hex(r)), None)
        } else {
            (GrantStep::WriteDacl, None, None)
        },
        GrantStep::WriteDacl => if r != 0 {
            (GrantStep::Release, Some("SetNamedSecurityInfo 失败: "@ + status_hex(r)), None)
        } else {
            (GrantStep::Release, None, None)
        },
        GrantStep::Release => match pending {
            Some(e) => (GrantStep::Finished, None, Some(Err(e))),
            None => (GrantStep::Finished, None, Some(Ok(()))),
        },
        GrantStep::Finished => (GrantStep::Finished, pending, None),
    }
}

fn with_status(prefix: &str, r: u32) -> (m: String)
    ensures
        m@ == prefix@ + status_hex(r),
{
    let mut m = String::from_str(prefix);
    m.append("0x");
    push_hex_upper(&mut m, r);
    m
}

impl GrantAccess {
    /// An error waits only for the release; only a finished process has an
    /// outcome.
    pub open spec fn wf(&self) -> bool {
        &&& self.pending is Some ==> self.step == GrantStep::Release
        &&& (self.outcome is Some <==> self.step == GrantStep::Finished)
    }

    /// Starts the process.
    pub fn new() -> (r: GrantAccess)
        ensures
            r.wf(),
            r.step == GrantStep::ReadDacl,
    {
        GrantAccess { step: GrantStep::ReadDacl, pending: None, outcome: None }
    }

    /// Takes the status of the current step (0: success; the release
    /// reports 0) and moves on.
    pub fn advance(&mut self, r: u32)
        requires
            old(self).wf(),
            old(self).step != GrantStep::Finished,
        ensures
            final(self).wf(),
            ({
                let t = grant_transition(
                    old(self).step,
                    match old(self).pending {
                        Some(e) => Some(e@),
                        None => None,
                    },
                    r,
                );
                &&& final(self).step == t.0
                &&& match final(self).pending {
                    Some(e) => Some(e@),
                    None => None,
                } == t.1
                &&& outcome_view(final(self).outcome) == t.2
            }),
    {
        match self.step {
            GrantStep::ReadDacl => {
                if r != 0 {
                    self.step = GrantStep::Finished;
                    self.outcome = Some(Err(with_status("GetNamedSecurityInfo 失败: ", r)));
                } else {
                    self.step = GrantStep::BuildDacl;
                }
            },
            GrantStep::BuildDacl => {
                if r != 0 {
                    self.pending = Some(with_status("SetEntriesInAcl 失败: ", r));
                    self.step = GrantStep::Release;
                } else {
                    self.step = GrantStep::WriteDacl;
                }
            },
            GrantStep::WriteDacl => {
                if r != 0 {
                    self.pending = Some(with_status("SetNamedSecurityInfo 失败: ", r));
                }
                self.step = GrantStep::Release;
            },
            GrantStep::Release => {
                self.step = GrantStep::Finished;
                match self.pending.take() {
                    Some(e) => {
                        self.outcome = Some(Err(e));
                    },
                    None => {
                        self.outcome = Some(Ok(()));
                    },
                }
            },
            GrantStep::Finished => {},
        }
    }
}

/// Once the DACL has been read, no step ends the process directly: it
/// ends only through the release of what was allocated.
pub proof fn lemma_grant_releases_before_finishing(step: GrantStep, pending: Option<Seq<char>>, r: u32)
    requires
        step == GrantStep::BuildDacl || step == GrantStep::WriteDacl,
    ensures
        grant_transition(step, pending, r).0 != GrantStep::Finished,
{
}

} // verus!
