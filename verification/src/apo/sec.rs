//! Making an endpoint's registry key writable: the decisions and texts
//! around taking ownership and granting Administrators full control.
use vstd::prelude::*;
use crate::text::{hex_upper_digits, push_hex_upper};

verus! {

/// `ERROR_NOT_ALL_ASSIGNED`: `AdjustTokenPrivileges` succeeded but did not
/// grant the privilege.
pub const ERROR_NOT_ALL_ASSIGNED: u32 = 1300;

/// Access that the process token is opened with:
/// `TOKEN_ADJUST_PRIVILEGES | TOKEN_QUERY`.
pub const TOKEN_ACCESS: u32 = 0x0028;

/// `SE_PRIVILEGE_ENABLED`: the attribute that enables a privilege.
pub const SE_PRIVILEGE_ENABLED: u32 = 2;

/// The privilege that allows taking ownership of a key.
pub const TAKE_OWNERSHIP_PRIVILEGE: &'static str = "SeTakeOwnershipPrivilege";

/// The outcome of enabling privilege `name` once `AdjustTokenPrivileges`
/// returned: the call failed, or the last error says the privilege was not
/// assigned, or it worked.
pub open spec fn privilege_outcome(adjust_ok: bool, last_error: u32, name: Seq<char>) -> Result<
    (),
    Seq<char>,
> {
    if !adjust_ok {
        Err("AdjustTokenPrivileges 调用失败"@)
    } else if last_error == ERROR_NOT_ALL_ASSIGNED {
        Err("特权 "@ + name + " 未被授予（需要管理员身份运行）"@)
    } else {
        Ok(())
    }
}

/// The outcome of enabling a privilege: the call failed, or it returned
/// but the last error says the privilege was not assigned, or it worked.
pub fn privilege_result(adjust_ok: bool, last_error: u32, name: &str) -> (r: Result<(), String>)
    ensures
        outcome_view(Some(r)) == Some(privilege_outcome(adjust_ok, last_error, name@)),
{
    if !adjust_ok {
        return Err(String::from_str("AdjustTokenPrivileges 调用失败"));
    }
    if last_error == ERROR_NOT_ALL_ASSIGNED {
        let mut s = String::from_str("特权 ");
        s.append(name);
        s.append(" 未被授予（需要管理员身份运行）");
        return Err(s);
    }
    Ok(())
}

/// Steps of enabling a privilege on the process token; each is one outside
/// call made by the caller.
#[derive(PartialEq, Eq, Structural, Clone, Copy, Debug)]
pub enum PrivilegeStep {
    /// Open the process token (`OpenProcessToken`) with `access`.
    OpenToken { access: u32 },
    /// Look the privilege's LUID up by its name (`LookupPrivilegeValueW`).
    LookupValue,
    /// Close the token; `found` is whether the lookup succeeded.
    CloseAfterLookup { found: bool },
    /// Open the process token again, for the adjustment.
    ReopenToken { access: u32 },
    /// `AdjustTokenPrivileges` with `disable_all` and one entry: the LUID
    /// with `attributes`; then `GetLastError`.
    Adjust { disable_all: i32, attributes: u32 },
    /// Close the token; what the adjustment returned and the last error.
    CloseAfterAdjust { ok: bool, last_error: u32 },
    /// Nothing left to do; the outcome is known.
    Finished,
}

/// What the caller saw when it made a call.
#[derive(PartialEq, Eq, Structural, Clone, Copy, Debug)]
pub enum PrivilegeEvent {
    /// Whether the token opened.
    TokenOpened(bool),
    /// Whether the lookup found the privilege.
    LookedUp(bool),
    /// The token was closed.
    Closed,
    /// Whether `AdjustTokenPrivileges` succeeded, and the last error read
    /// right after it.
    Adjusted { ok: bool, last_error: u32 },
}

/// The process of enabling one privilege.
#[derive(Debug)]
pub struct PrivilegeEnabling {
    /// The privilege's name.
    pub name: String,
    /// The next call.
    pub step: PrivilegeStep,
    /// The outcome, once `Finished`.
    pub outcome: Option<Result<(), String>>,
}

/// Whether an event answers a step.
pub open spec fn privilege_event_fits(step: PrivilegeStep, ev: PrivilegeEvent) -> bool {
    match step {
        PrivilegeStep::OpenToken { .. } | PrivilegeStep::ReopenToken { .. } => ev is TokenOpened,
        PrivilegeStep::LookupValue => ev is LookedUp,
        PrivilegeStep::CloseAfterLookup { .. } | PrivilegeStep::CloseAfterAdjust { .. } => ev is Closed,
        PrivilegeStep::Adjust { .. } => ev is Adjusted,
        PrivilegeStep::Finished => false,
    }
}

/// The next step and the outcome after a call.
pub open spec fn privilege_transition(name: Seq<char>, step: PrivilegeStep, ev: PrivilegeEvent) -> (
    PrivilegeStep,
    Option<Result<(), Seq<char>>>,
) {
    match (step, ev) {
        (PrivilegeStep::OpenToken { .. }, PrivilegeEvent::TokenOpened(ok)) => if ok {
            (PrivilegeStep::LookupValue, None)
        } else {
            (PrivilegeStep::Finished, Some(Err("OpenProcessToken 失败"@)))
        },
        (PrivilegeStep::LookupValue, PrivilegeEvent::LookedUp(found)) => (
            PrivilegeStep::CloseAfterLookup { found },
            None,
        ),
        (PrivilegeStep::CloseAfterLookup { found }, PrivilegeEvent::Closed) => if found {
            (PrivilegeStep::ReopenToken { access: TOKEN_ACCESS }, None)
        } else {
            (PrivilegeStep::Finished, Some(Err("LookupPrivilegeValue("@ + name + ") 失败"@)))
        },
        (PrivilegeStep::ReopenToken { .. }, PrivilegeEvent::TokenOpened(ok)) => if ok {
            (PrivilegeStep::Adjust { disable_all: 0, attributes: SE_PRIVILEGE_ENABLED }, None)
        } else {
            (PrivilegeStep::Finished, Some(Err("OpenProcessToken 失败"@)))
        },
        (PrivilegeStep::Adjust { .. }, PrivilegeEvent::Adjusted { ok, last_error }) => (
            PrivilegeStep::CloseAfterAdjust { ok, last_error },
            None,
        ),
        (PrivilegeStep::CloseAfterAdjust { ok, last_error }, PrivilegeEvent::Closed) => (
            PrivilegeStep::Finished,
            Some(privilege_outcome(ok, last_error, name)),
        ),
        _ => (step, None),
    }
}

/// Whether the process holds an open token at this step.
pub open spec fn holds_token(step: PrivilegeStep) -> bool {
    ||| step is LookupValue
    ||| step is CloseAfterLookup
    ||| step is Adjust
    ||| step is CloseAfterAdjust
}

impl PrivilegeEnabling {
    /// The calls are made with the fixed arguments; only a finished
    /// process has an outcome.
    pub open spec fn wf(&self) -> bool {
        &&& (self.step matches PrivilegeStep::OpenToken { access } ==> access == TOKEN_ACCESS)
        &&& (self.step matches PrivilegeStep::ReopenToken { access } ==> access == TOKEN_ACCESS)
        &&& (self.step matches PrivilegeStep::Adjust { disable_all, attributes } ==> disable_all == 0
            && attributes == SE_PRIVILEGE_ENABLED)
        &&& (self.outcome is Some <==> self.step == PrivilegeStep::Finished)
    }

    /// Starts enabling privilege `name`: the token is opened first.
    pub fn new(name: String) -> (r: PrivilegeEnabling)
        ensures
            r.wf(),
            r.name == name,
            r.step == (PrivilegeStep::OpenToken { access: TOKEN_ACCESS }),
    {
        PrivilegeEnabling { name, step: PrivilegeStep::OpenToken { access: TOKEN_ACCESS }, outcome: None }
    }

    /// Takes what the caller saw for the current call and moves on.
    pub fn advance(&mut self, ev: PrivilegeEvent)
        requires
            old(self).wf(),
            privilege_event_fits(old(self).step, ev),
        ensures
            final(self).wf(),
            final(self).name == old(self).name,
            ({
                let t = privilege_transition(old(self).name@, old(self).step, ev);
                &&& final(self).step == t.0
                &&& outcome_view(final(self).outcome) == t.1
            }),
    {
        match (self.step, ev) {
            (PrivilegeStep::OpenToken { .. }, PrivilegeEvent::TokenOpened(ok)) => {
                if ok {
                    self.step = PrivilegeStep::LookupValue;
                } else {
                    self.step = PrivilegeStep::Finished;
                    self.outcome = Some(Err(String::from_str("OpenProcessToken 失败")));
                }
            },
            (PrivilegeStep::LookupValue, PrivilegeEvent::LookedUp(found)) => {
                self.step = PrivilegeStep::CloseAfterLookup { found };
            },
            (PrivilegeStep::CloseAfterLookup { found }, PrivilegeEvent::Closed) => {
                if found {
                    self.step = PrivilegeStep::ReopenToken { access: TOKEN_ACCESS };
                } else {
                    let mut m = String::from_str("LookupPrivilegeValue(");
                    m.append(self.name.as_str());
                    m.append(") 失败");
                    self.step = PrivilegeStep::Finished;
                    self.outcome = Some(Err(m));
                }
            },
            (PrivilegeStep::ReopenToken { .. }, PrivilegeEvent::TokenOpened(ok)) => {
                if ok {
                    self.step = PrivilegeStep::Adjust { disable_all: 0, attributes: SE_PRIVILEGE_ENABLED };
                } else {
                    self.step = PrivilegeStep::Finished;
                    self.outcome = Some(Err(String::from_str("OpenProcessToken 失败")));
                }
            },
            (PrivilegeStep::Adjust { .. }, PrivilegeEvent::Adjusted { ok, last_error }) => {
                self.step = PrivilegeStep::CloseAfterAdjust { ok, last_error };
            },
            (PrivilegeStep::CloseAfterAdjust { ok, last_error }, PrivilegeEvent::Closed) => {
                let r = privilege_result(ok, last_error, self.name.as_str());
                self.step = PrivilegeStep::Finished;
                self.outcome = Some(r);
            },
            _ => {},
        }
    }
}

/// A token that was opened is closed before the process ends: the process
/// finishes only where no token is open, or by closing it.
pub proof fn lemma_token_closed_before_finishing(name: Seq<char>, step: PrivilegeStep, ev: PrivilegeEvent)
    requires
        privilege_event_fits(step, ev),
        privilege_transition(name, step, ev).0 == PrivilegeStep::Finished,
    ensures
        !holds_token(step) || step is CloseAfterLookup || step is CloseAfterAdjust,
{
}

/// The security-API name of an HKLM subkey.
pub fn security_object_path(subpath: &str) -> (r: String)
    ensures
        r@ == "MACHINE\\"@ + subpath@,
{
    let mut s = String::from_str("MACHINE\\");
    s.append(subpath);
    s
}

/// The error when the key is still not writable, with manual steps.
pub fn still_not_writable_message(subpath: &str) -> (r: String)
    ensures
        r@ == "放权后仍无法写入 "@ + subpath@ + "\n手动修复: regedit 定位 HKLM\\"@ + subpath@
            + " → 权限 → 高级 → 所有者改为 Administrators 并勾选完全控制"@,
{
    let mut s = String::from_str("放权后仍无法写入 ");
    s.append(subpath);
    s.append("\n手动修复: regedit 定位 HKLM\\");
    s.append(subpath);
    s.append(" → 权限 → 高级 → 所有者改为 Administrators 并勾选完全控制");
    s
}

/// Steps of making an HKLM key writable; each is one outside call (or a
/// group of releases) made by the caller.
#[derive(PartialEq, Eq, Structural, Clone, Copy, Debug)]
pub enum WritableStep {
    /// Try to open the key for writing.
    OpenForWrite,
    /// Enable `SeTakeOwnershipPrivilege`.
    EnableTakeOwnership,
    /// Allocate the SID of Administrators (S-1-5-32-544).
    AllocAdminsSid,
    /// Read the key's owner and DACL.
    ReadSecurity,
    /// Make Administrators the owner.
    TakeOwnership,
    /// Build a DACL with an Administrators full-control entry added.
    BuildDacl,
    /// Write the new DACL (then free it).
    WriteDacl,
    /// Free the security descriptor and the SID.
    Release,
    /// Open the key for writing again, to confirm.
    ReopenForWrite,
    /// Nothing left to do; the outcome is known.
    Finished,
}

/// What the caller saw when it performed a step.
#[derive(Debug)]
pub enum WritableEvent {
    /// Whether the key opened for writing (`OpenForWrite`, `ReopenForWrite`).
    Opened(bool),
    /// The result of enabling the privilege.
    Privilege(Result<(), String>),
    /// Whether the SID was allocated.
    SidAllocated(bool),
    /// Status of reading the security info (0: success), and whether the
    /// owner is set and differs from Administrators.
    SecurityRead { status: u32, owner_differs: bool },
    /// Status of `TakeOwnership`, `BuildDacl` or `WriteDacl` (0: success).
    Status(u32),
    /// The releases were done.
    Released,
}

/// The process of making one key writable.
#[derive(Debug)]
pub struct KeyWritability {
    /// The key, without the HKLM root.
    pub subpath: String,
    /// The next step.
    pub step: WritableStep,
    /// Whether the Administrators SID is allocated.
    pub holds_sid: bool,
    /// An error met after the SID was allocated; reported after `Release`.
    pub pending: Option<String>,
    /// The outcome, once `Finished`.
    pub outcome: Option<Result<(), String>>,
}

/// The security-API name of the key.
pub open spec fn full_path_text(subpath: Seq<char>) -> Seq<char> {
    "MACHINE\\"@ + subpath
}

/// `0x` and the uppercase hex of a status.
pub open spec fn status_hex(code: u32) -> Seq<char> {
    "0x"@ + hex_upper_digits(code as nat)
}

/// Whether an event answers a step.
pub open spec fn event_fits(step: WritableStep, ev: WritableEvent) -> bool {
    match step {
        WritableStep::OpenForWrite | WritableStep::ReopenForWrite => ev is Opened,
        WritableStep::EnableTakeOwnership => ev is Privilege,
        WritableStep::AllocAdminsSid => ev is SidAllocated,
        WritableStep::ReadSecurity => ev is SecurityRead,
        WritableStep::TakeOwnership | WritableStep::BuildDacl | WritableStep::WriteDacl => ev is Status,
        WritableStep::Release => ev is Released,
        WritableStep::Finished => false,
    }
}

/// Option of a `String` by its view.
pub open spec fn opt_view(o: Option<String>) -> Option<Seq<char>> {
    match o {
        Some(s) => Some(s@),
        None => None,
    }
}

/// Outcome of a `Result<(), String>` by its view.
pub open spec fn outcome_view(o: Option<Result<(), String>>) -> Option<Result<(), Seq<char>>> {
    match o {
        Some(Ok(())) => Some(Ok(())),
        Some(Err(e)) => Some(Err(e@)),
        None => None,
    }
}

/// The state after a step: next step, SID held, pending error, outcome.
pub open spec fn writable_transition(
    subpath: Seq<char>,
    step: WritableStep,
    pending: Option<Seq<char>>,
    ev: WritableEvent,
) -> (WritableStep, bool, Option<Seq<char>>, Option<Result<(), Seq<char>>>) {
    let full = full_path_text(subpath);
    match (step, ev) {
        (WritableStep::OpenForWrite, WritableEvent::Opened(ok)) => if ok {
            (WritableStep::Finished, false, None, Some(Ok(())))
        } else {
            (WritableStep::EnableTakeOwnership, false, None, None)
        },
        (WritableStep::EnableTakeOwnership, WritableEvent::Privilege(r)) => match r {
            Ok(()) => (WritableStep::AllocAdminsSid, false, None, None),
            Err(e) => (WritableStep::Finished, false, None, Some(Err("启用特权失败: "@ + e@))),
        },
        (WritableStep::AllocAdminsSid, WritableEvent::SidAllocated(ok)) => if ok {
            (WritableStep::ReadSecurity, true, None, None)
        } else {
            (WritableStep::Finished, false, None, Some(Err("AllocateAndInitializeSid 失败"@)))
        },
        (WritableStep::ReadSecurity, WritableEvent::SecurityRead { status, owner_differs }) => if status
            != 0 {
            (
                WritableStep::Release,
                true,
                Some("GetNamedSecurityInfo("@ + full + ") 失败: "@ + status_hex(status)),
                None,
            )
        } else if owner_differs {
            (WritableStep::TakeOwnership, true, None, None)
        } else {
            (WritableStep::BuildDacl, true, None, None)
        },
        (WritableStep::TakeOwnership, WritableEvent::Status(r)) => if r != 0 {
            (WritableStep::Release, true, Some("接管属主失败("@ + full + "): "@ + status_hex(r)), None)
        } else {
            (WritableStep::BuildDacl, true, None, None)
        },
        (WritableStep::BuildDacl, WritableEvent::Status(r)) => if r != 0 {
            (WritableStep::Release, true, Some("SetEntriesInAcl 失败: "@ + status_hex(r)), None)
        } else {
            (WritableStep::WriteDacl, true, None, None)
        },
        (WritableStep::WriteDacl, WritableEvent::Status(r)) => if r != 0 {
            (WritableStep::Release, true, Some("写入新 DACL 失败("@ + full + "): "@ + status_hex(r)), None)
        } else {
            (WritableStep::Release, true, None, None)
        },
        (WritableStep::Release, WritableEvent::Released) => match pending {
            Some(e) => (WritableStep::Finished, false, None, Some(Err(e))),
            None => (WritableStep::ReopenForWrite, false, None, None),
        },
        (WritableStep::ReopenForWrite, WritableEvent::Opened(ok)) => if ok {
            (WritableStep::Finished, false, None, Some(Ok(())))
        } else {
            (
                WritableStep::Finished,
                false,
                None,
                Some(
                    Err(
                        "放权后仍无法写入 "@ + subpath + "\n手动修复: regedit 定位 HKLM\\"@ + subpath
                            + " → 权限 → 高级 → 所有者改为 Administrators 并勾选完全控制"@,
                    ),
                ),
            )
        },
        _ => (step, false, pending, None),
    }
}

/// A status message: `prefix`, `0x` and the uppercase hex of `code`.
fn status_message(prefix: String, code: u32) -> (r: String)
    ensures
        r@ == prefix@ + status_hex(code),
{
    let mut s = prefix;
    s.append("0x");
    push_hex_upper(&mut s, code);
    s
}

impl KeyWritability {
    /// The state's invariant: the SID is held exactly between its
    /// allocation and its release, an error waits only for the release,
    /// and only a finished process has an outcome.
    pub open spec fn wf(&self) -> bool {
        &&& self.holds_sid <==> (self.step == WritableStep::ReadSecurity || self.step
            == WritableStep::TakeOwnership || self.step == WritableStep::BuildDacl || self.step
            == WritableStep::WriteDacl || self.step == WritableStep::Release)
        &&& self.pending is Some ==> self.step == WritableStep::Release
        &&& (self.outcome is Some <==> self.step == WritableStep::Finished)
    }

    /// Starts the process for `subpath` (an HKLM subkey).
    pub fn new(subpath: String) -> (r: KeyWritability)
        ensures
            r.wf(),
            r.subpath == subpath,
            r.step == WritableStep::OpenForWrite,
    {
        KeyWritability {
            subpath,
            step: WritableStep::OpenForWrite,
            holds_sid: false,
            pending: None,
            outcome: None,
        }
    }

    /// Takes what the caller saw for the current step and moves to the
    /// next one.
    pub fn advance(&mut self, ev: WritableEvent)
        requires
            old(self).wf(),
            event_fits(old(self).step, ev),
        ensures
            final(self).wf(),
            final(self).subpath == old(self).subpath,
            ({
                let t = writable_transition(
                    old(self).subpath@,
                    old(self).step,
                    opt_view(old(self).pending),
                    ev,
                );
                &&& final(self).step == t.0
                &&& final(self).holds_sid == t.1
                &&& opt_view(final(self).pending) == t.2
                &&& outcome_view(final(self).outcome) == t.3
            }),
    {
        let full = security_object_path(self.subpath.as_str());
        match (self.step, ev) {
            (WritableStep::OpenForWrite, WritableEvent::Opened(ok)) => {
                if ok {
                    self.step = WritableStep::Finished;
                    self.outcome = Some(Ok(()));
                } else {
                    self.step = WritableStep::EnableTakeOwnership;
                }
            },
            (WritableStep::EnableTakeOwnership, WritableEvent::Privilege(r)) => {
                match r {
                    Ok(()) => {
                        self.step = WritableStep::AllocAdminsSid;
                    },
                    Err(e) => {
                        let mut m = String::from_str("启用特权失败: ");
                        m.append(e.as_str());
                        self.step = WritableStep::Finished;
                        self.outcome = Some(Err(m));
                    },
                }
            },
            (WritableStep::AllocAdminsSid, WritableEvent::SidAllocated(ok)) => {
                if ok {
                    self.step = WritableStep::ReadSecurity;
                    self.holds_sid = true;
                } else {
                    self.step = WritableStep::Finished;
                    self.outcome = Some(Err(String::from_str("AllocateAndInitializeSid 失败")));
                }
            },
            (WritableStep::ReadSecurity, WritableEvent::SecurityRead { status, owner_differs }) => {
                if status != 0 {
                    let mut m = String::from_str("GetNamedSecurityInfo(");
                    m.append(full.as_str());
                    m.append(") 失败: ");
                    self.pending = Some(status_message(m, status));
                    self.step = WritableStep::Release;
                } else if owner_differs {
                    self.step = WritableStep::TakeOwnership;
                } else {
                    self.step = WritableStep::BuildDacl;
                }
            },
            (WritableStep::TakeOwnership, WritableEvent::Status(r)) => {
                if r != 0 {
                    let mut m = String::from_str("接管属主失败(");
                    m.append(full.as_str());
                    m.append("): ");
                    self.pending = Some(status_message(m, r));
                    self.step = WritableStep::Release;
                } else {
                    self.step = WritableStep::BuildDacl;
                }
            },
            (WritableStep::BuildDacl, WritableEvent::Status(r)) => {
                if r != 0 {
                    self.pending = Some(status_message(String::from_str("SetEntriesInAcl 失败: "), r));
                    self.step = WritableStep::Release;
                } else {
                    self.step = WritableStep::WriteDacl;
                }
            },
            (WritableStep::WriteDacl, WritableEvent::Status(r)) => {
                if r != 0 {
                    let mut m = String::from_str("写入新 DACL 失败(");
                    m.append(full.as_str());
                    m.append("): ");
                    self.pending = Some(status_message(m, r));
                }
                self.step = WritableStep::Release;
            },
            (WritableStep::Release, WritableEvent::Released) => {
                self.holds_sid = false;
                match self.pending.take() {
                    Some(e) => {
                        self.step = WritableStep::Finished;
                        self.outcome = Some(Err(e));
                    },
                    None => {
                        self.step = WritableStep::ReopenForWrite;
                    },
                }
            },
            (WritableStep::ReopenForWrite, WritableEvent::Opened(ok)) => {
                self.step = WritableStep::Finished;
                if ok {
                    self.outcome = Some(Ok(()));
                } else {
                    self.outcome = Some(Err(still_not_writable_message(self.subpath.as_str())));
                }
            },
            _ => {},
        }
    }
}

/// Every finished process has released the SID; an error met while it
/// was held is reported only after the release.
pub proof fn lemma_finished_holds_nothing(k: &KeyWritability)
    requires
        k.wf(),
        k.step == WritableStep::Finished,
    ensures
        !k.holds_sid,
        k.pending is None,
        k.outcome is Some,
{
}

/// `SE_FILE_OBJECT`: a security object that is a file.
pub const SE_FILE_OBJECT: u32 = 1;

/// `SE_REGISTRY_KEY`: a security object that is a registry key.
pub const SE_REGISTRY_KEY: u32 = 2;

/// `OWNER_SECURITY_INFORMATION`
pub const OWNER_SECURITY_INFORMATION: u32 = 1;

/// `DACL_SECURITY_INFORMATION`
pub const DACL_SECURITY_INFORMATION: u32 = 4;

/// `NO_MULTIPLE_TRUSTEE`
pub const NO_MULTIPLE_TRUSTEE: u32 = 0;

/// `TRUSTEE_IS_SID`: the trustee is given by its SID.
pub const TRUSTEE_IS_SID: u32 = 0;

/// `TRUSTEE_IS_NAME`: the trustee is given by its name.
pub const TRUSTEE_IS_NAME: u32 = 1;

/// `TRUSTEE_IS_GROUP`
pub const TRUSTEE_IS_GROUP: u32 = 2;

/// `TRUSTEE_IS_WELL_KNOWN_GROUP`
pub const TRUSTEE_IS_WELL_KNOWN_GROUP: u32 = 5;

/// `SET_ACCESS`: the entry replaces the trustee's access.
pub const SET_ACCESS: u32 = 2;

/// `KEY_ALL_ACCESS`: full control of a registry key.
pub const KEY_ALL_ACCESS: u32 = 0x000F_003F;

/// `NO_INHERITANCE`
pub const NO_INHERITANCE: u32 = 0;

/// `SECURITY_BUILTIN_DOMAIN_RID`
pub const SECURITY_BUILTIN_DOMAIN_RID: u32 = 32;

/// `DOMAIN_ALIAS_RID_ADMINS`
pub const DOMAIN_ALIAS_RID_ADMINS: u32 = 544;

/// A SID as `AllocateAndInitializeSid` builds it: the identifier
/// authority, the number of sub-authorities and the first two of them
/// (the others are 0).
#[derive(PartialEq, Eq, Clone, Copy, Debug)]
pub struct SidSpec {
    /// The identifier authority, six bytes, most significant first.
    pub authority: [u8; 6],
    /// Number of sub-authorities used.
    pub sub_count: u8,
    /// First sub-authority.
    pub rid0: u32,
    /// Second sub-authority.
    pub rid1: u32,
}

/// An explicit access entry as `SetEntriesInAclW` takes it; the trustee
/// itself (a SID or a name, by `trustee_form`) is supplied beside it.
#[derive(PartialEq, Eq, Structural, Clone, Copy, Debug)]
pub struct AccessEntry {
    /// `TRUSTEE.MultipleTrusteeOperation`
    pub multiple_trustee_operation: u32,
    /// `TRUSTEE.TrusteeForm`
    pub trustee_form: u32,
    /// `TRUSTEE.TrusteeType`
    pub trustee_type: u32,
    /// `grfAccessPermissions`
    pub access_permissions: u32,
    /// `grfAccessMode`
    pub access_mode: u32,
    /// `grfInheritance`
    pub inheritance: u32,
}

/// The object type and the kind of information of a call to
/// `GetNamedSecurityInfoW` or `SetNamedSecurityInfoW`.
#[derive(PartialEq, Eq, Structural, Clone, Copy, Debug)]
pub struct SecurityCall {
    /// `SE_OBJECT_TYPE`
    pub object_type: u32,
    /// `SECURITY_INFORMATION` flags.
    pub info: u32,
}

/// The SID of the Administrators group, S-1-5-32-544: NT authority, two
/// sub-authorities, the built-in domain and the administrators alias.
pub fn admins_sid() -> (r: SidSpec)
    ensures
        r.authority@ == seq![0u8, 0u8, 0u8, 0u8, 0u8, 5u8],
        r.sub_count == 2,
        r.rid0 == SECURITY_BUILTIN_DOMAIN_RID,
        r.rid1 == DOMAIN_ALIAS_RID_ADMINS,
{
    let authority: [u8; 6] = [0, 0, 0, 0, 0, 5];
    let r = SidSpec {
        authority,
        sub_count: 2,
        rid0: SECURITY_BUILTIN_DOMAIN_RID,
        rid1: DOMAIN_ALIAS_RID_ADMINS,
    };
    assert(r.authority@ =~= seq![0u8, 0u8, 0u8, 0u8, 0u8, 5u8]);
    r
}

/// The entry added to a key's DACL: the Administrators group, by SID, gets
/// full control of the key (replacing what it had), not inherited.
pub fn admins_full_control() -> (r: AccessEntry)
    ensures
        r == (AccessEntry {
            multiple_trustee_operation: NO_MULTIPLE_TRUSTEE,
            trustee_form: TRUSTEE_IS_SID,
            trustee_type: TRUSTEE_IS_GROUP,
            access_permissions: KEY_ALL_ACCESS,
            access_mode: SET_ACCESS,
            inheritance: NO_INHERITANCE,
        }),
{
    AccessEntry {
        multiple_trustee_operation: NO_MULTIPLE_TRUSTEE,
        trustee_form: TRUSTEE_IS_SID,
        trustee_type: TRUSTEE_IS_GROUP,
        access_permissions: KEY_ALL_ACCESS,
        access_mode: SET_ACCESS,
        inheritance: NO_INHERITANCE,
    }
}

/// The security call that a step of making a key writable makes: the
/// owner and DACL are read, then the owner is written, then the DACL.
pub open spec fn key_security_of(step: WritableStep) -> Option<SecurityCall> {
    match step {
        WritableStep::ReadSecurity => Some(
            SecurityCall {
                object_type: SE_REGISTRY_KEY,
                info: (OWNER_SECURITY_INFORMATION + DACL_SECURITY_INFORMATION) as u32,
            },
        ),
        WritableStep::TakeOwnership => Some(
            SecurityCall { object_type: SE_REGISTRY_KEY, info: OWNER_SECURITY_INFORMATION },
        ),
        WritableStep::WriteDacl => Some(
            SecurityCall { object_type: SE_REGISTRY_KEY, info: DACL_SECURITY_INFORMATION },
        ),
        _ => None,
    }
}

/// The security call of a step of making a key writable, if it makes one.
pub fn key_security_call(step: WritableStep) -> (r: Option<SecurityCall>)
    ensures
        r == key_security_of(step),
{
    match step {
        WritableStep::ReadSecurity => Some(
            SecurityCall {
                object_type: SE_REGISTRY_KEY,
                info: OWNER_SECURITY_INFORMATION + DACL_SECURITY_INFORMATION,
            },
        ),
        WritableStep::TakeOwnership => Some(
            SecurityCall { object_type: SE_REGISTRY_KEY, info: OWNER_SECURITY_INFORMATION },
        ),
        WritableStep::WriteDacl => Some(
            SecurityCall { object_type: SE_REGISTRY_KEY, info: DACL_SECURITY_INFORMATION },
        ),
        _ => None,
    }
}

} // verus!
