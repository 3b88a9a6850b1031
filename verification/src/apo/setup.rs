//! The sequence of `apo-install`, as a state machine: deploy the files,
//! register the COM class, choose the endpoint, back its effect slot up and
//! mount KuGouAPO in it, then start switched off with the switch writable
//! by everyone. The first error stops the run. The caller makes the file,
//! registry and device calls; this module decides which comes next and
//! what the outcome is.
use vstd::prelude::*;
use crate::apo::install::{
    backup_key, backup_key_text, backup_text, backup_value, endpoint_id, endpoint_id_text,
    fx_key, fx_key_text, install_summary, install_summary_text, unbrace,
};
use crate::apo::sec::{opt_view, status_hex};
use crate::apo::toggle::{config_byte, config_byte_of};
use crate::apo::CLSID_KUGOU_APO;
use crate::text::{push_hex_upper, strip_end, strip_start, CharSet};

verus! {

/// Where an install stands.
#[derive(PartialEq, Eq, Structural, Clone, Copy, Debug)]
pub enum InstallStep {
    /// Find the APO files and copy them into place.
    Deploy,
    /// Register the COM class and its in-process server.
    RegisterClass,
    /// Find the default render device.
    DefaultDevice,
    /// Make the endpoint's FxProperties key writable.
    EnsureWritable,
    /// Read the endpoint's effect slot.
    ReadSlot,
    /// Write the backup of the slot's value.
    WriteBackup,
    /// Open the endpoint's FxProperties key for writing.
    OpenSlot,
    /// Write KuGouAPO into the slot of the opened key, then close it.
    WriteSlot,
    /// Write the switch: off.
    SwitchOff,
    /// Let everyone write the switch.
    GrantWrite,
    /// Nothing left to do; the outcome is known.
    Finished,
}

/// The call that the caller makes next, with what it needs.
#[derive(Debug)]
pub enum InstallCall {
    /// Find the APO files (in `from`, else next to the executable) and
    /// copy them into place.
    Deploy { from: Option<String> },
    /// Register the COM class.
    RegisterClass,
    /// Find the default render device's GUID.
    DefaultDevice,
    /// Make the HKLM key `key` writable.
    EnsureWritable { key: String },
    /// Open `key` for reading and read its effect slot.
    ReadSlot { key: String },
    /// Create the key `key` and write `value` into its slot value and
    /// `Version` = `1`.
    WriteBackup { key: String, value: String },
    /// Open `key` for writing.
    OpenSlot { key: String },
    /// Write `value` into the slot of the key just opened, then close it.
    WriteSlot { value: String },
    /// Write `byte` to the config file.
    SwitchOff { byte: u8 },
    /// Let everyone write the config file.
    GrantWrite,
    /// Nothing left to do.
    Done,
}

/// What the caller saw when it made a call.
#[derive(Debug)]
pub enum InstallEvent {
    /// The result of `Deploy`, `RegisterClass`, `EnsureWritable`,
    /// `SwitchOff` or `GrantWrite`.
    Completed(Result<(), String>),
    /// The default device's GUID, or why there is none.
    DefaultFound(Result<String, String>),
    /// The slot's value (if it has one), or the status of opening the key.
    SlotRead(Result<Option<String>, u32>),
    /// The status of creating the backup key.
    BackupWritten(Result<(), u32>),
    /// The status of opening the key for writing.
    SlotOpened(Result<(), u32>),
    /// Whether the slot was written.
    SlotWritten(bool),
}

/// One run of `apo-install`.
pub struct Install {
    /// `--from`: where the APO files are.
    pub from: Option<String>,
    /// `--device`: the endpoint to use.
    pub device: Option<String>,
    /// The endpoint (without braces), once chosen.
    pub endpoint: String,
    /// The slot's value before mounting, once read.
    pub original: Option<String>,
    /// The next call.
    pub step: InstallStep,
    /// The outcome, once `Finished`: the summary, or the first error.
    pub outcome: Option<Result<String, String>>,
    /// The steps done so far, in order.
    pub done: Ghost<Seq<InstallStep>>,
}

/// Whether an event answers a step.
pub open spec fn install_event_fits(step: InstallStep, ev: InstallEvent) -> bool {
    match step {
        InstallStep::Deploy | InstallStep::RegisterClass | InstallStep::EnsureWritable
        | InstallStep::SwitchOff | InstallStep::GrantWrite => ev is Completed,
        InstallStep::DefaultDevice => ev is DefaultFound,
        InstallStep::ReadSlot => ev is SlotRead,
        InstallStep::WriteBackup => ev is BackupWritten,
        InstallStep::OpenSlot => ev is SlotOpened,
        InstallStep::WriteSlot => ev is SlotWritten,
        InstallStep::Finished => false,
    }
}

/// Whether the endpoint is chosen at this step.
pub open spec fn endpoint_chosen(step: InstallStep) -> bool {
    !(step is Deploy || step is RegisterClass || step is DefaultDevice)
}

/// Whether the backup is written at this step (before the slot is opened
/// for mounting).
pub open spec fn backed_up_at(step: InstallStep) -> bool {
    step is OpenSlot || step is WriteSlot || step is SwitchOff || step is GrantWrite
}

/// Every write of the slot comes after a write of the backup.
pub open spec fn backup_before_mount(done: Seq<InstallStep>) -> bool {
    forall|i: int|
        0 <= i < done.len() && #[trigger] done[i] == InstallStep::WriteSlot ==> done.take(i).contains(
            InstallStep::WriteBackup,
        )
}

/// The error when the endpoint's key cannot be opened for reading.
pub open spec fn slot_read_error(fx: Seq<char>, code: u32) -> Seq<char> {
    "端点 FxProperties 打开失败("@ + fx + "): "@ + status_hex(code) + "\n该设备可能是虚拟设备，换 --device 试试"@
}

/// `prefix`, `0x` and the uppercase hex of `code`.
fn status_text(prefix: String, code: u32) -> (r: String)
    ensures
        r@ == prefix@ + status_hex(code),
{
    let mut s = prefix;
    s.append("0x");
    push_hex_upper(&mut s, code);
    s
}

/// Outcome of a `Result<String, String>` by its view.
pub open spec fn install_result_view(o: Option<Result<String, String>>) -> Option<
    Result<Seq<char>, Seq<char>>,
> {
    match o {
        Some(Ok(m)) => Some(Ok(m@)),
        Some(Err(e)) => Some(Err(e@)),
        None => None,
    }
}

impl Install {
    /// The steps done so far, in order.
    pub closed spec fn history(&self) -> Seq<InstallStep> {
        self.done@
    }

    /// The invariant: only a finished run has an outcome; a run that
    /// succeeded wrote the slot and the switch's access; every write of the
    /// slot followed a write of the backup.
    pub open spec fn wf(&self) -> bool {
        &&& (self.outcome is Some <==> self.step == InstallStep::Finished)
        &&& self.step is DefaultDevice ==> self.device is None
        &&& backed_up_at(self.step) ==> self.history().contains(InstallStep::WriteBackup)
        &&& (self.step is SwitchOff || self.step is GrantWrite) ==> self.history().contains(
            InstallStep::WriteSlot,
        )
        &&& backup_before_mount(self.history())
        &&& (self.step == InstallStep::Finished && self.outcome matches Some(Ok(_))) ==> (
        self.history().contains(InstallStep::WriteSlot) && self.history().contains(InstallStep::GrantWrite))
    }

    /// Starts an install from `from` on `device` (or the default device).
    pub fn new(from: Option<String>, device: Option<String>) -> (r: Install)
        ensures
            r.wf(),
            r.from == from,
            r.device == device,
            r.step == InstallStep::Deploy,
            r.history().len() == 0,
    {
        Install {
            from,
            device,
            endpoint: String::new(),
            original: None,
            step: InstallStep::Deploy,
            outcome: None,
            done: Ghost(Seq::empty()),
        }
    }

    /// The call to make for the current step.
    pub fn next_call(&self) -> (r: InstallCall)
        requires
            self.wf(),
        ensures
            self.step == InstallStep::Deploy ==> (r matches InstallCall::Deploy { from } && from
                == self.from),
            self.step == InstallStep::RegisterClass ==> r is RegisterClass,
            self.step == InstallStep::DefaultDevice ==> r is DefaultDevice,
            self.step == InstallStep::EnsureWritable ==> (r matches InstallCall::EnsureWritable {
                key,
            } && key@ == fx_key_text(self.endpoint@)),
            self.step == InstallStep::ReadSlot ==> (r matches InstallCall::ReadSlot { key } && key@
                == fx_key_text(self.endpoint@)),
            self.step == InstallStep::WriteBackup ==> (r matches InstallCall::WriteBackup {
                key,
                value,
            } && key@ == backup_key_text(self.endpoint@) && value@ == backup_text(
                opt_view(self.original),
            )),
            self.step == InstallStep::OpenSlot ==> (r matches InstallCall::OpenSlot { key } && key@
                == fx_key_text(self.endpoint@)),
            self.step == InstallStep::WriteSlot ==> (r matches InstallCall::WriteSlot { value }
                && value@ == CLSID_KUGOU_APO@),
            self.step == InstallStep::SwitchOff ==> (r matches InstallCall::SwitchOff { byte }
                && byte == config_byte_of(false)),
            self.step == InstallStep::GrantWrite ==> r is GrantWrite,
            self.step == InstallStep::Finished ==> r is Done,
    {
        match self.step {
            InstallStep::Deploy => InstallCall::Deploy { from: self.from.clone() },
            InstallStep::RegisterClass => InstallCall::RegisterClass,
            InstallStep::DefaultDevice => InstallCall::DefaultDevice,
            InstallStep::EnsureWritable => InstallCall::EnsureWritable {
                key: fx_key(self.endpoint.as_str()),
            },
            InstallStep::ReadSlot => InstallCall::ReadSlot { key: fx_key(self.endpoint.as_str()) },
            InstallStep::WriteBackup => InstallCall::WriteBackup {
                key: backup_key(self.endpoint.as_str()),
                value: backup_value(&self.original),
            },
            InstallStep::OpenSlot => InstallCall::OpenSlot { key: fx_key(self.endpoint.as_str()) },
            InstallStep::WriteSlot => InstallCall::WriteSlot { value: String::from_str(CLSID_KUGOU_APO) },
            InstallStep::SwitchOff => InstallCall::SwitchOff { byte: config_byte(false) },
            InstallStep::GrantWrite => InstallCall::GrantWrite,
            InstallStep::Finished => InstallCall::Done,
        }
    }

    /// Takes what the caller saw for the current call and moves on; the
    /// first error ends the run with that error.
    pub fn advance(&mut self, ev: InstallEvent)
        requires
            old(self).wf(),
            install_event_fits(old(self).step, ev),
        ensures
            final(self).wf(),
            final(self).from == old(self).from,
            final(self).device == old(self).device,
            final(self).history() == old(self).history().push(old(self).step),
            !(old(self).step is RegisterClass || old(self).step is DefaultDevice) ==> final(self).endpoint@
                == old(self).endpoint@,
            !(old(self).step is ReadSlot) ==> opt_view(final(self).original) == opt_view(
                old(self).original,
            ),
            ev matches InstallEvent::Completed(Err(e)) ==> final(self).step == InstallStep::Finished
                && install_result_view(final(self).outcome) == Some(Err::<Seq<char>, Seq<char>>(e@)),
            ev matches InstallEvent::DefaultFound(Err(e)) ==> final(self).step
                == InstallStep::Finished && install_result_view(final(self).outcome) == Some(
                Err::<Seq<char>, Seq<char>>(e@),
            ),
            old(self).step == InstallStep::Deploy ==> (ev matches InstallEvent::Completed(Ok(_))
                ==> final(self).step == InstallStep::RegisterClass),
            old(self).step == InstallStep::RegisterClass ==> (ev matches InstallEvent::Completed(Ok(_))
                ==> (match old(self).device {
                Some(d) => final(self).endpoint@ == endpoint_id_text(d@) && final(self).step
                    == InstallStep::EnsureWritable,
                None => final(self).step == InstallStep::DefaultDevice,
            })),
            ev matches InstallEvent::DefaultFound(Ok(g)) ==> final(self).endpoint@ == strip_end(
                strip_start(g@, CharSet::OpenBrace),
                CharSet::CloseBrace,
            ) && final(self).step == InstallStep::EnsureWritable,
            old(self).step == InstallStep::EnsureWritable ==> (ev matches InstallEvent::Completed(Ok(_))
                ==> final(self).step == InstallStep::ReadSlot),
            ev matches InstallEvent::SlotRead(Ok(v)) ==> opt_view(final(self).original) == opt_view(v)
                && final(self).step == InstallStep::WriteBackup,
            ev matches InstallEvent::SlotRead(Err(code)) ==> final(self).step == InstallStep::Finished
                && install_result_view(final(self).outcome) == Some(
                Err::<Seq<char>, Seq<char>>(slot_read_error(fx_key_text(old(self).endpoint@), code)),
            ),
            ev matches InstallEvent::BackupWritten(r) ==> (r is Ok ==> final(self).step
                == InstallStep::OpenSlot) && (r matches Err(code) ==> final(self).step
                == InstallStep::Finished && install_result_view(final(self).outcome) == Some(
                Err::<Seq<char>, Seq<char>>("创建备份键失败: "@ + status_hex(code)),
            )),
            ev matches InstallEvent::SlotOpened(r) ==> (r is Ok ==> final(self).step
                == InstallStep::WriteSlot) && (r matches Err(code) ==> final(self).step
                == InstallStep::Finished && install_result_view(final(self).outcome) == Some(
                Err::<Seq<char>, Seq<char>>("端点 FxProperties 打开写失败: "@ + status_hex(code)),
            )),
            ev matches InstallEvent::SlotWritten(ok) ==> (ok ==> final(self).step
                == InstallStep::SwitchOff) && (!ok ==> final(self).step == InstallStep::Finished
                && install_result_view(final(self).outcome) == Some(
                Err::<Seq<char>, Seq<char>>("写入 FxProperties 失败"@),
            )),
            old(self).step == InstallStep::SwitchOff ==> (ev matches InstallEvent::Completed(Ok(_))
                ==> final(self).step == InstallStep::GrantWrite),
            old(self).step == InstallStep::GrantWrite ==> (ev matches InstallEvent::Completed(Ok(_))
                ==> final(self).step == InstallStep::Finished && install_result_view(
                final(self).outcome,
            ) == Some(Ok::<Seq<char>, Seq<char>>(install_summary_text(old(self).endpoint@)))),
    {
        let ghost before = self.history();
        let ghost was = self.step;
        match ev {
            InstallEvent::Completed(Err(e)) | InstallEvent::DefaultFound(Err(e)) => {
                self.fail(e);
            },
            InstallEvent::Completed(Ok(())) => {
                match self.step {
                    InstallStep::Deploy => {
                        self.step = InstallStep::RegisterClass;
                    },
                    InstallStep::RegisterClass => {
                        match &self.device {
                            Some(d) => {
                                self.endpoint = endpoint_id(d.as_str());
                                self.step = InstallStep::EnsureWritable;
                            },
                            None => {
                                self.step = InstallStep::DefaultDevice;
                            },
                        }
                    },
                    InstallStep::EnsureWritable => {
                        self.step = InstallStep::ReadSlot;
                    },
                    InstallStep::SwitchOff => {
                        self.step = InstallStep::GrantWrite;
                    },
                    _ => {
                        let summary = install_summary(self.endpoint.as_str());
                        self.step = InstallStep::Finished;
                        self.outcome = Some(Ok(summary));
                    },
                }
            },
            InstallEvent::DefaultFound(Ok(g)) => {
                self.endpoint = unbrace(g.as_str());
                self.step = InstallStep::EnsureWritable;
            },
            InstallEvent::SlotRead(Ok(v)) => {
                self.original = v;
                self.step = InstallStep::WriteBackup;
            },
            InstallEvent::SlotRead(Err(code)) => {
                let mut m = String::from_str("端点 FxProperties 打开失败(");
                let fx = fx_key(self.endpoint.as_str());
                m.append(fx.as_str());
                m.append("): ");
                let mut t = status_text(m, code);
                t.append("\n该设备可能是虚拟设备，换 --device 试试");
                self.fail(t);
            },
            InstallEvent::BackupWritten(Ok(())) => {
                self.step = InstallStep::OpenSlot;
            },
            InstallEvent::BackupWritten(Err(code)) => {
                let t = status_text(String::from_str("创建备份键失败: "), code);
                self.fail(t);
            },
            InstallEvent::SlotOpened(Ok(())) => {
                self.step = InstallStep::WriteSlot;
            },
            InstallEvent::SlotOpened(Err(code)) => {
                let t = status_text(String::from_str("端点 FxProperties 打开写失败: "), code);
                self.fail(t);
            },
            InstallEvent::SlotWritten(ok) => {
                if ok {
                    self.step = InstallStep::SwitchOff;
                } else {
                    self.fail(String::from_str("写入 FxProperties 失败"));
                }
            },
        }
        proof {
            let now = before.push(was);
            lemma_record_step(before, was);
            self.done = Ghost(now);
        }
    }

    /// Ends the run with error `e`.
    fn fail(&mut self, e: String)
        ensures
            final(self).step == InstallStep::Finished,
            install_result_view(final(self).outcome) == Some(Err::<Seq<char>, Seq<char>>(e@)),
            final(self).from == old(self).from,
            final(self).device == old(self).device,
            final(self).endpoint == old(self).endpoint,
            final(self).original == old(self).original,
            final(self).history() == old(self).history(),
    {
        self.step = InstallStep::Finished;
        self.outcome = Some(Err(e));
    }

    /// The outcome of a finished run.
    pub fn into_outcome(self) -> (r: Result<String, String>)
        requires
            self.wf(),
            self.step == InstallStep::Finished,
        ensures
            install_result_view(Some(r)) == install_result_view(self.outcome),
    {
        match self.outcome {
            Some(o) => o,
            None => Ok(String::new()),
        }
    }
}

/// Recording a step keeps what was recorded and the order of backup and
/// mount.
proof fn lemma_record_step(before: Seq<InstallStep>, was: InstallStep)
    requires
        backup_before_mount(before),
        was == InstallStep::WriteSlot ==> before.contains(InstallStep::WriteBackup),
    ensures
        backup_before_mount(before.push(was)),
        before.push(was).contains(was),
        before.contains(InstallStep::WriteBackup) ==> before.push(was).contains(InstallStep::WriteBackup),
        before.contains(InstallStep::WriteSlot) ==> before.push(was).contains(InstallStep::WriteSlot),
        before.contains(InstallStep::GrantWrite) ==> before.push(was).contains(InstallStep::GrantWrite),
{
    let now = before.push(was);
    assert(now[before.len() as int] == was);
    lemma_push_contains(before, was, InstallStep::WriteBackup);
    lemma_push_contains(before, was, InstallStep::WriteSlot);
    lemma_push_contains(before, was, InstallStep::GrantWrite);
    assert forall|i: int| 0 <= i < now.len() && #[trigger] now[i] == InstallStep::WriteSlot implies now.take(
        i,
    ).contains(InstallStep::WriteBackup) by {
        if i < before.len() {
            assert(before[i] == now[i]);
            assert(now.take(i) =~= before.take(i));
        } else {
            assert(now.take(i) =~= before);
        }
    }
}

proof fn lemma_push_contains(before: Seq<InstallStep>, was: InstallStep, x: InstallStep)
    ensures
        before.contains(x) ==> before.push(was).contains(x),
{
    if before.contains(x) {
        let j = choose|j: int| 0 <= j < before.len() && before[j] == x;
        assert(before.push(was)[j] == x);
    }
}

/// The backup comes first: in every run, each write of KuGouAPO into the
/// endpoint's slot follows a write of the slot's backup; a run that
/// succeeded mounted KuGouAPO and opened the switch to everyone.
pub proof fn lemma_backup_before_mount(run: &Install)
    requires
        run.wf(),
    ensures
        forall|i: int|
            0 <= i < run.history().len() && #[trigger] run.history()[i] == InstallStep::WriteSlot
                ==> run.history().take(i).contains(InstallStep::WriteBackup),
        (run.step == InstallStep::Finished && run.outcome matches Some(Ok(_))) ==> run.history().contains(
            InstallStep::WriteSlot,
        ) && run.history().contains(InstallStep::GrantWrite),
{
}

} // verus!
