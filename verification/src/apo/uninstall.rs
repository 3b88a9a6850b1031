//! The sequence of `apo-uninstall`, as a state machine: switch the effect
//! off, find the endpoints to restore, restore each one from its backup,
//! then remove the COM class. The caller makes the registry and file
//! calls; this module decides which comes next and what the outcome is.
use vstd::prelude::*;
use crate::apo::install::{
    action_slot, backup_key, backup_key_text, clsid_key, clsid_key_text, endpoint_id_text,
    entry_view, fx_key, fx_key_text, mounted_of, restore_action, restored_slot, uninstall_summary,
    uninstall_summary_text, uninstall_targets, RestoreAction,
};
use crate::apo::sec::opt_view;
use crate::apo::toggle::{config_byte, config_byte_of};

verus! {

/// Where an uninstall stands; `index` is the position of the endpoint
/// being restored in the list of targets.
#[derive(PartialEq, Eq, Structural, Clone, Copy, Debug)]
pub enum UninstallStep {
    /// Switch the effect off first (what comes of it does not matter).
    SwitchOff,
    /// Read the effect slot of every render endpoint.
    ListMounted,
    /// Read the backed-up slot value of a target.
    ReadBackup { index: usize },
    /// Make the target's FxProperties key writable.
    EnsureWritable { index: usize },
    /// Open the target's FxProperties key for writing.
    OpenSlot { index: usize },
    /// Restore the slot in the opened key, then close it.
    Restore { index: usize },
    /// Delete the target's backup key tree.
    DeleteBackup { index: usize },
    /// Delete the COM class key tree.
    DeleteClass,
    /// Nothing left to do; the outcome is known.
    Finished,
}

/// The call that the caller makes next, with what it needs.
#[derive(Debug)]
pub enum UninstallCall {
    /// Write `byte` to the config file; its result is ignored.
    SwitchOff { byte: u8 },
    /// Enumerate the render endpoints and read each one's effect slot.
    ListMounted,
    /// Open `key` for reading and read its slot value.
    ReadBackup { key: String },
    /// Make the HKLM key `key` writable.
    EnsureWritable { key: String },
    /// Open `key` for writing.
    OpenSlot { key: String },
    /// Apply `action` to the slot of the key just opened, then close it.
    Restore { action: RestoreAction },
    /// Delete the key tree `key`; its result is ignored.
    DeleteBackup { key: String },
    /// Delete the key tree `key`; its result is ignored.
    DeleteClass { key: String },
    /// Nothing left to do.
    Done,
}

/// What the caller saw when it made a call.
#[derive(Debug)]
pub enum UninstallEvent {
    /// The config was written, or not.
    SwitchedOff,
    /// Each endpoint subkey and the value of its effect slot.
    Listed(Vec<(String, Option<String>)>),
    /// Whether the backup key opened, and the value read from it.
    Backup { found: bool, value: Option<String> },
    /// The result of making the key writable.
    Writable(Result<(), String>),
    /// Whether the key opened for writing.
    SlotOpened(bool),
    /// The slot was restored and the key closed.
    Restored,
    /// The backup tree was deleted, or not.
    BackupDeleted,
    /// The class tree was deleted, or not.
    ClassDeleted,
}

/// One run of `apo-uninstall`.
pub struct Uninstall {
    /// `--device`: the one endpoint to restore.
    pub device: Option<String>,
    /// The endpoints to restore (without braces), once known.
    pub targets: Vec<String>,
    /// The next call.
    pub step: UninstallStep,
    /// The backed-up slot value of the target being restored.
    pub backup: Option<String>,
    /// The outcome, once `Finished`: the summary, or the error that
    /// stopped the run.
    pub outcome: Option<Result<String, String>>,
    /// The steps done so far, in order.
    pub done: Ghost<Seq<UninstallStep>>,
}

/// The texts of a list of strings.
pub open spec fn names(v: Seq<String>) -> Seq<Seq<char>> {
    v.map_values(|g: String| g@)
}

/// The target position that a step works on, if any.
pub open spec fn step_index(step: UninstallStep) -> Option<int> {
    match step {
        UninstallStep::ReadBackup { index } => Some(index as int),
        UninstallStep::EnsureWritable { index } => Some(index as int),
        UninstallStep::OpenSlot { index } => Some(index as int),
        UninstallStep::Restore { index } => Some(index as int),
        UninstallStep::DeleteBackup { index } => Some(index as int),
        _ => None,
    }
}

/// The step that starts on the targets: the first one, or the class
/// removal when there is none.
pub open spec fn first_target(n: int) -> UninstallStep {
    if n > 0 {
        UninstallStep::ReadBackup { index: 0 }
    } else {
        UninstallStep::DeleteClass
    }
}

/// The step after target `i` of `n`: the next target, or the class
/// removal after the last.
pub open spec fn after_target(i: int, n: int) -> UninstallStep {
    if i + 1 < n {
        UninstallStep::ReadBackup { index: (i + 1) as usize }
    } else {
        UninstallStep::DeleteClass
    }
}

/// Whether an event answers a step.
pub open spec fn uninstall_event_fits(step: UninstallStep, ev: UninstallEvent) -> bool {
    match step {
        UninstallStep::SwitchOff => ev is SwitchedOff,
        UninstallStep::ListMounted => ev is Listed,
        UninstallStep::ReadBackup { .. } => ev is Backup,
        UninstallStep::EnsureWritable { .. } => ev is Writable,
        UninstallStep::OpenSlot { .. } => ev is SlotOpened,
        UninstallStep::Restore { .. } => ev is Restored,
        UninstallStep::DeleteBackup { .. } => ev is BackupDeleted,
        UninstallStep::DeleteClass => ev is ClassDeleted,
        UninstallStep::Finished => false,
    }
}

/// Outcome of a `Result<String, String>` by its view.
pub open spec fn result_view(o: Option<Result<String, String>>) -> Option<Result<Seq<char>, Seq<char>>> {
    match o {
        Some(Ok(m)) => Some(Ok(m@)),
        Some(Err(e)) => Some(Err(e@)),
        None => None,
    }
}

impl Uninstall {
    /// The steps done so far, in order.
    pub closed spec fn history(&self) -> Seq<UninstallStep> {
        self.done@
    }

    /// The invariant: the targets are known once the listing is behind,
    /// every step works on a known target, only a finished run has an
    /// outcome, and the class key is deleted exactly in the runs that
    /// succeed.
    pub open spec fn wf(&self) -> bool {
        &&& (self.step is SwitchOff || self.step is ListMounted) ==> self.targets@.len() == 0
        &&& self.step is ListMounted ==> self.device is None
        &&& (step_index(self.step) matches Some(i) ==> 0 <= i < self.targets@.len())
        &&& (self.outcome is Some <==> self.step == UninstallStep::Finished)
        &&& self.step != UninstallStep::Finished ==> !self.history().contains(UninstallStep::DeleteClass)
        &&& self.step == UninstallStep::Finished ==> (self.history().contains(UninstallStep::DeleteClass)
            <==> self.outcome matches Some(Ok(_)))
    }

    /// Starts an uninstall of `device`, or of every endpoint with
    /// KuGouAPO mounted.
    pub fn new(device: Option<String>) -> (r: Uninstall)
        ensures
            r.wf(),
            r.device == device,
            r.step == UninstallStep::SwitchOff,
            r.history().len() == 0,
    {
        Uninstall {
            device,
            targets: Vec::new(),
            step: UninstallStep::SwitchOff,
            backup: None,
            outcome: None,
            done: Ghost(Seq::empty()),
        }
    }

    /// The call to make for the current step.
    pub fn next_call(&self) -> (r: UninstallCall)
        requires
            self.wf(),
        ensures
            self.step == UninstallStep::SwitchOff ==> (r matches UninstallCall::SwitchOff { byte }
                && byte == config_byte_of(false)),
            self.step == UninstallStep::ListMounted ==> r is ListMounted,
            self.step matches UninstallStep::ReadBackup { index } ==> (r matches UninstallCall::ReadBackup {
                key,
            } && key@ == backup_key_text(names(self.targets@)[index as int])),
            self.step matches UninstallStep::EnsureWritable { index } ==> (
            r matches UninstallCall::EnsureWritable { key } && key@ == fx_key_text(
                names(self.targets@)[index as int],
            )),
            self.step matches UninstallStep::OpenSlot { index } ==> (r matches UninstallCall::OpenSlot {
                key,
            } && key@ == fx_key_text(names(self.targets@)[index as int])),
            self.step is Restore ==> (r matches UninstallCall::Restore { action } && action_slot(action)
                == restored_slot(opt_view(self.backup))),
            self.step matches UninstallStep::DeleteBackup { index } ==> (
            r matches UninstallCall::DeleteBackup { key } && key@ == backup_key_text(
                names(self.targets@)[index as int],
            )),
            self.step == UninstallStep::DeleteClass ==> (r matches UninstallCall::DeleteClass { key }
                && key@ == clsid_key_text()),
            self.step == UninstallStep::Finished ==> r is Done,
    {
        match self.step {
            UninstallStep::SwitchOff => UninstallCall::SwitchOff { byte: config_byte(false) },
            UninstallStep::ListMounted => UninstallCall::ListMounted,
            UninstallStep::ReadBackup { index } => UninstallCall::ReadBackup {
                key: backup_key(self.targets[index].as_str()),
            },
            UninstallStep::EnsureWritable { index } => UninstallCall::EnsureWritable {
                key: fx_key(self.targets[index].as_str()),
            },
            UninstallStep::OpenSlot { index } => UninstallCall::OpenSlot {
                key: fx_key(self.targets[index].as_str()),
            },
            UninstallStep::Restore { .. } => UninstallCall::Restore { action: restore_action(&self.backup) },
            UninstallStep::DeleteBackup { index } => UninstallCall::DeleteBackup {
                key: backup_key(self.targets[index].as_str()),
            },
            UninstallStep::DeleteClass => UninstallCall::DeleteClass { key: clsid_key() },
            UninstallStep::Finished => UninstallCall::Done,
        }
    }

    /// Takes what the caller saw for the current call and moves on.
    pub fn advance(&mut self, ev: UninstallEvent)
        requires
            old(self).wf(),
            uninstall_event_fits(old(self).step, ev),
        ensures
            final(self).wf(),
            final(self).device == old(self).device,
            final(self).history() == old(self).history().push(old(self).step),
            old(self).step == UninstallStep::SwitchOff ==> (match old(self).device {
                Some(d) => names(final(self).targets@) == seq![endpoint_id_text(d@)]
                    && final(self).step == (UninstallStep::ReadBackup { index: 0 }),
                None => final(self).targets@.len() == 0 && final(self).step
                    == UninstallStep::ListMounted,
            }),
            old(self).step == UninstallStep::ListMounted ==> (ev matches UninstallEvent::Listed(entries)
                && names(final(self).targets@) == mounted_of(entries@.map_values(|e| entry_view(e)))
                && final(self).step == first_target(final(self).targets@.len() as int)),
            old(self).step matches UninstallStep::ReadBackup { index } ==> (
            ev matches UninstallEvent::Backup { found, value } && final(self).targets@ == old(
                self,
            ).targets@ && (if found {
                final(self).step == (UninstallStep::EnsureWritable { index }) && opt_view(
                    final(self).backup,
                ) == opt_view(value)
            } else {
                final(self).step == after_target(index as int, old(self).targets@.len() as int)
            })),
            old(self).step matches UninstallStep::EnsureWritable { index } ==> (
            ev matches UninstallEvent::Writable(res) && final(self).targets@ == old(self).targets@
                && final(self).backup == old(self).backup && (res is Ok ==> final(self).step == (
            UninstallStep::OpenSlot { index })) && (res matches Err(e) ==> final(self).step
                == UninstallStep::Finished && result_view(final(self).outcome) == Some(
                Err::<Seq<char>, Seq<char>>(e@),
            ))),
            old(self).step matches UninstallStep::OpenSlot { index } ==> (
            ev matches UninstallEvent::SlotOpened(ok) && final(self).targets@ == old(self).targets@
                && final(self).backup == old(self).backup && final(self).step == (if ok {
                UninstallStep::Restore { index }
            } else {
                UninstallStep::DeleteBackup { index }
            })),
            old(self).step matches UninstallStep::Restore { index } ==> final(self).targets@ == old(
                self,
            ).targets@ && final(self).step == (UninstallStep::DeleteBackup { index }),
            old(self).step matches UninstallStep::DeleteBackup { index } ==> final(self).targets@
                == old(self).targets@ && final(self).step == after_target(
                index as int,
                old(self).targets@.len() as int,
            ),
            old(self).step == UninstallStep::DeleteClass ==> final(self).targets@ == old(
                self,
            ).targets@ && final(self).step == UninstallStep::Finished && result_view(
                final(self).outcome,
            ) == Some(Ok::<Seq<char>, Seq<char>>(uninstall_summary_text(names(old(self).targets@)))),
    {
        let ghost before = self.history();
        let ghost was = self.step;
        match (self.step, ev) {
            (UninstallStep::SwitchOff, UninstallEvent::SwitchedOff) => {
                if self.device.is_some() {
                    let none: Vec<(String, Option<String>)> = Vec::new();
                    self.targets = uninstall_targets(&self.device, &none);
                    assert(names(self.targets@).len() == self.targets@.len());
                    self.step = UninstallStep::ReadBackup { index: 0 };
                } else {
                    self.step = UninstallStep::ListMounted;
                }
            },
            (UninstallStep::ListMounted, UninstallEvent::Listed(entries)) => {
                self.targets = uninstall_targets(&self.device, &entries);
                if self.targets.len() > 0 {
                    self.step = UninstallStep::ReadBackup { index: 0 };
                } else {
                    self.step = UninstallStep::DeleteClass;
                }
            },
            (UninstallStep::ReadBackup { index }, UninstallEvent::Backup { found, value }) => {
                if found {
                    self.backup = value;
                    self.step = UninstallStep::EnsureWritable { index };
                } else {
                    self.step = self.after(index);
                }
            },
            (UninstallStep::EnsureWritable { index }, UninstallEvent::Writable(res)) => {
                match res {
                    Ok(()) => {
                        self.step = UninstallStep::OpenSlot { index };
                    },
                    Err(e) => {
                        self.step = UninstallStep::Finished;
                        self.outcome = Some(Err(e));
                    },
                }
            },
            (UninstallStep::OpenSlot { index }, UninstallEvent::SlotOpened(ok)) => {
                if ok {
                    self.step = UninstallStep::Restore { index };
                } else {
                    self.step = UninstallStep::DeleteBackup { index };
                }
            },
            (UninstallStep::Restore { index }, UninstallEvent::Restored) => {
                self.step = UninstallStep::DeleteBackup { index };
            },
            (UninstallStep::DeleteBackup { index }, UninstallEvent::BackupDeleted) => {
                self.step = self.after(index);
            },
            (UninstallStep::DeleteClass, UninstallEvent::ClassDeleted) => {
                let summary = uninstall_summary(&self.targets);
                self.step = UninstallStep::Finished;
                self.outcome = Some(Ok(summary));
            },
            _ => {},
        }
        proof {
            let now = before.push(was);
            assert forall|k: int| 0 <= k < before.len() implies now[k] == before[k] by {}
            if now.contains(UninstallStep::DeleteClass) {
                let k = choose|k: int| 0 <= k < now.len() && now[k] == UninstallStep::DeleteClass;
                if k < before.len() {
                    assert(before.contains(UninstallStep::DeleteClass));
                }
            }
            if was == UninstallStep::DeleteClass {
                assert(now[before.len() as int] == UninstallStep::DeleteClass);
            }
            self.done = Ghost(now);
        }
    }

    /// The step after target `index`: the next target, or the class
    /// removal after the last.
    fn after(&self, index: usize) -> (r: UninstallStep)
        requires
            index < self.targets@.len(),
        ensures
            r == after_target(index as int, self.targets@.len() as int),
    {
        if index < self.targets.len() - 1 {
            UninstallStep::ReadBackup { index: index + 1 }
        } else {
            UninstallStep::DeleteClass
        }
    }

    /// The outcome of a finished run.
    pub fn into_outcome(self) -> (r: Result<String, String>)
        requires
            self.wf(),
            self.step == UninstallStep::Finished,
        ensures
            result_view(Some(r)) == result_view(self.outcome),
    {
        match self.outcome {
            Some(o) => o,
            None => Ok(String::new()),
        }
    }
}

/// A run that stops on an error keeps the COM class: the class key is
/// deleted in a finished run exactly when it succeeded.
pub proof fn lemma_class_removed_only_on_success(u: &Uninstall)
    requires
        u.wf(),
        u.step == UninstallStep::Finished,
    ensures
        u.history().contains(UninstallStep::DeleteClass) <==> u.outcome matches Some(Ok(_)),
        u.outcome matches Some(Err(_)) ==> !u.history().contains(UninstallStep::DeleteClass),
{
}

} // verus!
