//! Changing the global hotkey and persisting the config together: the active
//! registration and the saved config never disagree after an update, because
//! a failure after the new hotkey was registered registers the old one again.
use vstd::prelude::*;
use crate::error::SpielError;
use crate::text::{owned, str_eq};

verus! {

/// Where an update is.
#[derive(Debug, Clone, Copy, PartialEq, Eq, Structural)]
pub enum HotkeyStep {
    /// The new hotkey is being registered.
    RegisteringNew,
    /// Registering the new hotkey failed; the old one is being registered again.
    RestoringAfterRegisterFailure,
    /// The config is being saved.
    Saving,
    /// Saving failed after a change; the old hotkey is being registered again.
    RestoringAfterSaveFailure,
    /// The update is over.
    Finished,
}

/// What the caller does next.
#[derive(Debug)]
pub enum HotkeyAction {
    /// Register this hotkey and report how that went.
    Register { hotkey: String },
    /// Save the config and report how that went.
    Save,
    /// The update is over, with this result.
    Finish { result: Result<(), SpielError> },
}

/// An update of the hotkey from `old_hotkey` to `new_hotkey`.
#[derive(Debug)]
pub struct HotkeyUpdate {
    pub old_hotkey: String,
    pub new_hotkey: String,
    pub changed: bool,
    pub step: HotkeyStep,
    /// The error that ends the update, once there is one.
    pub error: Option<SpielError>,
    /// The hotkey last asked to be registered (the old one before any request).
    pub requested: String,
    /// Whether the config was saved.
    pub saved: bool,
}

/// The state and action that start an update.
pub open spec fn hotkey_begin(old: Seq<char>, new: Seq<char>, u: HotkeyUpdate, a: HotkeyAction) -> bool {
    &&& u.old_hotkey@ == old
    &&& u.new_hotkey@ == new
    &&& u.changed == (new != old)
    &&& u.error is None
    &&& !u.saved
    &&& if new != old {
        &&& u.step == HotkeyStep::RegisteringNew
        &&& u.requested@ == new
        &&& a matches HotkeyAction::Register { hotkey } && hotkey@ == new
    } else {
        &&& u.step == HotkeyStep::Saving
        &&& u.requested@ == old
        &&& a is Save
    }
}

/// A state reached by the machine: the recorded facts agree with the step.
pub open spec fn hotkey_wf(u: HotkeyUpdate) -> bool {
    &&& u.changed == (u.new_hotkey@ != u.old_hotkey@)
    &&& match u.step {
        HotkeyStep::RegisteringNew => u.changed && u.requested@ == u.new_hotkey@ && !u.saved
            && u.error is None,
        HotkeyStep::RestoringAfterRegisterFailure => u.changed && u.requested@ == u.old_hotkey@
            && !u.saved && u.error is Some,
        HotkeyStep::Saving => u.requested@ == u.new_hotkey@ && !u.saved && u.error is None,
        HotkeyStep::RestoringAfterSaveFailure => u.changed && u.requested@ == u.old_hotkey@
            && !u.saved && u.error is Some,
        HotkeyStep::Finished => (u.saved ==> u.requested@ == u.new_hotkey@ && u.error is None) && (
        !u.saved ==> u.requested@ == u.old_hotkey@ && u.error is Some),
    }
}

/// One step: the state after `outcome` of the last action, and the next action.
pub open spec fn hotkey_next(
    u: HotkeyUpdate,
    outcome: Result<(), SpielError>,
    v: HotkeyUpdate,
    a: HotkeyAction,
) -> bool {
    &&& v.old_hotkey == u.old_hotkey
    &&& v.new_hotkey == u.new_hotkey
    &&& v.changed == u.changed
    &&& match u.step {
        HotkeyStep::RegisteringNew => match outcome {
            Ok(()) => v.step == HotkeyStep::Saving && v.requested == u.requested && v.error is None
                && !v.saved && a is Save,
            Err(e) => v.step == HotkeyStep::RestoringAfterRegisterFailure && v.requested@
                == u.old_hotkey@ && v.error == Some(e) && !v.saved && (a matches HotkeyAction::Register {
                hotkey,
            } && hotkey@ == u.old_hotkey@),
        },
        HotkeyStep::RestoringAfterRegisterFailure | HotkeyStep::RestoringAfterSaveFailure => v.step
            == HotkeyStep::Finished && v.requested == u.requested && v.error == u.error
            && v.saved == u.saved && (a matches HotkeyAction::Finish { result } && result matches Err(
            e,
        ) && u.error == Some(e)),
        HotkeyStep::Saving => match outcome {
            Ok(()) => v.step == HotkeyStep::Finished && v.requested == u.requested && v.error is None
                && v.saved && (a matches HotkeyAction::Finish { result } && result == outcome),
            Err(e) => if u.changed {
                v.step == HotkeyStep::RestoringAfterSaveFailure && v.requested@ == u.old_hotkey@
                    && v.error == Some(e) && !v.saved && (a matches HotkeyAction::Register { hotkey }
                    && hotkey@ == u.old_hotkey@)
            } else {
                v.step == HotkeyStep::Finished && v.requested == u.requested && v.error == Some(e)
                    && !v.saved && (a matches HotkeyAction::Finish { result } && result == Err::<
                    (),
                    SpielError,
                >(e))
            },
        },
        HotkeyStep::Finished => false,
    }
}

/// How many more actions at most an update in `step` issues.
pub open spec fn steps_left(step: HotkeyStep) -> nat {
    match step {
        HotkeyStep::RegisteringNew => 3,
        HotkeyStep::Saving => 2,
        HotkeyStep::RestoringAfterRegisterFailure => 1,
        HotkeyStep::RestoringAfterSaveFailure => 1,
        HotkeyStep::Finished => 0,
    }
}

fn copy_error(e: &SpielError) -> (r: SpielError)
    ensures
        r == *e,
{
    match e {
        SpielError::NoInputDevice => SpielError::NoInputDevice,
        SpielError::Audio(s) => SpielError::Audio(s.clone()),
        SpielError::ModelMissing => SpielError::ModelMissing,
        SpielError::Model(s) => SpielError::Model(s.clone()),
        SpielError::Transcription(s) => SpielError::Transcription(s.clone()),
        SpielError::Insertion(s) => SpielError::Insertion(s.clone()),
        SpielError::Download(s) => SpielError::Download(s.clone()),
        SpielError::Config(s) => SpielError::Config(s.clone()),
        SpielError::Other(s) => SpielError::Other(s.clone()),
    }
}

impl HotkeyUpdate {
    /// Start updating the hotkey from `old_hotkey` to `new_hotkey`: register the
    /// new one first when it differs, else save straight away.
    pub fn begin(old_hotkey: &str, new_hotkey: &str) -> (r: (HotkeyUpdate, HotkeyAction))
        ensures
            hotkey_begin(old_hotkey@, new_hotkey@, r.0, r.1),
            hotkey_wf(r.0),
    {
        let changed = !str_eq(new_hotkey, old_hotkey);
        if changed {
            (
                HotkeyUpdate {
                    old_hotkey: owned(old_hotkey),
                    new_hotkey: owned(new_hotkey),
                    changed,
                    step: HotkeyStep::RegisteringNew,
                    error: None,
                    requested: owned(new_hotkey),
                    saved: false,
                },
                HotkeyAction::Register { hotkey: owned(new_hotkey) },
            )
        } else {
            (
                HotkeyUpdate {
                    old_hotkey: owned(old_hotkey),
                    new_hotkey: owned(new_hotkey),
                    changed,
                    step: HotkeyStep::Saving,
                    error: None,
                    requested: owned(old_hotkey),
                    saved: false,
                },
                HotkeyAction::Save,
            )
        }
    }

    /// Take in how the last action went and decide the next one.
    pub fn advance(self, outcome: Result<(), SpielError>) -> (r: (HotkeyUpdate, HotkeyAction))
        requires
            self.step != HotkeyStep::Finished,
            hotkey_wf(self),
        ensures
            hotkey_next(self, outcome, r.0, r.1),
            hotkey_wf(r.0),
            steps_left(r.0.step) < steps_left(self.step),
    {
        let HotkeyUpdate { old_hotkey, new_hotkey, changed, step, error, requested, saved } = self;
        match step {
            HotkeyStep::RegisteringNew => match outcome {
                Ok(()) => (
                    HotkeyUpdate {
                        old_hotkey,
                        new_hotkey,
                        changed,
                        step: HotkeyStep::Saving,
                        error: None,
                        requested,
                        saved: false,
                    },
                    HotkeyAction::Save,
                ),
                Err(e) => {
                    let again = old_hotkey.clone();
                    let req = old_hotkey.clone();
                    (
                        HotkeyUpdate {
                            old_hotkey,
                            new_hotkey,
                            changed,
                            step: HotkeyStep::RestoringAfterRegisterFailure,
                            error: Some(e),
                            requested: req,
                            saved: false,
                        },
                        HotkeyAction::Register { hotkey: again },
                    )
                },
            },
            HotkeyStep::RestoringAfterRegisterFailure | HotkeyStep::RestoringAfterSaveFailure => {
                let e = match &error {
                    Some(e) => copy_error(e),
                    None => SpielError::NoInputDevice,
                };
                (
                    HotkeyUpdate {
                        old_hotkey,
                        new_hotkey,
                        changed,
                        step: HotkeyStep::Finished,
                        error,
                        requested,
                        saved,
                    },
                    HotkeyAction::Finish { result: Err(e) },
                )
            },
            HotkeyStep::Saving => {
                if outcome.is_ok() {
                    return (
                        HotkeyUpdate {
                            old_hotkey,
                            new_hotkey,
                            changed,
                            step: HotkeyStep::Finished,
                            error: None,
                            requested,
                            saved: true,
                        },
                        HotkeyAction::Finish { result: outcome },
                    );
                }
                let e = match outcome {
                    Err(e) => e,
                    Ok(()) => SpielError::NoInputDevice,
                };
                if changed {
                    let again = old_hotkey.clone();
                    let req = old_hotkey.clone();
                    (
                        HotkeyUpdate {
                            old_hotkey,
                            new_hotkey,
                            changed,
                            step: HotkeyStep::RestoringAfterSaveFailure,
                            error: Some(e),
                            requested: req,
                            saved: false,
                        },
                        HotkeyAction::Register { hotkey: again },
                    )
                } else {
                    let e2 = copy_error(&e);
                    (
                        HotkeyUpdate {
                            old_hotkey,
                            new_hotkey,
                            changed,
                            step: HotkeyStep::Finished,
                            error: Some(e),
                            requested,
                            saved: false,
                        },
                        HotkeyAction::Finish { result: Err(e2) },
                    )
                }
            },
            HotkeyStep::Finished => {
                (
                    HotkeyUpdate {
                        old_hotkey,
                        new_hotkey,
                        changed,
                        step,
                        error,
                        requested,
                        saved,
                    },
                    HotkeyAction::Finish { result: Ok(()) },
                )
            },
        }
    }
}

/// Once an update is over, the hotkey last asked to be registered is the new
/// one exactly when the update succeeded and the config was saved; after a
/// failure it is the old one again.
pub proof fn law_hotkey_consistent(u: HotkeyUpdate, outcome: Result<(), SpielError>, v: HotkeyUpdate, a: HotkeyAction)
    requires
        hotkey_wf(u),
        u.step != HotkeyStep::Finished,
        hotkey_next(u, outcome, v, a),
        a is Finish,
    ensures
        a matches HotkeyAction::Finish { result } && (result is Ok <==> v.saved),
        a matches HotkeyAction::Finish { result } && result is Ok ==> v.requested@ == v.new_hotkey@,
        a matches HotkeyAction::Finish { result } && result is Err ==> v.requested@ == v.old_hotkey@,
{
}

/// A successful update saved the config, and the config is only saved once
/// the new hotkey (when it changed) was registered.
pub proof fn law_success_after_save(u: HotkeyUpdate, outcome: Result<(), SpielError>, v: HotkeyUpdate, a: HotkeyAction)
    requires
        hotkey_wf(u),
        u.step != HotkeyStep::Finished,
        hotkey_next(u, outcome, v, a),
    ensures
        a matches HotkeyAction::Finish { result } && result is Ok ==> u.step == HotkeyStep::Saving
            && outcome is Ok,
        a is Save ==> (u.step == HotkeyStep::RegisteringNew && outcome is Ok),
{
}

/// What `apply_hotkey_and_persist` owes: with `reg` the registration and
/// `save` the saving, `r` is the result of an update from `old` to `new`, and
/// `unused` is the saving handed back when it was not run.
/// An unchanged hotkey is only saved. A changed one is registered first; if
/// that fails, the config is not saved, the old hotkey is registered again
/// and the error returned. Else the config is saved; if that fails, the old
/// hotkey is registered again and the saving error returned.
pub open spec fn hotkey_update_result<FRegister, FSave>(
    old: &str,
    new: &str,
    reg: FRegister,
    save: FSave,
    r: Result<(), SpielError>,
    unused: Option<FSave>,
) -> bool where
    FRegister: FnMut(&str) -> Result<(), SpielError>,
    FSave: FnOnce() -> Result<(), SpielError>,
 {
    if new@ == old@ {
        unused is None && save.ensures((), r)
    } else {
        match unused {
            Some(f) => {
                &&& f == save
                &&& r is Err
                &&& reg.ensures((new,), r)
                &&& exists|x: Result<(), SpielError>| #[trigger] reg.ensures((old,), x)
            },
            None => {
                &&& reg.ensures((new,), Ok::<(), SpielError>(()))
                &&& save.ensures((), r)
                &&& r is Err ==> exists|x: Result<(), SpielError>| #[trigger] reg.ensures((old,), x)
            },
        }
    }
}

/// Register the new hotkey (when it changed) and save the config; when either
/// fails after the new hotkey was registered or tried, register the old one again.
/// The error returned is the one that ended the update. The saving is handed
/// back when it was not run (after the new hotkey failed to register).
pub fn apply_hotkey_and_persist<FRegister, FSave>(
    old_hotkey: &str,
    new_hotkey: &str,
    register: FRegister,
    save: FSave,
) -> (r: (Result<(), SpielError>, Option<FSave>)) where
    FRegister: FnMut(&str) -> Result<(), SpielError>,
    FSave: FnOnce() -> Result<(), SpielError>,

    requires
        forall|h: &str| #[trigger] register.requires((h,)),
        save.requires(()),
    ensures
        hotkey_update_result(old_hotkey, new_hotkey, register, save, r.0, r.1),
{
    let ghost first = register;
    let mut reg = register;
    let mut save_once: Option<FSave> = Some(save);
    let ghost mut reg_new: Option<Result<(), SpielError>> = None;
    let ghost mut saved_out: Option<Result<(), SpielError>> = None;
    let ghost mut restored: bool = false;
    let (mut update, mut action) = HotkeyUpdate::begin(old_hotkey, new_hotkey);
    loop
        invariant
            hotkey_wf(update),
            update.old_hotkey@ == old_hotkey@,
            update.new_hotkey@ == new_hotkey@,
            forall|h: &str| #[trigger] reg.requires((h,)),
            reg == first,
            first == register,
            save_once is Some ==> save_once->0 == save,
            save_once is None <==> saved_out is Some,
            save.requires(()),
            update.step == HotkeyStep::Saving || update.step == HotkeyStep::RegisteringNew
                ==> save_once is Some,
            update.step == HotkeyStep::RegisteringNew ==> (action matches HotkeyAction::Register {
                hotkey,
            } && hotkey@ == new_hotkey@),
            update.step == HotkeyStep::Saving ==> action is Save,
            update.step == HotkeyStep::RestoringAfterRegisterFailure
                || update.step == HotkeyStep::RestoringAfterSaveFailure ==> action is Register,
            update.step == HotkeyStep::Finished ==> action is Finish,
            action is Finish ==> update.step == HotkeyStep::Finished,
            reg_new matches Some(x) ==> first.ensures((new_hotkey,), x),
            saved_out matches Some(x) ==> save.ensures((), x),
            restored ==> exists|x: Result<(), SpielError>| #[trigger] first.ensures((old_hotkey,), x),
            update.step == HotkeyStep::RegisteringNew ==> reg_new is None && saved_out is None,
            update.step == HotkeyStep::Saving ==> saved_out is None && (update.changed ==> reg_new
                == Some(Ok::<(), SpielError>(()))),
            update.step == HotkeyStep::RestoringAfterRegisterFailure ==> (update.error matches Some(e)
                && reg_new == Some(Err::<(), SpielError>(e)) && saved_out is None),
            update.step == HotkeyStep::RestoringAfterSaveFailure ==> (update.error matches Some(e)
                && reg_new == Some(Ok::<(), SpielError>(())) && saved_out == Some(Err::<(), SpielError>(e))),
            action matches HotkeyAction::Finish { result } ==> hotkey_update_result(
                old_hotkey,
                new_hotkey,
                first,
                save,
                result,
                save_once,
            ),
        decreases steps_left(update.step),
    {
        match action {
            HotkeyAction::Finish { result } => {
                return (result, save_once);
            },
            HotkeyAction::Register { hotkey: _ } => {
                let outcome = if update.step == HotkeyStep::RegisteringNew {
                    let o = reg(new_hotkey);
                    proof {
                        reg_new = Some(o);
                    }
                    o
                } else {
                    let o = reg(old_hotkey);
                    proof {
                        restored = true;
                    }
                    o
                };
                proof {
                    // The unit value in an `Ok` is `()`.
                    if outcome is Ok {
                        assert(outcome->Ok_0 == ());
                    }
                }
                let (u, a) = update.advance(outcome);
                update = u;
                action = a;
            },
            HotkeyAction::Save => {
                let f = match save_once.take() {
                    Some(f) => f,
                    None => {
                        return (Ok(()), None);
                    },
                };
                let outcome = f();
                proof {
                    saved_out = Some(outcome);
                }
                let (u, a) = update.advance(outcome);
                update = u;
                action = a;
            },
        }
    }
}

} // verus!
