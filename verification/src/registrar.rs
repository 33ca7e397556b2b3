//! Idempotent declaration of a class: it is registered only where the
//! ledger says that it does not hold it.

use vstd::prelude::*;
use crate::felt::Felt;
use crate::gateway::{class_not_found, ClassLookup, ProviderFailure};

verus! {

/// What a class query's answer says of the class: held, not held, or
/// nothing, where the query failed for another reason.
pub open spec fn declared_spec(lookup: ClassLookup) -> Result<bool, ProviderFailure> {
    match lookup {
        ClassLookup::Found => Ok(true),
        ClassLookup::Failed(why) => if why == class_not_found() {
            Ok(false)
        } else {
            Err(why)
        },
    }
}

/// Whether the ledger holds the class that was asked for. Only the failure
/// that names a missing class counts as "no"; any other is handed on.
pub fn is_already_declared(lookup: &ClassLookup) -> (r: Result<bool, ProviderFailure>)
    ensures
        r == declared_spec(*lookup),
{
    match lookup {
        ClassLookup::Found => Ok(true),
        ClassLookup::Failed(why) => if why.is_class_not_found() {
            Ok(false)
        } else {
            Err(*why)
        },
    }
}

/// Where one declaration stands.
#[derive(Clone, Copy, Debug, PartialEq, Eq, Structural)]
pub enum DeclarePhase {
    /// Nothing was asked of the ledger yet.
    Ready,
    /// The answer to the query for this class is awaited.
    Checking(Felt),
    /// The declaration of this class is awaited.
    Declaring(Felt),
    /// The ledger holds this class.
    Done(Felt),
    /// The declaration was given up.
    Aborted,
}

/// What the ledger, or the caller, reports to a declaration.
#[derive(Clone, Copy, Debug, PartialEq, Eq, Structural)]
pub enum DeclareEvent {
    /// The caller starts with the class identifier of its artifact.
    Begin(Felt),
    /// The ledger answered the query for the class.
    Looked(ClassLookup),
    /// The ledger took the declaration.
    Declared,
    /// The declaration failed.
    Failed(ProviderFailure),
}

/// What the caller does next for a declaration.
#[derive(Clone, Copy, Debug, PartialEq, Eq, Structural)]
pub enum DeclareAction {
    /// Ask the ledger for this class.
    GetClass(Felt),
    /// Submit the declaration of this class.
    SubmitDeclare(Felt),
    /// Nothing more: the ledger holds this class.
    Finish(Felt),
    /// Stop the run with this failure.
    Abort(ProviderFailure),
    /// The event does not belong here; nothing is done.
    Refuse,
}

/// The step that a declaration takes on an event.
pub open spec fn declare_step_spec(phase: DeclarePhase, event: DeclareEvent) -> (
    DeclarePhase,
    DeclareAction,
) {
    match (phase, event) {
        (DeclarePhase::Done(_), _) | (DeclarePhase::Aborted, _) => (phase, DeclareAction::Refuse),
        (DeclarePhase::Ready, DeclareEvent::Begin(class_id)) => (
            DeclarePhase::Checking(class_id),
            DeclareAction::GetClass(class_id),
        ),
        (DeclarePhase::Checking(class_id), DeclareEvent::Looked(lookup)) => match declared_spec(
            lookup,
        ) {
            Ok(true) => (DeclarePhase::Done(class_id), DeclareAction::Finish(class_id)),
            Ok(false) => (
                DeclarePhase::Declaring(class_id),
                DeclareAction::SubmitDeclare(class_id),
            ),
            Err(why) => (DeclarePhase::Aborted, DeclareAction::Abort(why)),
        },
        (DeclarePhase::Declaring(class_id), DeclareEvent::Declared) => (
            DeclarePhase::Done(class_id),
            DeclareAction::Finish(class_id),
        ),
        (DeclarePhase::Declaring(_), DeclareEvent::Failed(why)) => (
            DeclarePhase::Aborted,
            DeclareAction::Abort(why),
        ),
        _ => (DeclarePhase::Aborted, DeclareAction::Refuse),
    }
}

/// Takes one step of a declaration: the next phase, and what to do.
pub fn declare_contract(phase: DeclarePhase, event: DeclareEvent) -> (r: (
    DeclarePhase,
    DeclareAction,
))
    ensures
        r == declare_step_spec(phase, event),
{
    match phase {
        DeclarePhase::Done(_) | DeclarePhase::Aborted => (phase, DeclareAction::Refuse),
        DeclarePhase::Ready => match event {
            DeclareEvent::Begin(class_id) => (
                DeclarePhase::Checking(class_id),
                DeclareAction::GetClass(class_id),
            ),
            _ => (DeclarePhase::Aborted, DeclareAction::Refuse),
        },
        DeclarePhase::Checking(class_id) => match event {
            DeclareEvent::Looked(lookup) => match is_already_declared(&lookup) {
                Ok(true) => (DeclarePhase::Done(class_id), DeclareAction::Finish(class_id)),
                Ok(false) => (
                    DeclarePhase::Declaring(class_id),
                    DeclareAction::SubmitDeclare(class_id),
                ),
                Err(why) => (DeclarePhase::Aborted, DeclareAction::Abort(why)),
            },
            _ => (DeclarePhase::Aborted, DeclareAction::Refuse),
        },
        DeclarePhase::Declaring(class_id) => match event {
            DeclareEvent::Declared => (DeclarePhase::Done(class_id), DeclareAction::Finish(class_id)),
            DeclareEvent::Failed(why) => (DeclarePhase::Aborted, DeclareAction::Abort(why)),
            _ => (DeclarePhase::Aborted, DeclareAction::Refuse),
        },
    }
}

/// A ledger as far as declarations see it: the classes it holds, and how
/// many declarations were submitted to it.
pub struct LedgerModel {
    pub declared: Set<nat>,
    pub submits: nat,
}

impl LedgerModel {
    /// The answer of this ledger to a query for a class.
    pub open spec fn lookup(self, class_id: Felt) -> ClassLookup {
        if self.declared.contains(class_id@) {
            ClassLookup::Found
        } else {
            ClassLookup::Failed(class_not_found())
        }
    }

    /// This ledger after it took the declaration of a class.
    pub open spec fn declare(self, class_id: Felt) -> LedgerModel {
        LedgerModel { declared: self.declared.insert(class_id@), submits: self.submits + 1 }
    }

    /// A whole declaration of `class_id` against this ledger, which answers
    /// every request: the ledger afterwards, and the phase that is reached.
    pub open spec fn ensure_declared(self, class_id: Felt) -> (LedgerModel, DeclarePhase) {
        let begun = declare_step_spec(DeclarePhase::Ready, DeclareEvent::Begin(class_id));
        let looked = declare_step_spec(begun.0, DeclareEvent::Looked(self.lookup(class_id)));
        match looked.1 {
            DeclareAction::SubmitDeclare(submitted) => (
                self.declare(submitted),
                declare_step_spec(looked.0, DeclareEvent::Declared).0,
            ),
            _ => (self, looked.0),
        }
    }
}

/// Declaring is idempotent. Two declarations of one class in a row both end
/// with that class held; the first submits once where the ledger did not
/// hold the class, and the second never submits.
pub proof fn lemma_declared_once(ledger: LedgerModel, class_id: Felt)
    ensures
        ({
            let first = ledger.ensure_declared(class_id);
            let second = first.0.ensure_declared(class_id);
            &&& first.1 == DeclarePhase::Done(class_id)
            &&& second.1 == DeclarePhase::Done(class_id)
            &&& second.0 == first.0
            &&& !ledger.declared.contains(class_id@) ==> second.0.submits == ledger.submits + 1
            &&& ledger.declared.contains(class_id@) ==> second.0.submits == ledger.submits
        }),
{
}

/// A class that the ledger holds is not declared again: nothing is
/// submitted and the ledger stays as it was.
pub proof fn lemma_held_class_skipped(ledger: LedgerModel, class_id: Felt)
    requires
        ledger.declared.contains(class_id@),
    ensures
        ledger.ensure_declared(class_id) == (ledger, DeclarePhase::Done(class_id)),
{
}

/// A declaration is submitted only on the answer that the class is missing.
pub proof fn lemma_submit_only_when_missing(phase: DeclarePhase, event: DeclareEvent)
    ensures
        declare_step_spec(phase, event).1 matches DeclareAction::SubmitDeclare(class_id) ==> phase
            == DeclarePhase::Checking(class_id) && event == DeclareEvent::Looked(
            ClassLookup::Failed(class_not_found()),
        ),
{
}

/// Any failure of the query but a missing class stops the declaration with
/// that failure.
pub proof fn lemma_other_failure_aborts(class_id: Felt, why: ProviderFailure)
    requires
        why != class_not_found(),
    ensures
        declare_step_spec(
            DeclarePhase::Checking(class_id),
            DeclareEvent::Looked(ClassLookup::Failed(why)),
        ) == (DeclarePhase::Aborted, DeclareAction::Abort(why)),
{
}

} // verus!
