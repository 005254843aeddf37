//! The orchestrator's hook pipeline: one payload flowing through the hooks,
//! strictly in declaration order, aborting at the first failure.
//!
//! Performing an action is input/output and happens outside this library, so
//! the pipeline is driven step by step: [`Pipeline::next_action`] hands out
//! the next hook's action, [`Pipeline::report`] takes the outcome back. The
//! contracts pin the protocol down: actions are issued one hook at a time,
//! in order, and only while every verdict so far is a success; a failed
//! verdict — or a hook that cannot even plan its action — aborts the
//! pipeline, and an aborted pipeline never issues another action.

use vstd::prelude::*;

use crate::errors::HookError;
use crate::hooks::{action_matches_hook, outcome_ok, verdict_matches, Action, Hook, Outcome};

verus! {

/// Where the pipeline stands.
#[derive(Debug, PartialEq)]
pub enum Phase {
    /// The next action can be issued (or the pipeline is done, when every
    /// hook has run).
    Ready,
    /// An action has been issued and its outcome not yet reported.
    Waiting,
    /// A hook failed; no further action is ever issued.
    Aborted,
}

/// Whether hook `i` runs, given the verdicts the hooks' outcomes get: it
/// does exactly when every verdict before it is a success.
pub open spec fn runs(verdicts: Seq<bool>, i: int) -> bool {
    forall|j: int| 0 <= j < i ==> verdicts[j]
}

/// One run of the hook list against one payload.
pub struct Pipeline {
    hooks: Vec<Hook>,
    payload: String,
    pos: usize,
    phase: Phase,
    verdicts: Ghost<Seq<bool>>,
}

impl Pipeline {
    /// The hooks, in execution order.
    pub closed spec fn hooks_spec(&self) -> Seq<Hook> {
        self.hooks@
    }

    /// The payload every hook sees.
    pub closed spec fn payload_spec(&self) -> Seq<char> {
        self.payload@
    }

    /// How many hooks have had their action issued.
    pub closed spec fn issued(&self) -> int {
        self.pos as int
    }

    /// Where the pipeline stands.
    pub closed spec fn phase_spec(&self) -> Phase {
        self.phase
    }

    /// The verdicts reported so far, in order.
    pub closed spec fn verdicts_spec(&self) -> Seq<bool> {
        self.verdicts@
    }

    /// The pipeline's invariant: actions are issued one at a time, in order;
    /// every verdict but a final aborting failure is a success; and a
    /// pipeline that still issues actions has no failure behind it.
    pub closed spec fn wf(&self) -> bool {
        &&& self.pos <= self.hooks@.len()
        &&& (match self.phase {
            Phase::Ready => self.verdicts@.len() == self.pos && runs(
                self.verdicts@,
                self.verdicts@.len() as int,
            ),
            Phase::Waiting => self.pos >= 1 && self.verdicts@.len() == self.pos - 1 && runs(
                self.verdicts@,
                self.verdicts@.len() as int,
            ),
            Phase::Aborted => self.verdicts@.len() == self.pos && runs(
                self.verdicts@,
                self.verdicts@.len() - 1,
            ) && (self.verdicts@.len() > 0 ==> !self.verdicts@.last()),
        })
    }

    /// A fresh pipeline: no hook has run yet.
    pub fn new(hooks: Vec<Hook>, payload: String) -> (p: Pipeline)
        ensures
            p.wf(),
            p.hooks_spec() == hooks@,
            p.payload_spec() == payload@,
            p.issued() == 0,
            p.phase_spec() is Ready,
            p.verdicts_spec() == Seq::<bool>::empty(),
    {
        Pipeline { hooks, payload, pos: 0, phase: Phase::Ready, verdicts: Ghost(Seq::empty()) }
    }

    /// How many hooks the pipeline holds.
    pub fn len(&self) -> (n: usize)
        ensures
            n == self.hooks_spec().len(),
    {
        self.hooks.len()
    }

    /// The next hook's action, or `None` when the pipeline is done or
    /// aborted (or an outcome is still owed). An action is issued only while
    /// every verdict so far succeeded — hooks after a failure never run —
    /// and a hook that cannot plan its action aborts the pipeline with its
    /// error, counting as the failing hook itself.
    pub fn next_action(&mut self) -> (r: Result<Option<Action>, HookError>)
        requires
            old(self).wf(),
        ensures
            final(self).wf(),
            final(self).hooks_spec() == old(self).hooks_spec(),
            final(self).payload_spec() == old(self).payload_spec(),
            !(old(self).phase_spec() is Ready) ==> (r matches Ok(a) && a is None && *final(self)
                == *old(self)),
            old(self).phase_spec() is Ready && old(self).issued() == old(self).hooks_spec().len()
                ==> (r matches Ok(a) && a is None && *final(self) == *old(self)),
            old(self).phase_spec() is Ready && old(self).issued() < old(self).hooks_spec().len()
                ==> ({
                let h = old(self).hooks_spec()[old(self).issued()];
                ||| (r matches Ok(a) && a matches Some(act) && action_matches_hook(
                    act,
                    h,
                    old(self).payload_spec(),
                ) && runs(old(self).verdicts_spec(), old(self).issued())
                    && final(self).issued() == old(self).issued() + 1
                    && final(self).phase_spec() is Waiting
                    && final(self).verdicts_spec() == old(self).verdicts_spec())
                ||| (h matches Hook::Template(t) && !crate::hooks::template::payload_parses(
                    t.spec_source_type(),
                    old(self).payload_spec(),
                ) && (r matches Err(e) && e matches HookError::DeserializeFailure { format }
                    && format@ == crate::hooks::template::source_name(t.spec_source_type()))
                    && final(self).phase_spec() is Aborted
                    && final(self).issued() == old(self).issued() + 1
                    && final(self).verdicts_spec() == old(self).verdicts_spec().push(false))
            }),
    {
        match self.phase {
            Phase::Ready => {
                if self.pos >= self.hooks.len() {
                    return Ok(None);
                }
                match self.hooks[self.pos].plan(self.payload.as_str()) {
                    Ok(act) => {
                        self.pos = self.pos + 1;
                        self.phase = Phase::Waiting;
                        Ok(Some(act))
                    },
                    Err(e) => {
                        self.pos = self.pos + 1;
                        self.phase = Phase::Aborted;
                        proof {
                            self.verdicts@ = self.verdicts@.push(false);
                        }
                        Err(e)
                    },
                }
            },
            _ => Ok(None),
        }
    }

    /// Takes back the outcome of the action last issued. A successful
    /// outcome readies the next hook; a failure aborts the pipeline with the
    /// hook's verdict, so the hooks after it never run.
    pub fn report(&mut self, outcome: Outcome) -> (r: Result<(), HookError>)
        requires
            old(self).wf(),
        ensures
            final(self).wf(),
            final(self).hooks_spec() == old(self).hooks_spec(),
            final(self).payload_spec() == old(self).payload_spec(),
            final(self).issued() == old(self).issued(),
            !(old(self).phase_spec() is Waiting) ==> (r is Ok && *final(self) == *old(self)),
            old(self).phase_spec() is Waiting ==> verdict_matches(
                old(self).hooks_spec()[old(self).issued() - 1],
                outcome,
                r,
            ) && final(self).verdicts_spec() == old(self).verdicts_spec().push(
                outcome_ok(outcome),
            ) && (outcome_ok(outcome) ==> final(self).phase_spec() is Ready) && (!outcome_ok(
                outcome,
            ) ==> final(self).phase_spec() is Aborted),
    {
        match self.phase {
            Phase::Waiting => {
                let verdict = self.hooks[self.pos - 1].interpret(outcome);
                proof {
                    self.verdicts@ = self.verdicts@.push(outcome_ok(outcome));
                }
                match verdict {
                    Ok(()) => {
                        self.phase = Phase::Ready;
                        Ok(())
                    },
                    Err(e) => {
                        self.phase = Phase::Aborted;
                        Err(e)
                    },
                }
            },
            _ => Ok(()),
        }
    }
}

/// The orchestrator's decision after a poll: new data starts one run of the
/// hooks against it; a poll that found nothing starts no run, so no hook can
/// fire and nothing is printed or written.
pub fn start_run(hooks: Vec<Hook>, polled: Option<String>) -> (r: Option<Pipeline>)
    ensures
        polled is None ==> r is None,
        polled matches Some(data) ==> r matches Some(p) && p.wf() && p.hooks_spec() == hooks@
            && p.payload_spec() == data@ && p.issued() == 0 && p.phase_spec() is Ready,
{
    match polled {
        Some(data) => Some(Pipeline::new(hooks, data)),
        None => None,
    }
}

/// Law: a hook failure at position `k` in the list prevents the hooks after
/// `k` from running, while the hooks before `k` have already run — given the
/// verdicts of the issued actions, with the failure at `k`, exactly the
/// hooks up to and including `k` run and no later one does.
pub proof fn lemma_failure_stops_pipeline(verdicts: Seq<bool>, k: int)
    requires
        0 <= k < verdicts.len(),
        !verdicts[k],
        forall|j: int| 0 <= j < k ==> verdicts[j],
    ensures
        forall|j: int| 0 <= j <= k ==> runs(verdicts, j),
        forall|j: int| k < j ==> !runs(verdicts, j),
{
    assert forall|j: int| k < j implies !runs(verdicts, j) by {
        assert(0 <= k < j && !verdicts[k]);
    }
}

} // verus!
