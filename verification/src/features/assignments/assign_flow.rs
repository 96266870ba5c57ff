//! Assigning roles or permissions in bulk, as a state machine: every requested
//! id is looked up first, and the first one that does not exist answers
//! `NotFound` before anything is written; then each is inserted in request
//! order, and the answer says which were new and which were already there.
use crate::error::AppError;
use crate::features::assignments::models::{split_by_outcome, BulkAssignResponse};
use crate::features::assignments::service::AssignmentService;
use vstd::prelude::*;

verus! {

/// What is being assigned.
#[derive(Debug, PartialEq, Eq, Structural, Clone, Copy)]
pub enum AssignKind {
    Role,
    Permission,
}

/// What the last action brought back.
pub enum AssignInput {
    /// The looked-up item: its internal id with its public id as stored, if it exists.
    Found(Result<Option<(u128, String)>, AppError>),
    /// Whether the insert added a row.
    Inserted(Result<bool, AppError>),
}

/// What the caller is to do next.
pub enum AssignAction {
    /// Look up the role or permission with this public id.
    Resolve { public_id: String },
    /// Insert the assignment of the item with this internal id (a conflict adds no row).
    Insert { id: u128, public_id: String },
    /// Answer: which public ids were newly assigned and which were already, or the error.
    Respond(Result<BulkAssignResponse, AppError>),
}

/// One bulk assignment: the ids asked for, those resolved so far, how many are
/// inserted, the outcomes so far and whether it has answered.
pub struct AssignFlow {
    pub kind: AssignKind,
    pub requested: Vec<String>,
    pub resolved: Vec<(u128, String)>,
    pub inserted: usize,
    pub outcomes: Ghost<Seq<(String, bool)>>,
    pub tally: BulkAssignResponse,
    pub done: bool,
}

/// The item a lookup resolves to: a role keeps the public id it was asked by, a
/// permission the one stored with it.
pub open spec fn resolved_item(kind: AssignKind, found: (u128, String), asked: String) -> (u128, Seq<char>) {
    match kind {
        AssignKind::Role => (found.0, asked@),
        AssignKind::Permission => (found.0, found.1@),
    }
}

/// The message of a requested id that does not exist.
pub open spec fn missing_message(kind: AssignKind, asked: Seq<char>) -> Seq<char> {
    match kind {
        AssignKind::Role => "role not found: "@ + asked,
        AssignKind::Permission => "permission not found: "@ + asked,
    }
}

/// The action that comes next: look up the next id, else insert the next
/// resolved item, else answer with the outcomes.
pub open spec fn next_action(flow: AssignFlow, action: AssignAction) -> bool {
    if flow.resolved@.len() < flow.requested@.len() {
        action == (AssignAction::Resolve { public_id: flow.requested@[flow.resolved@.len() as int] })
    } else if flow.inserted < flow.resolved@.len() {
        action == (AssignAction::Insert {
            id: flow.resolved@[flow.inserted as int].0,
            public_id: flow.resolved@[flow.inserted as int].1,
        })
    } else {
        action matches AssignAction::Respond(Ok(t)) && t.assigned@ == split_by_outcome(flow.outcomes@, true)
            && t.already_present@ == split_by_outcome(flow.outcomes@, false)
    }
}

/// Whether `input` is what the flow waits for: a lookup while ids remain to
/// resolve, then an insert while resolved items remain to insert.
pub open spec fn assign_expects(flow: AssignFlow, input: AssignInput) -> bool {
    if flow.resolved@.len() < flow.requested@.len() {
        input is Found
    } else {
        flow.inserted < flow.resolved@.len() && input is Inserted
    }
}

/// How many steps at most remain before the flow answers.
pub open spec fn assign_rank(flow: AssignFlow) -> nat {
    if flow.done {
        0
    } else {
        (2 * flow.requested@.len() - flow.resolved@.len() - flow.inserted + 1) as nat
    }
}

impl AssignFlow {
    /// Lookups come first, each resolved item in request order; inserts follow,
    /// one outcome for each, and the tally holds the outcomes split.
    pub open spec fn wf(&self) -> bool {
        &&& self.resolved@.len() <= self.requested@.len()
        &&& self.inserted <= self.resolved@.len()
        &&& (self.inserted > 0 ==> self.resolved@.len() == self.requested@.len())
        &&& self.outcomes@.len() == self.inserted
        &&& forall|i: int| 0 <= i < self.inserted ==> (#[trigger] self.outcomes@[i]).0 == self.resolved@[i].1
        &&& (!self.done ==> self.tally.assigned@ == split_by_outcome(self.outcomes@, true)
            && self.tally.already_present@ == split_by_outcome(self.outcomes@, false))
    }

    /// An assignment of the `kind` items with the public ids `requested`.
    pub fn new(kind: AssignKind, requested: Vec<String>) -> (r: Self)
        ensures
            r.wf(),
            r.kind == kind,
            r.requested == requested,
            r.resolved@.len() == 0,
            r.inserted == 0,
            !r.done,
    {
        let tally = BulkAssignResponse::new();
        proof {
            assert(tally.assigned@ =~= split_by_outcome(Seq::empty(), true));
            assert(tally.already_present@ =~= split_by_outcome(Seq::empty(), false));
        }
        AssignFlow {
            kind,
            requested,
            resolved: Vec::new(),
            inserted: 0,
            outcomes: Ghost(Seq::empty()),
            tally,
            done: false,
        }
    }

    /// The first action of a fresh flow: look up the first id, or answer at
    /// once when none was asked for.
    pub fn start(&mut self) -> (action: AssignAction)
        requires
            old(self).wf(),
            !old(self).done,
            old(self).resolved@.len() == 0,
        ensures
            final(self).wf(),
            final(self).kind == old(self).kind,
            final(self).requested == old(self).requested,
            final(self).resolved == old(self).resolved,
            final(self).inserted == old(self).inserted,
            next_action(*old(self), action),
            action is Respond <==> final(self).done,
    {
        self.proceed()
    }

    /// The next action of a flow that is not answering an error.
    fn proceed(&mut self) -> (action: AssignAction)
        requires
            old(self).wf(),
            !old(self).done,
        ensures
            final(self).wf(),
            final(self).kind == old(self).kind,
            final(self).requested == old(self).requested,
            final(self).resolved == old(self).resolved,
            final(self).inserted == old(self).inserted,
            final(self).outcomes == old(self).outcomes,
            next_action(*old(self), action),
            action is Respond <==> final(self).done,
    {
        if self.resolved.len() < self.requested.len() {
            let public_id = self.requested[self.resolved.len()].clone();
            AssignAction::Resolve { public_id }
        } else if self.inserted < self.resolved.len() {
            let id = self.resolved[self.inserted].0;
            let public_id = self.resolved[self.inserted].1.clone();
            AssignAction::Insert { id, public_id }
        } else {
            let mut tally = BulkAssignResponse::new();
            std::mem::swap(&mut tally, &mut self.tally);
            self.done = true;
            AssignAction::Respond(Ok(tally))
        }
    }

    /// Takes what the last action brought back and gives the next action.
    pub fn advance(&mut self, input: AssignInput) -> (action: AssignAction)
        requires
            old(self).wf(),
            !old(self).done,
            assign_expects(*old(self), input),
        ensures
            final(self).wf(),
            final(self).kind == old(self).kind,
            final(self).requested == old(self).requested,
            assign_rank(*final(self)) < assign_rank(*old(self)),
            action is Respond <==> final(self).done,
            match input {
                AssignInput::Found(Err(e)) => action == AssignAction::Respond(Err(e)),
                AssignInput::Found(Ok(None)) => action matches AssignAction::Respond(Err(AppError::NotFound(m)))
                    && m@ == missing_message(old(self).kind, old(self).requested@[old(self).resolved@.len() as int]@),
                AssignInput::Found(Ok(Some(p))) => {
                    &&& final(self).resolved@.len() == old(self).resolved@.len() + 1
                    &&& final(self).resolved@.subrange(0, old(self).resolved@.len() as int) == old(self).resolved@
                    &&& (final(self).resolved@.last().0, final(self).resolved@.last().1@)
                        == resolved_item(old(self).kind, p, old(self).requested@[old(self).resolved@.len() as int])
                    &&& final(self).outcomes == old(self).outcomes
                    &&& next_action(*final(self), action)
                },
                AssignInput::Inserted(Err(e)) => action == AssignAction::Respond(Err(e)),
                AssignInput::Inserted(Ok(added)) => {
                    &&& final(self).resolved == old(self).resolved
                    &&& final(self).outcomes@ == old(self).outcomes@.push((old(self).resolved@[old(self).inserted as int].1, added))
                    &&& next_action(*final(self), action)
                },
            },
    {
        match input {
            AssignInput::Found(Err(e)) => {
                self.done = true;
                AssignAction::Respond(Err(e))
            },
            AssignInput::Found(Ok(found)) => {
                let asked = self.requested[self.resolved.len()].as_str();
                let r = match self.kind {
                    AssignKind::Role => {
                        let id = match &found {
                            Some(p) => Some(p.0),
                            None => None,
                        };
                        AssignmentService::<(), (), ()>::resolve_role(id, asked)
                    },
                    AssignKind::Permission => AssignmentService::<(), (), ()>::resolve_permission(found, asked),
                };
                match r {
                    Err(e) => {
                        self.done = true;
                        AssignAction::Respond(Err(e))
                    },
                    Ok(item) => {
                        self.resolved.push(item);
                        self.proceed()
                    },
                }
            },
            AssignInput::Inserted(Err(e)) => {
                self.done = true;
                AssignAction::Respond(Err(e))
            },
            AssignInput::Inserted(Ok(added)) => {
                let count = self.resolved.len();
                proof { assert(self.inserted < count); }
                let next = self.inserted + 1;
                let public_id = self.resolved[self.inserted].1.clone();
                proof {
                    let pushed = self.outcomes@.push((public_id, added));
                    assert(pushed.drop_last() =~= self.outcomes@);
                    self.outcomes@ = pushed;
                }
                self.tally.record(public_id, added);
                self.inserted = next;
                self.proceed()
            },
        }
    }
}

} // verus!
