//! Publishing events in bulk, as a state machine around the single-event flow:
//! at most [`MAX_BULK_EVENTS`] events are published, one after the other and
//! each on its own, and every outcome is recorded at its event's position; one
//! event's failure never stops the others.
use crate::common::codec::sha256;
use crate::common::validators::distinct_keys;
use crate::features::events::create_flow::{
    copy_pairs, expects, rank, transition, CreateEventAction, CreateEventFlow, CreateEventInput, CreateEventStep,
};
use crate::features::events::models::{BulkCreateEventItem, BulkCreateResponse, CreateEventRequest};
use crate::features::events::service::bulk_item_of;
use vstd::prelude::*;

verus! {

/// The most events one bulk request publishes; those after it are not processed.
pub const MAX_BULK_EVENTS: usize = 10;

/// One event of a bulk request, with the canonical JSON of its single-event
/// form (what its idempotency hash is taken over).
pub struct BulkItem {
    pub item: BulkCreateEventItem,
    pub request_json: Vec<u8>,
}

/// What the last action of a bulk publication brought back.
pub enum BulkInput {
    /// Go on with the next event (at the start, and after an event was answered).
    Resume,
    /// What the current event's last action brought back.
    Item(CreateEventInput),
}

/// What the caller of a bulk publication is to do next.
pub enum BulkAction {
    /// Perform this action of the current event.
    Perform(CreateEventAction),
    /// An event was answered and its outcome recorded; resume.
    Recorded,
    /// Answer with every outcome.
    Respond(BulkCreateResponse),
}

/// A bulk publication: its events, the next one to start, the one under way
/// and the outcomes so far.
pub struct BulkCreateFlow {
    pub items: Vec<BulkItem>,
    pub next: usize,
    pub current: Option<CreateEventFlow>,
    pub tally: BulkCreateResponse,
    pub done: bool,
}

/// The single-event flow an item starts with.
pub open spec fn started(item: BulkItem, f: CreateEventFlow) -> bool {
    &&& f.req.application_id == item.item.application_id
    &&& f.req.event_type_id == item.item.event_type_id
    &&& f.req.schema_version == item.item.schema_version
    &&& f.req.payload == item.item.payload
    &&& f.req.payload_type == item.item.payload_type
    &&& f.req.tags@ == item.item.tags@
    &&& f.idempotency_key == item.item.idempotency_key
    &&& f.body_hash@ == sha256(item.request_json@)
    &&& f.step is Begin
}

/// What follows one step of the current event: when it answered, its outcome is
/// recorded next and the event is finished; otherwise its action is performed.
pub open spec fn after_step(
    old_tally: BulkCreateResponse,
    f: CreateEventFlow,
    step: CreateEventStep,
    inner: CreateEventAction,
    new: BulkCreateFlow,
    action: BulkAction,
) -> bool {
    match inner {
        CreateEventAction::Respond(outcome) => {
            &&& new.current is None
            &&& action is Recorded
            &&& new.tally.results@.len() == old_tally.results@.len() + 1
            &&& new.tally.results@.subrange(0, old_tally.results@.len() as int) == old_tally.results@
            &&& bulk_item_of(old_tally.results@.len() as int, outcome, new.tally.results@.last())
        },
        _ => {
            &&& new.current == Some(CreateEventFlow { step, ..f })
            &&& action == BulkAction::Perform(inner)
            &&& new.tally == old_tally
        },
    }
}

/// Whether `input` is what the flow waits for.
pub open spec fn bulk_expects(flow: BulkCreateFlow, input: BulkInput) -> bool {
    match flow.current {
        Some(f) => input matches BulkInput::Item(i) && expects(f.step, i),
        None => input is Resume,
    }
}

/// The transition of a bulk publication at `old` on `input` to `new` with `action`.
pub open spec fn bulk_transition(old: BulkCreateFlow, input: BulkInput, new: BulkCreateFlow, action: BulkAction) -> bool {
    &&& new.items == old.items
    &&& match old.current {
        Some(f) => input matches BulkInput::Item(i) && new.next == old.next && !new.done
            && exists|step: CreateEventStep, inner: CreateEventAction| #[trigger] transition(f, i, step, inner)
                && after_step(old.tally, f, step, inner, new, action),
        None => if old.next < old.items@.len() {
            &&& new.next == old.next + 1
            &&& !new.done
            &&& exists|f: CreateEventFlow, step: CreateEventStep, inner: CreateEventAction| started(old.items@[old.next as int], f)
                && #[trigger] transition(f, CreateEventInput::Start, step, inner)
                && after_step(old.tally, f, step, inner, new, action)
        } else {
            new.done && action == BulkAction::Respond(old.tally)
        },
    }
}

/// How many steps at most remain before the publication answers.
pub open spec fn bulk_rank(flow: BulkCreateFlow) -> nat {
    if flow.done {
        0
    } else {
        ((flow.items@.len() - flow.next) * 10 + match flow.current {
            Some(f) => rank(f.step) + 1,
            None => 0,
        } + 1) as nat
    }
}

impl BulkCreateFlow {
    /// Every outcome so far sits at its own position, one for each event started and answered.
    pub open spec fn wf(&self) -> bool {
        &&& self.tally.wf()
        &&& self.items@.len() <= MAX_BULK_EVENTS
        &&& forall|i: int| 0 <= i < self.items@.len() ==> distinct_keys((#[trigger] self.items@[i]).item.tags@)
        &&& (self.current matches Some(f) ==> distinct_keys(f.req.tags@))
        &&& self.next <= self.items@.len()
        &&& !self.done ==> self.tally.results@.len() == (if self.current is Some { self.next - 1 } else { self.next as int })
        &&& (self.current is Some ==> self.next >= 1)
        &&& (self.done ==> self.current is None && self.next == self.items@.len())
    }

    /// A bulk publication of the first [`MAX_BULK_EVENTS`] of `items`, with no outcome yet.
    pub fn new(items: Vec<BulkItem>) -> (r: Self)
        requires
            forall|i: int| 0 <= i < items@.len() ==> distinct_keys((#[trigger] items@[i]).item.tags@),
        ensures
            r.wf(),
            r.items@ == items@.subrange(0, if items@.len() <= MAX_BULK_EVENTS { items@.len() as int } else { MAX_BULK_EVENTS as int }),
            r.next == 0,
            r.current is None,
            r.tally.results@.len() == 0,
            !r.done,
    {
        let mut items = items;
        let ghost given = items@;
        if items.len() > MAX_BULK_EVENTS {
            items.truncate(MAX_BULK_EVENTS);
        }
        proof {
            if given.len() <= MAX_BULK_EVENTS {
                assert(items@ =~= given.subrange(0, given.len() as int));
            }
        }
        BulkCreateFlow { items, next: 0, current: None, tally: BulkCreateResponse::new(), done: false }
    }

    /// Takes what the last action brought back and gives the next action; once
    /// it answers, the answer holds one outcome for each of the events, in order.
    pub fn advance(&mut self, input: BulkInput) -> (action: BulkAction)
        requires
            old(self).wf(),
            !old(self).done,
            bulk_expects(*old(self), input),
        ensures
            final(self).wf(),
            bulk_transition(*old(self), input, *final(self), action),
            bulk_rank(*final(self)) < bulk_rank(*old(self)),
            action is Respond <==> final(self).done,
            action matches BulkAction::Respond(t) ==> t.wf() && t.results@.len() == final(self).items@.len(),
    {
        let ghost before = *self;
        let mut current: Option<CreateEventFlow> = None;
        std::mem::swap(&mut current, &mut self.current);
        let (mut f, inner_input) = match current {
            Some(f) => match input {
                BulkInput::Item(i) => (f, i),
                BulkInput::Resume => {
                    proof { assert(false); }
                    return BulkAction::Recorded;
                },
            },
            None => {
                if self.next >= self.items.len() {
                    self.done = true;
                    let mut tally = BulkCreateResponse::new();
                    std::mem::swap(&mut tally, &mut self.tally);
                    return BulkAction::Respond(tally);
                }
                let b = &self.items[self.next];
                let req = CreateEventRequest {
                    application_id: b.item.application_id.clone(),
                    event_type_id: b.item.event_type_id.clone(),
                    schema_version: copy_opt_text(&b.item.schema_version),
                    payload: b.item.payload.duplicate(),
                    payload_type: b.item.payload_type,
                    tags: copy_pairs(&b.item.tags),
                };
                let key = copy_opt_text(&b.item.idempotency_key);
                let f = CreateEventFlow::new(req, key, b.request_json.as_slice());
                self.next = self.next + 1;
                (f, CreateEventInput::Start)
            },
        };
        let ghost f_before = f;
        let ghost input_g = inner_input;
        let inner = f.advance(inner_input);
        let ghost inner_g = inner;
        match inner {
            CreateEventAction::Respond(outcome) => {
                self.tally.record(outcome);
                proof {
                    assert(transition(f_before, input_g, f.step, inner_g));
                    assert(after_step(before.tally, f_before, f.step, inner_g, *self, BulkAction::Recorded));
                    if before.current is Some {
                        assert(before.current == Some(f_before));
                        assert(input == BulkInput::Item(input_g));
                    } else {
                        assert(before.next < before.items@.len());
                        assert(self.next == before.next + 1);
                        assert(input_g == CreateEventInput::Start);
                        assert(started(before.items@[before.next as int], f_before));
                    }
                }
                BulkAction::Recorded
            },
            other => {
                self.current = Some(f);
                BulkAction::Perform(other)
            },
        }
    }
}

/// A copy of an optional text.
fn copy_opt_text(v: &Option<String>) -> (r: Option<String>)
    ensures
        r == *v,
{
    match v {
        Some(s) => Some(s.clone()),
        None => None,
    }
}

} // verus!
