//! Transfer sessions: how progress is counted, and the registry that keeps
//! the sessions for those who poll them.

use crate::clipboard::{left_by_paste, Clipboard, ClipboardItem};
use crate::msg::{TransferMsg, TransferSessionID, TransferSize, TransferState};
use std::time::Instant;
use vstd::prelude::*;

verus! {

/// What a folder counts for in a transfer, whatever it holds: with it a
/// transfer of nothing but folders still has something to count.
pub const HYPOTHETICAL_FOLDER_SIZE: u64 = 1;

impl TransferState {
    /// The state after `val` more has been copied. Only a running transfer counts it.
    pub open spec fn with_current(self, val: u64) -> TransferState {
        match self {
            TransferState::Active(size) => TransferState::Active(
                TransferSize { total: size.total, current: (size.current + val) as u64 },
            ),
            _ => self,
        }
    }

    /// The state after `val` more has been found to copy. Only a transfer
    /// that is still adding up counts it.
    pub open spec fn with_total(self, val: u64) -> TransferState {
        match self {
            TransferState::Initializing(total) => TransferState::Initializing((total + val) as u64),
            _ => self,
        }
    }

    /// The state after adding up is over: the copy starts at nothing.
    pub open spec fn initialized(self) -> TransferState {
        match self {
            TransferState::Initializing(total) => TransferState::Active(
                TransferSize { total, current: 0 },
            ),
            _ => self,
        }
    }

    /// The state after the copy has ended: terminated if all that was
    /// counted has been copied, failed if not.
    pub open spec fn finished(self) -> TransferState {
        match self {
            TransferState::Active(size) => if size.current == size.total {
                TransferState::Terminated(size)
            } else {
                TransferState::Failed(size)
            },
            _ => self,
        }
    }

    /// The state after something went wrong: a transfer under way has failed.
    pub open spec fn broken(self) -> TransferState {
        match self {
            TransferState::Initializing(total) => TransferState::Failed(
                TransferSize { total, current: 0 },
            ),
            TransferState::Active(size) => TransferState::Failed(size),
            _ => self,
        }
    }

    /// Whether `val` more can be counted without leaving `u64`.
    pub open spec fn has_room(self, val: u64) -> bool {
        match self {
            TransferState::Initializing(total) => total + val <= u64::MAX,
            TransferState::Active(size) => size.current + val <= u64::MAX,
            _ => true,
        }
    }

    pub fn append_current(&mut self, val: u64)
        requires
            (*old(self)) is Active ==> old(self).has_room(val),
        ensures
            *final(self) == old(self).with_current(val),
    {
        if let Self::Active(TransferSize { total, current }) = *self {
            *self = Self::Active(TransferSize { total, current: current + val });
        }
    }

    pub fn append_total(&mut self, val: u64)
        requires
            (*old(self)) is Initializing ==> old(self).has_room(val),
        ensures
            *final(self) == old(self).with_total(val),
    {
        if let Self::Initializing(total) = *self {
            *self = Self::Initializing(total + val);
        }
    }

    pub fn end_init(&mut self)
        ensures
            *final(self) == old(self).initialized(),
    {
        if let Self::Initializing(total) = *self {
            let current: u64 = 0;
            *self = Self::Active(TransferSize { total, current })
        }
    }

    /// Ends a running transfer, checking that nothing is missing.
    pub fn finish(&mut self)
        ensures
            *final(self) == old(self).finished(),
    {
        if let Self::Active(size) = *self {
            if size.current == size.total {
                *self = Self::Terminated(size)
            } else {
                *self = Self::Failed(size)
            }
        }
    }

    /// Marks a transfer under way as failed.
    pub fn fail(&mut self)
        ensures
            *final(self) == old(self).broken(),
    {
        match *self {
            Self::Initializing(total) => {
                let current: u64 = 0;
                *self = Self::Failed(TransferSize { total, current })
            },
            Self::Active(size) => { *self = Self::Failed(size) },
            _ => {},
        }
    }

    pub fn is_ongoing(&self) -> (r: bool)
        ensures
            r == self.ongoing(),
    {
        matches!(self, Self::Initializing(_)) || matches!(self, Self::Active(_))
    }
}

/// What a worker reports of a transfer.
#[derive(Clone, Copy, Debug, PartialEq, Eq, Structural)]
pub enum TransferEvent {
    /// Something of this weight was found to copy.
    Sized(u64),
    /// Everything has been weighed.
    Initialized,
    /// This much has been copied.
    Copied(u64),
    /// All workers have returned.
    Finished,
    /// A worker could not go on.
    Broke,
}

impl TransferEvent {
    /// What is reported once every worker that weighs has returned: that
    /// the copy can start if none of them failed, else that the transfer broke.
    pub fn sizing_done(all_ok: bool) -> (r: TransferEvent)
        ensures
            r == if all_ok {
                TransferEvent::Initialized
            } else {
                TransferEvent::Broke
            },
    {
        if all_ok {
            TransferEvent::Initialized
        } else {
            TransferEvent::Broke
        }
    }

    /// What is reported once every worker that copies has returned: that
    /// the transfer is over if none of them failed, else that it broke.
    pub fn copying_done(all_ok: bool) -> (r: TransferEvent)
        ensures
            r == if all_ok {
                TransferEvent::Finished
            } else {
                TransferEvent::Broke
            },
    {
        if all_ok {
            TransferEvent::Finished
        } else {
            TransferEvent::Broke
        }
    }
}

impl TransferState {
    /// The state after an event. A count that would leave `u64` cannot be
    /// kept exact, so it fails the transfer.
    pub open spec fn after(self, event: TransferEvent) -> TransferState {
        match event {
            TransferEvent::Sized(val) => if self.has_room(val) {
                self.with_total(val)
            } else {
                self.broken()
            },
            TransferEvent::Initialized => self.initialized(),
            TransferEvent::Copied(val) => if self.has_room(val) {
                self.with_current(val)
            } else {
                self.broken()
            },
            TransferEvent::Finished => self.finished(),
            TransferEvent::Broke => self.broken(),
        }
    }

    /// The state after a run of events.
    pub open spec fn after_all(self, events: Seq<TransferEvent>) -> TransferState
        decreases events.len(),
    {
        if events.len() == 0 {
            self
        } else {
            self.after_all(events.drop_last()).after(events.last())
        }
    }

    fn room_for(&self, val: u64) -> (r: bool)
        ensures
            r == self.has_room(val),
    {
        match self {
            Self::Initializing(total) => *total <= u64::MAX - val,
            Self::Active(size) => size.current <= u64::MAX - val,
            _ => true,
        }
    }

    pub fn apply(&mut self, event: TransferEvent)
        ensures
            *final(self) == old(self).after(event),
    {
        match event {
            TransferEvent::Sized(val) => {
                if self.room_for(val) {
                    self.append_total(val)
                } else {
                    self.fail()
                }
            },
            TransferEvent::Initialized => self.end_init(),
            TransferEvent::Copied(val) => {
                if self.room_for(val) {
                    self.append_current(val)
                } else {
                    self.fail()
                }
            },
            TransferEvent::Finished => self.finish(),
            TransferEvent::Broke => self.fail(),
        }
    }
}

impl TransferState {
    /// What has been found to copy so far.
    pub open spec fn counted(self) -> u64 {
        match self {
            TransferState::Initializing(total) => total,
            TransferState::Active(size) => size.total,
            TransferState::Terminated(size) => size.total,
            TransferState::Failed(size) => size.total,
        }
    }

    /// What has been copied so far.
    pub open spec fn copied(self) -> u64 {
        match self {
            TransferState::Initializing(_) => 0,
            TransferState::Active(size) => size.current,
            TransferState::Terminated(size) => size.current,
            TransferState::Failed(size) => size.current,
        }
    }

    /// How far the transfer is in its life: adding up, copying, ended.
    pub open spec fn stage(self) -> nat {
        match self {
            TransferState::Initializing(_) => 0,
            TransferState::Active(_) => 1,
            TransferState::Terminated(_) => 2,
            TransferState::Failed(_) => 2,
        }
    }
}

/// A transfer that has ended does not change any more, whatever is reported.
pub proof fn lemma_ended_is_final(state: TransferState, events: Seq<TransferEvent>)
    requires
        !state.ongoing(),
    ensures
        state.after_all(events) == state,
    decreases events.len(),
{
    if events.len() > 0 {
        lemma_ended_is_final(state, events.drop_last());
    }
}

/// Whatever is reported, a transfer only moves on in its life, and its
/// counts never fall. It ends as terminated only with all that was counted
/// copied.
pub proof fn lemma_progress_never_falls(state: TransferState, events: Seq<TransferEvent>)
    ensures
        state.stage() <= state.after_all(events).stage(),
        state.counted() <= state.after_all(events).counted(),
        state.copied() <= state.after_all(events).copied(),
        state.ongoing() && state.after_all(events) is Terminated ==> state.after_all(
            events,
        ).copied() == state.after_all(events).counted(),
    decreases events.len(),
{
    if events.len() > 0 {
        lemma_progress_never_falls(state, events.drop_last());
    }
}

/// What a run of reports adds up to: the weights that were found and the
/// amounts that were copied, taken together.
pub open spec fn amounts(events: Seq<TransferEvent>) -> nat
    decreases events.len(),
{
    if events.len() == 0 {
        0
    } else {
        amounts(events.drop_last()) + match events.last() {
            TransferEvent::Sized(val) => val as nat,
            TransferEvent::Copied(val) => val as nat,
            _ => 0,
        }
    }
}

/// The state after two runs of events, one after the other, is the state
/// after both in one run.
pub proof fn lemma_after_all_concat(state: TransferState, a: Seq<TransferEvent>, b: Seq<TransferEvent>)
    ensures
        state.after_all(a + b) == state.after_all(a).after_all(b),
    decreases b.len(),
{
    if b.len() == 0 {
        assert(a + b =~= a);
    } else {
        assert((a + b).drop_last() =~= a + b.drop_last());
        lemma_after_all_concat(state, a, b.drop_last());
    }
}

/// While a transfer adds up, the weights that its workers report are all
/// counted, in whatever order they come: the total is what it was plus
/// their sum.
pub proof fn lemma_sizes_add_up(total: u64, events: Seq<TransferEvent>)
    requires
        forall|i: int| 0 <= i < events.len() ==> events[i] is Sized,
        total + amounts(events) <= u64::MAX,
    ensures
        TransferState::Initializing(total).after_all(events) == TransferState::Initializing(
            (total + amounts(events)) as u64,
        ),
    decreases events.len(),
{
    if events.len() > 0 {
        lemma_sizes_add_up(total, events.drop_last());
    }
}

/// While a transfer copies, the amounts that its workers report are all
/// counted, in whatever order they come: what is copied is what it was plus
/// their sum.
pub proof fn lemma_copies_add_up(size: TransferSize, events: Seq<TransferEvent>)
    requires
        forall|i: int| 0 <= i < events.len() ==> events[i] is Copied,
        size.current + amounts(events) <= u64::MAX,
    ensures
        TransferState::Active(size).after_all(events) == TransferState::Active(
            TransferSize { total: size.total, current: (size.current + amounts(events)) as u64 },
        ),
    decreases events.len(),
{
    if events.len() > 0 {
        lemma_copies_add_up(size, events.drop_last());
    }
}

/// A transfer whose workers weigh and then copy the same amount, and none
/// of which fails, ends terminated with that amount as its total and as
/// what it has copied, however the reports of the workers fall in their
/// phase.
pub proof fn lemma_transfer_is_exact(sizes: Seq<TransferEvent>, copies: Seq<TransferEvent>)
    requires
        forall|i: int| 0 <= i < sizes.len() ==> sizes[i] is Sized,
        forall|i: int| 0 <= i < copies.len() ==> copies[i] is Copied,
        amounts(sizes) == amounts(copies),
        amounts(sizes) <= u64::MAX,
    ensures
        TransferState::Initializing(0).after_all(
            sizes + seq![TransferEvent::Initialized] + copies + seq![TransferEvent::Finished],
        ) == TransferState::Terminated(
            TransferSize { total: amounts(sizes) as u64, current: amounts(sizes) as u64 },
        ),
{
    let start = TransferState::Initializing(0);
    let weighed = TransferState::Initializing(amounts(sizes) as u64);
    let ready = TransferSize { total: amounts(sizes) as u64, current: 0 };
    let init = seq![TransferEvent::Initialized];
    let finish = seq![TransferEvent::Finished];
    lemma_sizes_add_up(0, sizes);
    lemma_copies_add_up(ready, copies);
    lemma_after_all_concat(start, sizes + init + copies, finish);
    lemma_after_all_concat(start, sizes + init, copies);
    lemma_after_all_concat(start, sizes, init);
    assert(init.drop_last() =~= Seq::<TransferEvent>::empty());
    assert(finish.drop_last() =~= Seq::<TransferEvent>::empty());
    assert(weighed.after_all(init) == weighed.after_all(init.drop_last()).after(init.last()));
    assert(weighed.after_all(init) == TransferState::Active(ready));
    let done = TransferState::Active(
        TransferSize { total: amounts(sizes) as u64, current: amounts(sizes) as u64 },
    );
    assert(done.after_all(finish) == done.after_all(finish.drop_last()).after(finish.last()));
}

/// One transfer session: its name, how far it is, when its copy began and
/// whether it copies or moves.
#[derive(Clone, Copy, Debug)]
pub struct TransferConfig {
    pub id: TransferSessionID,
    pub state: TransferState,
    pub started: Instant,
    pub copy: bool,
}

/// What a poller can tell of a session, the time left aside.
pub ghost struct Summary {
    pub id: TransferSessionID,
    pub state: TransferState,
    pub copy: bool,
}

impl TransferMsg {
    pub open spec fn summary(self) -> Summary {
        Summary { id: self.spec_id(), state: self.spec_state(), copy: self is Copy }
    }
}

impl TransferConfig {
    pub open spec fn summary(self) -> Summary {
        Summary { id: self.id, state: self.state, copy: self.copy }
    }

    pub fn is_ongoing(&self) -> (r: bool)
        ensures
            r == self.state.ongoing(),
    {
        self.state.is_ongoing()
    }

    /// Sets the session's clock to a reading that was taken of it: the time
    /// that a poller is told is counted from there. Nothing else changes.
    pub fn start_at(&mut self, started: Instant)
        ensures
            *final(self) == (TransferConfig { started, ..*old(self) }),
    {
        self.started = started;
    }

    /// Starts the session's clock anew: it is set to the reading that the
    /// clock gives now, whatever that is.
    pub fn start_now(&mut self)
        ensures
            final(self).summary() == old(self).summary(),
    {
        self.start_at(Instant::now())
    }

    /// Ends the session once its workers have returned.
    pub fn terminate_now(&mut self)
        ensures
            final(self).summary() == (Summary { state: old(self).state.finished(), ..old(self).summary() }),
            final(self).started == old(self).started,
    {
        self.state.finish()
    }

    /// Takes an event into the session's state. The clock starts when the
    /// session turns from adding up to copying.
    pub fn apply(&mut self, event: TransferEvent)
        ensures
            final(self).summary() == (Summary { state: old(self).state.after(event), ..old(self).summary() }),
    {
        let was_initializing = matches!(self.state, TransferState::Initializing(_));
        self.state.apply(event);
        if was_initializing && matches!(self.state, TransferState::Active(_)) {
            self.start_now();
        }
    }

    /// A snapshot of the session with the time since its clock was started.
    pub fn read(&self) -> (r: TransferMsg)
        ensures
            r.summary() == self.summary(),
    {
        let state = self.state;
        let id = self.id;
        let time_elapsed = self.started.elapsed();
        if self.copy {
            TransferMsg::Copy { id, state, time_elapsed }
        } else {
            TransferMsg::Move { id, state, time_elapsed }
        }
    }
}

/// The sessions that are alive, each in the slot it was given when it was added.
pub struct SessionRegistry {
    pub sessions: Vec<TransferConfig>,
}

/// Tells the sessions that are under way from those that have ended.
pub open spec fn is_ongoing() -> spec_fn(TransferConfig) -> bool {
    |c: TransferConfig| c.state.ongoing()
}

/// The sessions that are under way, in slot order.
pub open spec fn ongoing_sessions(sessions: Seq<TransferConfig>) -> Seq<TransferConfig> {
    sessions.filter(is_ongoing())
}

/// The summaries of a sequence of sessions.
pub open spec fn summaries(sessions: Seq<TransferConfig>) -> Seq<Summary> {
    sessions.map_values(|c: TransferConfig| c.summary())
}

/// The summaries of a sequence of snapshots.
pub open spec fn msg_summaries(msgs: Seq<TransferMsg>) -> Seq<Summary> {
    msgs.map_values(|m: TransferMsg| m.summary())
}

proof fn lemma_ongoing_push(seen: Seq<TransferConfig>, next: TransferConfig)
    ensures
        ongoing_sessions(seen.push(next)) == if next.state.ongoing() {
            ongoing_sessions(seen).push(next)
        } else {
            ongoing_sessions(seen)
        },
{
    reveal(Seq::filter);
    assert(seen.push(next).drop_last() =~= seen);
}

/// The session that an id names: the one in the id's slot, if the slot is
/// taken and the nonce is that of its session.
pub open spec fn session_named(sessions: Seq<TransferConfig>, id: TransferSessionID) -> Option<
    TransferConfig,
> {
    if 0 <= id.idx < sessions.len() && sessions[id.idx as int].id.parity == id.parity {
        Some(sessions[id.idx as int])
    } else {
        None
    }
}

/// The number that the next session's slot goes by.
pub open spec fn next_slot(sessions: Seq<TransferConfig>) -> int {
    if sessions.len() <= i64::MAX {
        sessions.len() as int
    } else {
        i64::MAX as int
    }
}

/// The first slot whose session has exactly this id, or the number of slots
/// where there is none.
pub open spec fn first_slot_of(sessions: Seq<TransferConfig>, id: TransferSessionID) -> int
    decreases sessions.len(),
{
    if sessions.len() == 0 {
        0
    } else if sessions.first().id == id {
        0
    } else {
        1 + first_slot_of(sessions.drop_first(), id)
    }
}

impl SessionRegistry {
    pub fn new() -> (r: Self)
        ensures
            r.sessions@ == Seq::<TransferConfig>::empty(),
    {
        SessionRegistry { sessions: Vec::new() }
    }

    /// The id for the next session: the slot it will get, and the nonce
    /// given. Slots beyond the largest `i64` all go by that number; no
    /// session in them can be found by its id.
    pub fn generate_id(&self, parity: i64) -> (r: TransferSessionID)
        ensures
            r.parity == parity,
            r.idx == next_slot(self.sessions@),
    {
        let len: usize = self.sessions.len();
        let idx: i64 = if len as u64 > i64::MAX as u64 {
            i64::MAX
        } else {
            len as i64
        };
        TransferSessionID { idx, parity }
    }

    /// Adds a session that has yet to add up what it will copy.
    pub fn add_new_session(&mut self, copy: bool, parity: i64) -> (r: TransferSessionID)
        ensures
            r.parity == parity,
            r.idx == next_slot(old(self).sessions@),
            final(self).sessions@.len() == old(self).sessions@.len() + 1,
            final(self).sessions@.drop_last() == old(self).sessions@,
            final(self).sessions@.last().summary() == (Summary {
                id: r,
                state: TransferState::Initializing(0),
                copy,
            }),
    {
        let id = self.generate_id(parity);
        let config = TransferConfig {
            id,
            state: TransferState::Initializing(0),
            started: Instant::now(),
            copy,
        };
        self.sessions.push(config);
        assert(self.sessions@.drop_last() =~= old(self).sessions@);
        id
    }

    /// Looks for the session with exactly this id, wherever it stands now.
    pub fn find(&self, id: TransferSessionID) -> (r: Option<usize>)
        ensures
            match r {
                Some(slot) => slot == first_slot_of(self.sessions@, id) && slot < self.sessions@.len()
                    && self.sessions@[slot as int].id == id,
                None => first_slot_of(self.sessions@, id) == self.sessions@.len() && forall|i: int|
                    0 <= i < self.sessions@.len() ==> (#[trigger] self.sessions@[i]).id != id,
            },
    {
        let mut i: usize = 0;
        assert(self.sessions@.skip(0) =~= self.sessions@);
        while i < self.sessions.len()
            invariant
                i <= self.sessions@.len(),
                forall|k: int| 0 <= k < i ==> (#[trigger] self.sessions@[k]).id != id,
                first_slot_of(self.sessions@, id) == i + first_slot_of(
                    self.sessions@.skip(i as int),
                    id,
                ),
            decreases self.sessions@.len() - i,
        {
            let ghost rest = self.sessions@.skip(i as int);
            assert(rest.first() == self.sessions@[i as int]);
            assert(rest.drop_first() =~= self.sessions@.skip(i + 1));
            if self.sessions[i].id == id {
                return Some(i);
            }
            i += 1;
        }
        assert(self.sessions@.skip(i as int).len() == 0);
        None
    }

    /// Whether the session with this id is there and under way. Workers ask
    /// before every step and stop when it is not.
    pub fn is_live(&self, id: TransferSessionID) -> (r: bool)
        ensures
            r == (first_slot_of(self.sessions@, id) < self.sessions@.len() && self.sessions@[first_slot_of(
                self.sessions@,
                id,
            )].state.ongoing()),
    {
        match self.find(id) {
            None => false,
            Some(slot) => self.sessions[slot].is_ongoing(),
        }
    }

    /// Calls the session with this id off: if it is under way it fails, and
    /// its workers stop at their next step. Says whether there is such a session.
    pub fn cancel(&mut self, id: TransferSessionID) -> (found: bool)
        ensures
            found == (first_slot_of(old(self).sessions@, id) < old(self).sessions@.len()),
            final(self).sessions@.len() == old(self).sessions@.len(),
            forall|i: int|
                0 <= i < old(self).sessions@.len() ==> (#[trigger] final(self).sessions@[i]).summary()
                    == if i == first_slot_of(old(self).sessions@, id) {
                    Summary {
                        state: old(self).sessions@[i].state.broken(),
                        ..old(self).sessions@[i].summary()
                    }
                } else {
                    old(self).sessions@[i].summary()
                },
    {
        self.report(id, TransferEvent::Broke)
    }

    /// Takes a worker's event into the session with this id. Says whether
    /// there is such a session.
    pub fn report(&mut self, id: TransferSessionID, event: TransferEvent) -> (found: bool)
        ensures
            found == (first_slot_of(old(self).sessions@, id) < old(self).sessions@.len()),
            final(self).sessions@.len() == old(self).sessions@.len(),
            forall|i: int|
                0 <= i < old(self).sessions@.len() ==> (#[trigger] final(self).sessions@[i]).summary()
                    == if i == first_slot_of(old(self).sessions@, id) {
                    Summary {
                        state: old(self).sessions@[i].state.after(event),
                        ..old(self).sessions@[i].summary()
                    }
                } else {
                    old(self).sessions@[i].summary()
                },
    {
        match self.find(id) {
            None => false,
            Some(slot) => {
                let mut config = self.sessions[slot];
                config.apply(event);
                self.sessions.set(slot, config);
                true
            },
        }
    }
}

/// The sessions that are still under way, as a poller sees them.
pub fn get_all_active_sessions(registry: &SessionRegistry) -> (r: Vec<TransferMsg>)
    ensures
        msg_summaries(r@) == summaries(ongoing_sessions(registry.sessions@)),
{
    let mut out: Vec<TransferMsg> = Vec::new();
    let mut i: usize = 0;
    while i < registry.sessions.len()
        invariant
            i <= registry.sessions@.len(),
            msg_summaries(out@) == summaries(ongoing_sessions(registry.sessions@.take(i as int))),
        decreases registry.sessions@.len() - i,
    {
        let ghost before = out@;
        let ghost seen = registry.sessions@.take(i as int);
        let ghost next = registry.sessions@.take(i + 1);
        proof {
            assert(next =~= seen.push(registry.sessions@[i as int]));
            lemma_ongoing_push(seen, registry.sessions@[i as int]);
        }
        if registry.sessions[i].is_ongoing() {
            out.push(registry.sessions[i].read());
            assert(msg_summaries(out@) =~= msg_summaries(before).push(
                registry.sessions@[i as int].summary(),
            ));
            assert(summaries(ongoing_sessions(next)) =~= summaries(ongoing_sessions(seen)).push(
                registry.sessions@[i as int].summary(),
            ));
        }
        i += 1;
    }
    assert(registry.sessions@.take(i as int) =~= registry.sessions@);
    out
}

/// The session that `id` names, as a poller sees it. An id whose slot is
/// empty, or has gone to another session, names nothing.
pub fn get_session_with_id(registry: &SessionRegistry, id: TransferSessionID) -> (r: Option<
    TransferMsg,
>)
    ensures
        r is Some <==> session_named(registry.sessions@, id) is Some,
        r is Some ==> r->Some_0.summary() == session_named(registry.sessions@, id)->Some_0.summary(),
{
    if id.idx < 0 {
        return None;
    }
    let wanted: u64 = id.idx as u64;
    if wanted >= registry.sessions.len() as u64 {
        return None;
    }
    let idx: usize = wanted as usize;
    let session = &registry.sessions[idx];
    if id.parity == session.id.parity {
        Some(session.read())
    } else {
        None
    }
}

/// Drops the sessions that have ended. Those under way move up to fill the
/// slots, in their order.
pub fn clean_dead_sessions(registry: &mut SessionRegistry)
    ensures
        final(registry).sessions@ == ongoing_sessions(old(registry).sessions@),
{
    let mut kept: Vec<TransferConfig> = Vec::new();
    let mut i: usize = 0;
    while i < registry.sessions.len()
        invariant
            i <= registry.sessions@.len(),
            registry.sessions == old(registry).sessions,
            kept@ == ongoing_sessions(registry.sessions@.take(i as int)),
        decreases registry.sessions@.len() - i,
    {
        proof {
            let seen = registry.sessions@.take(i as int);
            assert(registry.sessions@.take(i + 1) =~= seen.push(registry.sessions@[i as int]));
            lemma_ongoing_push(seen, registry.sessions@[i as int]);
        }
        if registry.sessions[i].is_ongoing() {
            kept.push(registry.sessions[i]);
        }
        i += 1;
    }
    assert(registry.sessions@.take(i as int) =~= registry.sessions@);
    registry.sessions = kept;
}

/// Pastes what is on the clipboard: a session is added for the selection, to
/// copy what was copied and to move what was cut, and comes back with the
/// selection for the transfer to begin. With an empty clipboard nothing is
/// added and nothing comes back.
pub fn paste_items(clipboard: &mut Clipboard, registry: &mut SessionRegistry, parity: i64) -> (r:
    Option<(TransferSessionID, ClipboardItem)>)
    ensures
        final(clipboard)@ == left_by_paste(old(clipboard)@),
        match r {
            None => old(clipboard)@ is None && final(registry).sessions@ == old(registry).sessions@,
            Some((id, item)) => {
                &&& Some(item@) == old(clipboard)@
                &&& id.parity == parity
                &&& id.idx == next_slot(old(registry).sessions@)
                &&& final(registry).sessions@.len() == old(registry).sessions@.len() + 1
                &&& final(registry).sessions@.drop_last() == old(registry).sessions@
                &&& final(registry).sessions@.last().summary() == (Summary {
                    id,
                    state: TransferState::Initializing(0),
                    copy: item@ is Copied,
                })
            },
        },
{
    match clipboard.paste() {
        None => None,
        Some(item) => {
            let id = registry.add_new_session(!item.is_cut(), parity);
            Some((id, item))
        },
    }
}

/// The id that a new session gets finds that session, and no other, for as
/// long as the sessions stay in their slots.
pub proof fn lemma_new_session_is_found(before: Seq<TransferConfig>, session: TransferConfig)
    requires
        before.len() <= i64::MAX,
        session.id.idx == next_slot(before),
    ensures
        session_named(before.push(session), session.id) == Some(session),
        forall|id: TransferSessionID|
            0 <= id.idx < before.len() ==> session_named(before.push(session), id) == session_named(
                before,
                id,
            ),
{
}

/// After a clean-up every session that is left is under way, and those that
/// were under way are all still there, in the order they had.
pub proof fn lemma_cleanup_keeps_the_living(sessions: Seq<TransferConfig>)
    ensures
        forall|i: int|
            0 <= i < ongoing_sessions(sessions).len() ==> (#[trigger] ongoing_sessions(
                sessions,
            )[i]).state.ongoing(),
        ongoing_sessions(ongoing_sessions(sessions)) == ongoing_sessions(sessions),
    decreases sessions.len(),
{
    reveal(Seq::filter);
    if sessions.len() > 0 {
        lemma_cleanup_keeps_the_living(sessions.drop_last());
        let kept = ongoing_sessions(sessions.drop_last());
        if sessions.last().state.ongoing() {
            lemma_ongoing_push(kept, sessions.last());
            assert(ongoing_sessions(sessions) == kept.push(sessions.last()));
        } else {
            assert(ongoing_sessions(sessions) == kept);
        }
    } else {
        assert(ongoing_sessions(sessions) =~= sessions);
    }
}

} // verus!
