//! The state that the backend keeps between two commands, and the commands
//! that a poller has.

use crate::clipboard::{left_by_paste, ClipModel, Clipboard, ClipboardItem};
use crate::file::{models, PitouFile};
use crate::msg::{SearchMsg, TransferMsg, TransferSessionID, TransferState};
use crate::path::PitouFilePath;
use crate::search::{
    next_epoch, SearchSession, SearchType, SearchVariables, SessionModel, SimplifiedSearchOptions,
};
use crate::transfer::{
    first_slot_of, get_all_active_sessions, get_session_with_id, msg_summaries, next_slot, ongoing_sessions,
    paste_items,
    session_named, summaries, SessionRegistry, Summary,
};
use vstd::prelude::*;

verus! {

/// The search session, the clipboard and the transfer sessions of one backend.
pub struct Backend {
    pub search: SearchSession,
    pub clipboard: Clipboard,
    pub transfers: SessionRegistry,
}

impl Backend {
    /// A backend in which nothing is searched, held or transferred.
    pub fn new() -> (r: Self)
        ensures
            r.search@ == SessionModel::configured(0, 0),
            r.clipboard@ is None,
            r.transfers.sessions@.len() == 0,
    {
        Backend {
            search: SearchSession::new(),
            clipboard: Clipboard::new(),
            transfers: SessionRegistry::new(),
        }
    }

    /// Starts a search, as far as that happens at once. A request whose kind
    /// is unknown, whose key is no regular expression where one is asked
    /// for, or whose filter lets nothing through, changes nothing. Any other
    /// request replaces the search that was there, and what the branches of
    /// the new one need comes back.
    pub fn search(&mut self, options: SimplifiedSearchOptions) -> (r: Option<
        (SearchVariables, PitouFilePath),
    >)
        ensures
            final(self).clipboard == old(self).clipboard,
            final(self).transfers == old(self).transfers,
            match SearchType::parsed(options.search_kind, options.input) {
                Some(search_type) if !options.filter.spec_all_filtered() => {
                    &&& final(self).search@ == SessionModel::configured(
                        options.max_finds as nat,
                        next_epoch(old(self).search@.epoch),
                    )
                    &&& r is Some
                    &&& r->Some_0.0 == (SearchVariables {
                        filter: options.filter,
                        case_sensitive: options.case_sensitive,
                        depth: options.depth,
                        search_type,
                        skip_errors: options.skip_errors,
                        epoch: next_epoch(old(self).search@.epoch) as u64,
                    })
                    &&& r->Some_0.1 == options.search_dir.path
                },
                _ => r is None && final(self).search == old(self).search,
            },
    {
        match options.try_into() {
            Some(options) => self.search.search(options),
            None => None,
        }
    }

    /// The finds since the last call, without waiting for more.
    pub fn search_msg(&mut self) -> (msg: SearchMsg)
        ensures
            msg.files() == old(self).search@.buffer,
            (msg is Terminated) == old(self).search@.is_terminated(),
            final(self).search@ == old(self).search@.drained(),
            final(self).clipboard == old(self).clipboard,
            final(self).transfers == old(self).transfers,
    {
        self.search.read()
    }

    /// Calls the search off. Calling it off twice is calling it off once.
    pub fn terminate_search(&mut self)
        ensures
            final(self).search@ == old(self).search@.terminated(),
            final(self).clipboard == old(self).clipboard,
            final(self).transfers == old(self).transfers,
    {
        self.search.terminate_stream()
    }

    pub fn is_searching(&self) -> (r: bool)
        ensures
            r == !self.search@.is_terminated(),
    {
        !self.search.is_terminated()
    }

    pub fn copy(&mut self, items: Vec<PitouFile>)
        ensures
            final(self).clipboard@ == Some(ClipModel::Copied(models(items@))),
            final(self).search == old(self).search,
            final(self).transfers == old(self).transfers,
    {
        self.clipboard.copy(items)
    }

    pub fn cut(&mut self, items: Vec<PitouFile>)
        ensures
            final(self).clipboard@ == Some(ClipModel::Cut(models(items@))),
            final(self).search == old(self).search,
            final(self).transfers == old(self).transfers,
    {
        self.clipboard.cut(items)
    }

    pub fn clipboard_empty(&self) -> (r: bool)
        ensures
            r == (self.clipboard@ is None),
    {
        self.clipboard.is_empty()
    }

    /// Pastes the clipboard: adds a transfer session for what is on it and
    /// hands back the session's id with the selection.
    pub fn paste(&mut self, parity: i64) -> (r: Option<(TransferSessionID, ClipboardItem)>)
        ensures
            final(self).search == old(self).search,
            final(self).clipboard@ == left_by_paste(old(self).clipboard@),
            match r {
                None => old(self).clipboard@ is None && final(self).transfers.sessions@ == old(
                    self
                ).transfers.sessions@,
                Some((id, item)) => {
                    &&& Some(item@) == old(self).clipboard@
                    &&& id.parity == parity
                    &&& id.idx == next_slot(old(self).transfers.sessions@)
                    &&& final(self).transfers.sessions@.len() == old(self).transfers.sessions@.len()
                        + 1
                    &&& final(self).transfers.sessions@.drop_last() == old(self).transfers.sessions@
                    &&& final(self).transfers.sessions@.last().summary() == (Summary {
                        id,
                        state: TransferState::Initializing(0),
                        copy: item@ is Copied,
                    })
                },
            },
    {
        paste_items(&mut self.clipboard, &mut self.transfers, parity)
    }

    /// Calls a transfer off. Says whether there is a session with this id.
    pub fn cancel_transfer(&mut self, id: TransferSessionID) -> (found: bool)
        ensures
            final(self).search == old(self).search,
            final(self).clipboard == old(self).clipboard,
            found == (first_slot_of(old(self).transfers.sessions@, id) < old(
                self
            ).transfers.sessions@.len()),
            final(self).transfers.sessions@.len() == old(self).transfers.sessions@.len(),
            forall|i: int|
                0 <= i < old(self).transfers.sessions@.len() ==> (#[trigger] final(
                    self
                ).transfers.sessions@[i]).summary() == if i == first_slot_of(
                    old(self).transfers.sessions@,
                    id,
                ) {
                    Summary {
                        state: old(self).transfers.sessions@[i].state.broken(),
                        ..old(self).transfers.sessions@[i].summary()
                    }
                } else {
                    old(self).transfers.sessions@[i].summary()
                },
    {
        self.transfers.cancel(id)
    }

    /// The transfers that are under way.
    pub fn transfer_sessions(&self) -> (r: Vec<TransferMsg>)
        ensures
            msg_summaries(r@) == summaries(ongoing_sessions(self.transfers.sessions@)),
    {
        get_all_active_sessions(&self.transfers)
    }

    /// The transfer that `id` names, or nothing: a session that is gone is done.
    pub fn transfer_session_with_id(&self, id: TransferSessionID) -> (r: Option<TransferMsg>)
        ensures
            r is Some <==> session_named(self.transfers.sessions@, id) is Some,
            r is Some ==> r->Some_0.summary() == session_named(
                self.transfers.sessions@,
                id,
            )->Some_0.summary(),
    {
        get_session_with_id(&self.transfers, id)
    }
}

} // verus!
