//! The search engine: what to look for, and the session that collects finds
//! under a budget until it is read out.

use crate::extra::{
    bytes_contain, bytes_end_with, bytes_start_with, contains_ignore_case, ends_with_ignore_case,
    is_infix, is_prefix, is_suffix, starts_with_ignore_case,
};
use crate::file::{models, FileModel, PitouFile, PitouFileFilter};
use crate::msg::SearchMsg;
use crate::outside::{compiled_regex, regex_accepts};
use crate::path::PitouFilePath;
use vstd::prelude::*;
use vstd::utf8::encode_utf8;

verus! {

/// The rule that a name is held against.
#[derive(Debug)]
pub enum SearchType {
    Regex(regex::Regex),
    MatchBegining(String),
    MatchMiddle(String),
    MatchEnding(String),
}

impl SearchType {
    /// Whether a name passes the rule. A regular expression decides by
    /// itself; the other three compare UTF-8 bytes, with ASCII letters of
    /// either case taken for the same unless `sensitive` is set.
    pub open spec fn accepts(self, input: Seq<char>, sensitive: bool) -> bool {
        match self {
            SearchType::Regex(pattern) => regex_accepts(pattern, input),
            SearchType::MatchBegining(key) => is_prefix(
                encode_utf8(key@),
                encode_utf8(input),
                !sensitive,
            ),
            SearchType::MatchMiddle(key) => is_infix(
                encode_utf8(key@),
                encode_utf8(input),
                !sensitive,
            ),
            SearchType::MatchEnding(key) => is_suffix(
                encode_utf8(key@),
                encode_utf8(input),
                !sensitive,
            ),
        }
    }

    /// The rule that a kind number and a key stand for, if any: 0 is a
    /// regular expression, 1 a prefix, 2 a suffix, 3 a substring.
    pub open spec fn parsed(search_kind: u8, search_key: String) -> Option<SearchType> {
        if search_kind == 0 {
            match compiled_regex(search_key@) {
                Some(pattern) => Some(SearchType::Regex(pattern)),
                None => None,
            }
        } else if search_kind == 1 {
            Some(SearchType::MatchBegining(search_key))
        } else if search_kind == 2 {
            Some(SearchType::MatchEnding(search_key))
        } else if search_kind == 3 {
            Some(SearchType::MatchMiddle(search_key))
        } else {
            None
        }
    }

    /// The rule that the outcome of compiling a regular expression stands for.
    pub fn from_compiled(compiled: Result<regex::Regex, regex::Error>) -> (r: Option<Self>)
        ensures
            r == match compiled {
                Ok(pattern) => Some(SearchType::Regex(pattern)),
                Err(_) => None,
            },
    {
        match compiled {
            Ok(pattern) => Some(SearchType::Regex(pattern)),
            Err(_) => None,
        }
    }

    /// Builds the rule, compiling the key where the kind asks for a regular
    /// expression. A key that does not compile gives nothing.
    pub fn parse_if_regex(search_kind: u8, search_key: String) -> (r: Option<Self>)
        ensures
            r == Self::parsed(search_kind, search_key),
    {
        match search_kind {
            0 => Self::from_compiled(regex::Regex::new(search_key.as_str())),
            1 => Some(SearchType::MatchBegining(search_key)),
            2 => Some(SearchType::MatchEnding(search_key)),
            3 => Some(SearchType::MatchMiddle(search_key)),
            _ => None,
        }
    }

    pub fn matches(&self, input: &str, sensitive: bool) -> (r: bool)
        ensures
            r == self.accepts(input@, sensitive),
    {
        match self {
            Self::Regex(pattern) => pattern.is_match(input),
            Self::MatchBegining(key) => {
                if sensitive {
                    bytes_start_with(key.as_str().as_bytes(), input.as_bytes(), false)
                } else {
                    starts_with_ignore_case(key.as_str(), input)
                }
            },
            Self::MatchMiddle(key) => {
                if sensitive {
                    bytes_contain(key.as_str().as_bytes(), input.as_bytes(), false)
                } else {
                    contains_ignore_case(key.as_str(), input)
                }
            },
            Self::MatchEnding(key) => {
                if sensitive {
                    bytes_end_with(key.as_str().as_bytes(), input.as_bytes(), false)
                } else {
                    ends_with_ignore_case(key.as_str(), input)
                }
            },
        }
    }
}

/// The search form as the user fills it in.
#[derive(Debug)]
pub struct FrontendSearchOptions {
    pub input: String,
    pub search_kind: u8,
    pub depth: u8,
    pub case_sensitive: bool,
    pub hardware_accelerate: bool,
    pub skip_errors: bool,
    pub filter: PitouFileFilter,
    pub max_finds: usize,
}

impl Clone for FrontendSearchOptions {
    fn clone(&self) -> (r: Self)
        ensures
            r.input@ == self.input@,
            r.search_kind == self.search_kind,
            r.depth == self.depth,
            r.case_sensitive == self.case_sensitive,
            r.hardware_accelerate == self.hardware_accelerate,
            r.skip_errors == self.skip_errors,
            r.filter == self.filter,
            r.max_finds == self.max_finds,
    {
        Self {
            input: self.input.clone(),
            search_kind: self.search_kind,
            depth: self.depth,
            case_sensitive: self.case_sensitive,
            hardware_accelerate: self.hardware_accelerate,
            skip_errors: self.skip_errors,
            filter: self.filter,
            max_finds: self.max_finds,
        }
    }
}

impl FrontendSearchOptions {
    /// The form before the user has touched it: a prefix search without
    /// case, six levels deep, for at most 25 finds.
    pub fn init() -> (r: Self)
        ensures
            r.input@ == Seq::<char>::empty(),
            r.search_kind == 1,
            r.depth == 6,
            !r.case_sensitive,
            !r.hardware_accelerate,
            r.skip_errors,
            r.filter == (PitouFileFilter { files: true, links: true, dirs: true, sys_items: false }),
            r.max_finds == 25,
    {
        Self {
            input: String::new(),
            search_kind: 1,
            depth: 6,
            case_sensitive: false,
            hardware_accelerate: false,
            skip_errors: true,
            filter: PitouFileFilter::new(),
            max_finds: 25,
        }
    }
}

/// A search request as it crosses the wire: the rule is still a number and a key.
#[derive(Debug)]
pub struct SimplifiedSearchOptions {
    pub search_dir: PitouFile,
    pub input: String,
    pub search_kind: u8,
    pub depth: u8,
    pub case_sensitive: bool,
    pub hardware_accelerate: bool,
    pub skip_errors: bool,
    pub filter: PitouFileFilter,
    pub max_finds: usize,
}

/// A search request that is ready to run.
#[derive(Debug)]
pub struct SearchOptions {
    pub search_dir: PitouFile,
    pub hardware_accelerate: bool,
    pub filter: PitouFileFilter,
    pub case_sensitive: bool,
    pub depth: u8,
    pub search_type: SearchType,
    pub skip_errors: bool,
    pub max_finds: usize,
}

impl SimplifiedSearchOptions {
    /// The form's fields with the directory to search, which loses its metadata.
    pub fn build_from(options: FrontendSearchOptions, current_dir: &PitouFile) -> (r: Self)
        ensures
            r.search_dir@ == (FileModel { path: current_dir@.path, metadata: None }),
            r.input == options.input,
            r.search_kind == options.search_kind,
            r.depth == options.depth,
            r.case_sensitive == options.case_sensitive,
            r.hardware_accelerate == options.hardware_accelerate,
            r.skip_errors == options.skip_errors,
            r.filter == options.filter,
            r.max_finds == options.max_finds,
    {
        Self {
            search_dir: current_dir.clone_inner(),
            input: options.input,
            search_kind: options.search_kind,
            depth: options.depth,
            case_sensitive: options.case_sensitive,
            hardware_accelerate: options.hardware_accelerate,
            skip_errors: options.skip_errors,
            filter: options.filter,
            max_finds: options.max_finds,
        }
    }

    /// The request with its rule built. Nothing comes back where the kind is
    /// unknown or the key is no regular expression.
    pub fn try_into(self) -> (r: Option<SearchOptions>)
        ensures
            r == match SearchType::parsed(self.search_kind, self.input) {
                Some(search_type) => Some(
                    SearchOptions {
                        search_dir: self.search_dir,
                        hardware_accelerate: self.hardware_accelerate,
                        filter: self.filter,
                        case_sensitive: self.case_sensitive,
                        depth: self.depth,
                        search_type,
                        skip_errors: self.skip_errors,
                        max_finds: self.max_finds,
                    },
                ),
                None => None,
            },
    {
        if let Some(search_type) = SearchType::parse_if_regex(self.search_kind, self.input) {
            let obj = SearchOptions {
                search_dir: self.search_dir,
                filter: self.filter,
                case_sensitive: self.case_sensitive,
                hardware_accelerate: self.hardware_accelerate,
                skip_errors: self.skip_errors,
                depth: self.depth,
                max_finds: self.max_finds,
                search_type: search_type,
            };
            Some(obj)
        } else {
            None
        }
    }
}

/// What every branch of one search carries along.
#[derive(Debug)]
pub struct SearchVariables {
    pub filter: PitouFileFilter,
    pub case_sensitive: bool,
    pub depth: u8,
    pub search_type: SearchType,
    pub skip_errors: bool,
    /// The number of the search that the branches belong to. A session
    /// listens to the branches of the search that it was last set up for,
    /// and to no others.
    pub epoch: u64,
}

impl SearchVariables {
    /// A file is a find when the kind filter lets it through and its name
    /// passes the rule.
    pub open spec fn includes(&self, file: FileModel) -> bool {
        self.filter.admits(file) && self.search_type.accepts(file.name(), self.case_sensitive)
    }

    /// Decides for a file whose name is given.
    pub fn is_included_as(&self, file: &PitouFile, name: &str) -> (r: bool)
        ensures
            r == (self.filter.admits(file@) && self.search_type.accepts(name@, self.case_sensitive)),
    {
        ((file.is_file() && self.filter.files) || (file.is_dir() && self.filter.dirs) || (
        file.is_link() && self.filter.links) || (file.is_sys_item() && self.filter.sys_items))
            && self.search_type.matches(name, self.case_sensitive)
    }

    pub fn is_included(&self, file: &PitouFile) -> (r: bool)
        ensures
            r == self.includes(file@),
    {
        self.is_included_as(file, file.name())
    }
}

impl SearchOptions {
    /// Splits the request into what the branches carry and where they
    /// start. The branches belong to no search yet: the session that takes
    /// the request gives them their number.
    pub fn into_variables(self) -> (r: (SearchVariables, PitouFilePath))
        ensures
            r.0 == (SearchVariables {
                filter: self.filter,
                case_sensitive: self.case_sensitive,
                depth: self.depth,
                search_type: self.search_type,
                skip_errors: self.skip_errors,
                epoch: 0,
            }),
            r.1 == self.search_dir.path,
    {
        let SearchOptions {
            search_dir,
            hardware_accelerate: _,
            filter,
            case_sensitive,
            depth,
            search_type,
            skip_errors,
            max_finds: _,
        } = self;
        (
            SearchVariables { filter, case_sensitive, depth, skip_errors, search_type, epoch: 0 },
            search_dir.path,
        )
    }
}

/// What the specifications say of a search session.
pub ghost struct SessionModel {
    /// How many more finds the session takes.
    pub budget: nat,
    /// The finds that no reader has taken yet, oldest first.
    pub buffer: Seq<FileModel>,
    /// How many branch tasks the session could still cancel.
    pub pending: nat,
    /// The number of the search that the session serves.
    pub epoch: nat,
}

/// The number of the search after search number `epoch`.
pub open spec fn next_epoch(epoch: nat) -> nat {
    if epoch >= u64::MAX {
        0
    } else {
        epoch + 1
    }
}

impl SessionModel {
    /// A session that has just been set up for `max_finds` finds, as search
    /// number `epoch`.
    pub open spec fn configured(max_finds: nat, epoch: nat) -> SessionModel {
        SessionModel { budget: max_finds, buffer: Seq::empty(), pending: 0, epoch }
    }

    /// Whether branches that carry these variables belong to the search that
    /// the session serves.
    pub open spec fn serves(self, variables: SearchVariables) -> bool {
        variables.epoch == self.epoch
    }

    pub open spec fn is_terminated(self) -> bool {
        self.budget == 0
    }

    /// The budget is given up; what is buffered stays for the reader.
    pub open spec fn terminated(self) -> SessionModel {
        SessionModel { budget: 0, ..self }
    }

    /// All branch tasks are cancelled.
    pub open spec fn aborted(self) -> SessionModel {
        SessionModel { pending: 0, ..self }
    }

    /// One more branch task is on record.
    pub open spec fn spawned(self) -> SessionModel {
        SessionModel { pending: self.pending + 1, ..self }
    }

    /// A find is offered. With budget left it is buffered and paid for, and
    /// the find that uses the budget up cancels every branch. Without budget
    /// it is dropped and the branches are cancelled.
    pub open spec fn written(self, find: FileModel) -> SessionModel {
        if self.budget == 0 {
            self.aborted()
        } else {
            SessionModel {
                budget: (self.budget - 1) as nat,
                buffer: self.buffer.push(find),
                pending: if self.budget == 1 {
                    0
                } else {
                    self.pending
                },
                ..self
            }
        }
    }

    /// The buffer has been handed to a reader.
    pub open spec fn drained(self) -> SessionModel {
        SessionModel { buffer: Seq::empty(), ..self }
    }

    /// A directory could not be listed. Unless errors are skipped, that ends
    /// the search: the budget is given up and every branch is cancelled.
    pub open spec fn read_failed(self, skip_errors: bool) -> SessionModel {
        if skip_errors {
            self
        } else {
            self.terminated().aborted()
        }
    }

    /// A branch offers a file. It is taken as a find where the branch
    /// belongs to the search that the session serves and the file is what
    /// the search asks for.
    pub open spec fn offered(self, variables: SearchVariables, file: FileModel) -> SessionModel {
        if self.serves(variables) && variables.includes(file) {
            self.written(file)
        } else {
            self
        }
    }

    /// A branch has spawned another. Its handle is put on record where the
    /// branch belongs to the search that the session serves.
    pub open spec fn spawned_by(self, variables: SearchVariables) -> SessionModel {
        if self.serves(variables) {
            self.spawned()
        } else {
            self
        }
    }

    /// A branch could not list its directory.
    pub open spec fn listing_failed(self, variables: SearchVariables) -> SessionModel {
        if self.serves(variables) {
            self.read_failed(variables.skip_errors)
        } else {
            self
        }
    }

    /// The root of a search winds the search down: the handles on record are
    /// handed over to be waited for or, with none on record, the session is
    /// ended.
    pub open spec fn wound_down(self, variables: SearchVariables) -> SessionModel {
        if !self.serves(variables) {
            self
        } else if self.pending == 0 {
            self.terminated()
        } else {
            self.aborted()
        }
    }
}

/// A search session: the budget of finds that is left, the finds that wait
/// for a reader, and the handles of the branch tasks that are under way.
pub struct SearchSession {
    finds: usize,
    stream: Vec<PitouFile>,
    handles: Vec<tokio::task::JoinHandle<()>>,
    epoch: u64,
}

impl View for SearchSession {
    type V = SessionModel;

    closed spec fn view(&self) -> SessionModel {
        SessionModel {
            budget: self.finds as nat,
            buffer: models(self.stream@),
            pending: self.tasks().len(),
            epoch: self.epoch as nat,
        }
    }
}

impl SearchSession {
    /// The handles of the branch tasks on record, oldest first.
    pub closed spec fn tasks(&self) -> Seq<tokio::task::JoinHandle<()>> {
        self.handles@
    }

    /// A session in which nothing is searched: no budget, nothing buffered.
    pub fn new() -> (r: Self)
        ensures
            r@ == SessionModel::configured(0, 0),
    {
        let r = SearchSession { finds: 0, stream: Vec::new(), handles: Vec::new(), epoch: 0 };
        assert(models(r.stream@) =~= Seq::<FileModel>::empty());
        r
    }

    /// The finds that the session still takes.
    pub fn remaining(&self) -> (r: usize)
        ensures
            r == self@.budget,
    {
        self.finds
    }

    /// The number of finds that wait for a reader.
    pub fn buffered(&self) -> (r: usize)
        ensures
            r == self@.buffer.len(),
    {
        self.stream.len()
    }

    /// The number of branch tasks on record.
    pub fn pending(&self) -> (r: usize)
        ensures
            r == self@.pending,
    {
        self.handles.len()
    }

    /// The number of the search that the session serves.
    pub fn epoch(&self) -> (r: u64)
        ensures
            r == self@.epoch,
    {
        self.epoch
    }

    /// Whether branches that carry these variables belong to the search that
    /// the session serves.
    pub fn is_serving(&self, variables: &SearchVariables) -> (r: bool)
        ensures
            r == self@.serves(*variables),
    {
        variables.epoch == self.epoch
    }

    /// Pays for one find if the budget allows it.
    pub fn count_and_proceed(&mut self) -> (r: bool)
        ensures
            r == !old(self)@.is_terminated(),
            final(self)@ == (SessionModel {
                budget: if r {
                    (old(self)@.budget - 1) as nat
                } else {
                    0
                },
                ..old(self)@
            }),
    {
        if self.finds == 0 {
            false
        } else {
            self.finds -= 1;
            true
        }
    }

    /// Gives the budget up. Finds that are offered later are dropped; what
    /// is buffered stays. Doing it twice changes nothing.
    pub fn terminate_stream(&mut self)
        ensures
            final(self)@ == old(self)@.terminated(),
    {
        self.finds = 0;
    }

    pub fn is_terminated(&self) -> (r: bool)
        ensures
            r == self@.is_terminated(),
    {
        self.finds == 0
    }

    /// Cancels every branch task on record, the youngest first.
    pub fn abort_remaining_ops(&mut self)
        ensures
            final(self)@ == old(self)@.aborted(),
    {
        while self.handles.len() > 0
            invariant
                self.finds == old(self).finds,
                self.stream == old(self).stream,
                self.epoch == old(self).epoch,
            decreases self.handles@.len(),
        {
            let handle = self.handles.pop().unwrap();
            handle.abort();
        }
    }

    /// Starts a session over for the next search: the branches of the one
    /// before are cancelled, the buffer is emptied and the budget is set.
    /// What branches of earlier searches still report is ignored from now on.
    pub fn configure_stream(&mut self, max_finds: usize)
        ensures
            final(self)@ == SessionModel::configured(max_finds as nat, next_epoch(old(self)@.epoch)),
    {
        self.abort_remaining_ops();
        self.stream = Vec::new();
        self.finds = max_finds;
        self.epoch = if self.epoch == u64::MAX {
            0
        } else {
            self.epoch + 1
        };
        assert(models(self.stream@) =~= Seq::<FileModel>::empty());
    }

    /// Takes everything that is buffered, without waiting. The batch is
    /// tagged by the state of the session at this moment.
    pub fn read(&mut self) -> (msg: SearchMsg)
        ensures
            msg.files() == old(self)@.buffer,
            (msg is Terminated) == old(self)@.is_terminated(),
            final(self)@ == old(self)@.drained(),
    {
        let mut batch: Vec<PitouFile> = Vec::new();
        std::mem::swap(&mut self.stream, &mut batch);
        assert(models(self.stream@) =~= Seq::<FileModel>::empty());
        if self.is_terminated() {
            SearchMsg::Terminated(batch)
        } else {
            SearchMsg::Active(batch)
        }
    }

    /// Offers a find to the session.
    pub fn write(&mut self, find: PitouFile)
        ensures
            final(self)@ == old(self)@.written(find@),
    {
        if self.count_and_proceed() {
            let ghost before = self.stream@;
            self.stream.push(find);
            assert(models(self.stream@) =~= models(before).push(find@));
            if self.finds == 0 {
                self.abort_remaining_ops();
            }
        } else {
            self.abort_remaining_ops()
        }
    }

    /// Offers a file that a branch has met. It is taken as a find where the
    /// branch belongs to the search that the session serves and the file is
    /// what the search asks for. Says whether it was taken for one.
    pub fn offer(&mut self, variables: &SearchVariables, file: PitouFile) -> (r: bool)
        ensures
            r == (old(self)@.serves(*variables) && variables.includes(file@)),
            final(self)@ == old(self)@.offered(*variables, file@),
            !r ==> final(self).tasks() == old(self).tasks(),
    {
        if self.is_serving(variables) && variables.is_included(&file) {
            self.write(file);
            true
        } else {
            false
        }
    }

    /// The levels that are left for the entries of a directory that a branch
    /// is about to list with `depth` levels left. Nothing where the branch
    /// must not list it: with no level left, in a session that is
    /// terminated, or in one that serves another search by now.
    pub fn descend(&self, variables: &SearchVariables, depth: u8) -> (r: Option<u8>)
        ensures
            r == if depth == 0 || self@.is_terminated() || !self@.serves(*variables) {
                None
            } else {
                Some((depth - 1) as u8)
            },
    {
        if depth == 0 || self.is_terminated() || !self.is_serving(variables) {
            None
        } else {
            Some(depth - 1)
        }
    }

    /// Puts the handle of a branch task that a branch has spawned on record.
    /// Where the branch belongs to a search that the session no longer
    /// serves, the task is cancelled instead.
    pub fn append_handle(&mut self, variables: &SearchVariables, handle: tokio::task::JoinHandle<()>)
        ensures
            final(self)@ == old(self)@.spawned_by(*variables),
            final(self).tasks() == if old(self)@.serves(*variables) {
                old(self).tasks().push(handle)
            } else {
                old(self).tasks()
            },
    {
        if self.is_serving(variables) {
            self.handles.push(handle);
        } else {
            handle.abort();
        }
    }

    /// Reports that a branch could not list its directory.
    pub fn read_failed(&mut self, variables: &SearchVariables)
        ensures
            final(self)@ == old(self)@.listing_failed(*variables),
    {
        if self.is_serving(variables) && !variables.skip_errors {
            self.terminate_stream();
            self.abort_remaining_ops();
        }
    }

    /// One step of winding the search down once the walk of the root has
    /// returned. While branch tasks are on record it hands them over, the
    /// youngest first, for the caller to wait for, and should be called
    /// again after that. With none left it ends the session. Where the
    /// session serves another search by now, nothing is done and nothing is
    /// handed over.
    pub fn proceed_to_finish_stream(&mut self, variables: &SearchVariables) -> (r: Option<
        Vec<tokio::task::JoinHandle<()>>,
    >)
        ensures
            final(self)@ == old(self)@.wound_down(*variables),
            r is Some <==> old(self)@.serves(*variables) && old(self)@.pending > 0,
            r is Some ==> r->Some_0@ == old(self).tasks().reverse(),
    {
        if !self.is_serving(variables) {
            return None;
        }
        if self.handles.len() == 0 {
            self.terminate_stream();
            return None;
        }
        let mut youngest_first: Vec<tokio::task::JoinHandle<()>> = Vec::new();
        while self.handles.len() > 0
            invariant
                self.finds == old(self).finds,
                self.stream == old(self).stream,
                self.epoch == old(self).epoch,
                self.handles@.len() + youngest_first@.len() == old(self).handles@.len(),
                self.handles@ == old(self).handles@.subrange(0, self.handles@.len() as int),
                forall|i: int|
                    0 <= i < youngest_first@.len() ==> youngest_first@[i] == old(
                        self,
                    ).handles@[old(self).handles@.len() - 1 - i],
            decreases self.handles@.len(),
        {
            let handle = self.handles.pop().unwrap();
            youngest_first.push(handle);
        }
        assert(youngest_first@ =~= old(self).handles@.reverse());
        Some(youngest_first)
    }
}

/// What can happen to a session between two looks at it. The branches of a
/// search run side by side, so these come in any order, and branches of
/// searches that came before may still be among them.
pub ghost enum SessionOp {
    /// A branch of the search with this number offers a find.
    Offer(nat, FileModel),
    /// A reader takes what is buffered.
    Read,
    /// The search is called off.
    Terminate,
    /// A branch of the search with this number has spawned another.
    Spawn(nat),
    /// A branch of the search with this number could not list its
    /// directory; the flag says whether the search skips errors.
    ReadFailed(nat, bool),
    /// The root of the search with this number winds the search down.
    WindDown(nat),
}

/// A session together with the books on it: what readers have been handed so
/// far, and which finds were taken into the buffer.
pub ghost struct Account {
    pub session: SessionModel,
    pub delivered: Seq<FileModel>,
    pub enqueued: Seq<FileModel>,
}

impl SessionModel {
    /// The session after one operation. What comes from a search that the
    /// session does not serve changes nothing.
    pub open spec fn after(self, op: SessionOp) -> SessionModel {
        match op {
            SessionOp::Offer(epoch, find) => if epoch == self.epoch {
                self.written(find)
            } else {
                self
            },
            SessionOp::Read => self.drained(),
            SessionOp::Terminate => self.terminated(),
            SessionOp::Spawn(epoch) => if epoch == self.epoch {
                self.spawned()
            } else {
                self
            },
            SessionOp::ReadFailed(epoch, skip_errors) => if epoch == self.epoch {
                self.read_failed(skip_errors)
            } else {
                self
            },
            SessionOp::WindDown(epoch) => if epoch != self.epoch {
                self
            } else if self.pending == 0 {
                self.terminated()
            } else {
                self.aborted()
            },
        }
    }

    /// Whether an operation puts a find into the buffer.
    pub open spec fn takes_in(self, op: SessionOp) -> bool {
        op matches SessionOp::Offer(epoch, _) && epoch == self.epoch && !self.is_terminated()
    }

    /// The books after a run of operations on the session.
    pub open spec fn account(self, ops: Seq<SessionOp>) -> Account
        decreases ops.len(),
    {
        if ops.len() == 0 {
            Account { session: self, delivered: Seq::empty(), enqueued: Seq::empty() }
        } else {
            let before = self.account(ops.drop_last());
            Account {
                session: before.session.after(ops.last()),
                delivered: if ops.last() is Read {
                    before.delivered + before.session.buffer
                } else {
                    before.delivered
                },
                enqueued: if before.session.takes_in(ops.last()) {
                    before.enqueued.push(ops.last()->Offer_1)
                } else {
                    before.enqueued
                },
            }
        }
    }
}

/// What the exec functions do to a session is what the operations say.
pub proof fn lemma_operations_are_what_branches_do(
    m: SessionModel,
    variables: SearchVariables,
    file: FileModel,
)
    ensures
        variables.includes(file) ==> m.offered(variables, file) == m.after(
            SessionOp::Offer(variables.epoch as nat, file),
        ),
        !variables.includes(file) ==> m.offered(variables, file) == m,
        m.spawned_by(variables) == m.after(SessionOp::Spawn(variables.epoch as nat)),
        m.listing_failed(variables) == m.after(
            SessionOp::ReadFailed(variables.epoch as nat, variables.skip_errors),
        ),
        m.wound_down(variables) == m.after(SessionOp::WindDown(variables.epoch as nat)),
{
}

/// Searches never interleave: what the branches of a search that has been
/// superseded still do leaves the session as it is.
pub proof fn lemma_superseded_search_changes_nothing(
    m: SessionModel,
    variables: SearchVariables,
    file: FileModel,
)
    requires
        !m.serves(variables),
    ensures
        m.offered(variables, file) == m,
        m.spawned_by(variables) == m,
        m.listing_failed(variables) == m,
        m.wound_down(variables) == m,
{
}

/// No find is lost and none is handed out twice: whatever the branches and
/// the readers do, and in whatever order, the batches that were read,
/// followed by what is still buffered, are what was buffered at the start
/// followed by the finds that were taken in, in that order. No more finds
/// are taken in than the budget allowed.
pub proof fn lemma_reads_deliver_every_find(m: SessionModel, ops: Seq<SessionOp>)
    ensures
        m.account(ops).delivered + m.account(ops).session.buffer == m.buffer + m.account(
            ops,
        ).enqueued,
        m.account(ops).enqueued.len() + m.account(ops).session.budget <= m.budget,
    decreases ops.len(),
{
    if ops.len() == 0 {
        assert(Seq::<FileModel>::empty() + m.buffer =~= m.buffer + Seq::<FileModel>::empty());
    } else {
        lemma_reads_deliver_every_find(m, ops.drop_last());
        let before = m.account(ops.drop_last());
        let after = m.account(ops);
        assert(before.delivered + before.session.buffer == m.buffer + before.enqueued);
        match ops.last() {
            SessionOp::Offer(epoch, find) => {
                if before.session.takes_in(ops.last()) {
                    assert(before.delivered + before.session.buffer.push(find) =~= (before.delivered
                        + before.session.buffer).push(find));
                    assert((m.buffer + before.enqueued).push(find) =~= m.buffer
                        + before.enqueued.push(find));
                }
            },
            SessionOp::Read => {
                assert((before.delivered + before.session.buffer) + Seq::<FileModel>::empty()
                    =~= before.delivered + before.session.buffer);
            },
            _ => {},
        }
    }
}

/// Once a search is terminated it stays terminated and takes nothing in,
/// whatever happens to it: what a reader gets from then on is what was
/// buffered when it ended, and after that nothing.
pub proof fn lemma_terminated_takes_nothing(m: SessionModel, ops: Seq<SessionOp>)
    requires
        m.is_terminated(),
    ensures
        m.account(ops).session.is_terminated(),
        m.account(ops).enqueued == Seq::<FileModel>::empty(),
        m.account(ops).delivered + m.account(ops).session.buffer == m.buffer,
    decreases ops.len(),
{
    lemma_reads_deliver_every_find(m, ops);
    if ops.len() > 0 {
        lemma_terminated_takes_nothing(m, ops.drop_last());
    }
    assert(m.buffer + Seq::<FileModel>::empty() =~= m.buffer);
}

/// The find that uses the budget up cancels every branch on record, and so
/// does a find that comes after it.
pub proof fn lemma_last_find_cancels_branches(m: SessionModel, find: FileModel)
    ensures
        m.after(SessionOp::Offer(m.epoch, find)).is_terminated() ==> m.after(
            SessionOp::Offer(m.epoch, find),
        ).pending == 0,
{
}

} // verus!
