//! The recursive walk of a search, and what it can and cannot find.

use crate::file::{FileModel, PitouFile};
use crate::path::PitouFilePath;
use crate::search::{next_epoch, SearchOptions, SearchSession, SearchVariables, SessionModel};
use crate::tree::TreeNode;
use vstd::prelude::*;

verus! {

/// What a walk meets on its way: a find, or a directory that it cannot list.
pub ghost enum WalkEvent {
    Found(FileModel),
    Unreadable,
}

/// The events of walking the entries of one directory in order, `depth`
/// levels being left to go down, this one counted.
pub open spec fn level_log(entries: Seq<TreeNode>, vars: SearchVariables, depth: nat) -> Seq<
    WalkEvent,
>
    decreases depth, 1nat, entries.len(),
{
    if depth == 0 || entries.len() == 0 {
        Seq::empty()
    } else {
        level_log(entries.drop_last(), vars, depth) + entry_log(entries.last(), vars, depth)
    }
}

/// The events of one entry: first what lies below it, if it is a directory,
/// then the entry itself, if it is a find.
pub open spec fn entry_log(entry: TreeNode, vars: SearchVariables, depth: nat) -> Seq<WalkEvent>
    decreases depth, 0nat, 0nat,
{
    if depth == 0 {
        Seq::empty()
    } else {
        let below = if entry.file@.is_dir() {
            dir_log(entry.children, vars, (depth - 1) as nat)
        } else {
            Seq::empty()
        };
        let own = if vars.includes(entry.file@) {
            seq![WalkEvent::Found(entry.file@)]
        } else {
            Seq::empty()
        };
        below + own
    }
}

/// The events of walking into a directory with `depth` levels left. With
/// none left the directory is not even listed.
pub open spec fn dir_log(children: Option<Vec<TreeNode>>, vars: SearchVariables, depth: nat) -> Seq<
    WalkEvent,
>
    decreases depth, 2nat, 0nat,
{
    if depth == 0 {
        Seq::empty()
    } else {
        match children {
            None => seq![WalkEvent::Unreadable],
            Some(entries) => level_log(entries@, vars, depth),
        }
    }
}

impl SessionModel {
    /// A session in which every branch is cancelled once the budget is gone.
    pub open spec fn settled(self) -> bool {
        self.budget == 0 ==> self.pending == 0
    }

    /// What one event of a walk does to the session. A walk that finds the
    /// session terminated does nothing more.
    pub open spec fn step(self, event: WalkEvent, skip_errors: bool) -> SessionModel {
        if self.budget == 0 {
            self
        } else {
            match event {
                WalkEvent::Found(find) => self.written(find),
                WalkEvent::Unreadable => self.read_failed(skip_errors),
            }
        }
    }

    /// What the events of a walk do to the session, one after the other.
    pub open spec fn run(self, log: Seq<WalkEvent>, skip_errors: bool) -> SessionModel
        decreases log.len(),
    {
        if log.len() == 0 {
            self
        } else {
            self.run(log.drop_last(), skip_errors).step(log.last(), skip_errors)
        }
    }
}

/// Running two logs one after the other is running their concatenation.
pub proof fn lemma_run_concat(m: SessionModel, a: Seq<WalkEvent>, b: Seq<WalkEvent>, skip: bool)
    ensures
        m.run(a + b, skip) == m.run(a, skip).run(b, skip),
    decreases b.len(),
{
    if b.len() == 0 {
        assert(a + b =~= a);
    } else {
        assert((a + b).drop_last() =~= a + b.drop_last());
        assert((a + b).last() == b.last());
        lemma_run_concat(m, a, b.drop_last(), skip);
    }
}

/// A terminated session is not changed by any walk.
pub proof fn lemma_run_terminated(m: SessionModel, log: Seq<WalkEvent>, skip: bool)
    requires
        m.budget == 0,
    ensures
        m.run(log, skip) == m,
    decreases log.len(),
{
    if log.len() > 0 {
        lemma_run_terminated(m, log.drop_last(), skip);
    }
}

/// A walk never takes more than the budget allows: what it adds to the
/// buffer it takes from the budget, the buffer only grows at its end, and
/// once the budget is gone no branch is left to cancel.
pub proof fn lemma_budget_bounds_finds(m: SessionModel, log: Seq<WalkEvent>, skip: bool)
    requires
        m.settled(),
    ensures
        m.run(log, skip).settled(),
        m.run(log, skip).budget <= m.budget,
        m.run(log, skip).buffer.len() - m.buffer.len() <= m.budget - m.run(log, skip).budget,
        m.buffer.is_prefix_of(m.run(log, skip).buffer),
        m.run(log, skip).pending <= m.pending,
        m.run(log, skip).epoch == m.epoch,
    decreases log.len(),
{
    if log.len() > 0 {
        lemma_budget_bounds_finds(m, log.drop_last(), skip);
        let before = m.run(log.drop_last(), skip);
        let after = before.step(log.last(), skip);
        assert(before.buffer.is_prefix_of(after.buffer));
    }
}

/// A search that is set up for `max_finds` finds never holds more than that,
/// whatever tree it walks.
pub proof fn lemma_at_most_max_finds(max_finds: nat, epoch: nat, log: Seq<WalkEvent>, skip: bool)
    ensures
        SessionModel::configured(max_finds, epoch).run(log, skip).buffer.len() <= max_finds,
        SessionModel::configured(max_finds, epoch).run(log, skip).is_terminated()
            ==> SessionModel::configured(max_finds, epoch).run(log, skip).pending == 0,
{
    lemma_budget_bounds_finds(SessionModel::configured(max_finds, epoch), log, skip);
}

/// Every file that a walk adds to the buffer is a find of its log.
pub proof fn lemma_buffer_holds_finds_only(
    m: SessionModel,
    log: Seq<WalkEvent>,
    skip: bool,
    i: int,
)
    requires
        m.buffer.len() <= i < m.run(log, skip).buffer.len(),
    ensures
        log.contains(WalkEvent::Found(m.run(log, skip).buffer[i])),
    decreases log.len(),
{
    if log.len() > 0 {
        let before = m.run(log.drop_last(), skip);
        let after = before.step(log.last(), skip);
        if i < before.buffer.len() {
            lemma_buffer_holds_finds_only(m, log.drop_last(), skip, i);
            let k = choose|k: int|
                0 <= k < log.drop_last().len() && log.drop_last()[k] == WalkEvent::Found(
                    before.buffer[i],
                );
            assert(log[k] == WalkEvent::Found(after.buffer[i]));
        } else {
            assert(log[log.len() - 1] == WalkEvent::Found(after.buffer[i]));
        }
    }
}

/// `file` is the file of the entry, or of an entry that a walk gets to from
/// it with `depth` levels left, the entry's own level counted: by going
/// down through directories that can be listed, and through nothing else.
pub open spec fn reaches(entry: TreeNode, file: FileModel, depth: nat) -> bool
    decreases depth, 0nat,
{
    depth > 0 && (entry.file@ == file || (entry.file@.is_dir() && entry.children is Some
        && within_levels(entry.children->Some_0@, file, (depth - 1) as nat)))
}

/// `file` is the file of an entry that lies at most `depth` levels below the
/// directory whose entries are given, its own entries being the first level.
pub open spec fn within_levels(entries: Seq<TreeNode>, file: FileModel, depth: nat) -> bool
    decreases depth, 1nat,
{
    depth > 0 && exists|i: int| 0 <= i < entries.len() && reaches(#[trigger] entries[i], file, depth)
}

/// With no level to go nothing is within reach, and with one level to go
/// only the directory's own entries are.
pub proof fn lemma_one_level_is_the_entries(entries: Seq<TreeNode>, file: FileModel)
    ensures
        !within_levels(entries, file, 0),
        within_levels(entries, file, 1) <==> exists|i: int|
            0 <= i < entries.len() && (#[trigger] entries[i]).file@ == file,
{
    reveal_with_fuel(within_levels, 2);
    reveal_with_fuel(reaches, 2);
    if within_levels(entries, file, 1) {
        let i = choose|i: int| 0 <= i < entries.len() && reaches(#[trigger] entries[i], file, 1);
        assert(!within_levels(entries[i].children->Some_0@, file, 0));
        assert(entries[i].file@ == file);
    }
    if exists|i: int| 0 <= i < entries.len() && (#[trigger] entries[i]).file@ == file {
        let i = choose|i: int| 0 <= i < entries.len() && (#[trigger] entries[i]).file@ == file;
        assert(reaches(entries[i], file, 1));
    }
}

/// A find is in one of two logs exactly if it is in the one made of both.
proof fn lemma_found_in_either(a: Seq<WalkEvent>, b: Seq<WalkEvent>, event: WalkEvent)
    ensures
        (a + b).contains(event) <==> a.contains(event) || b.contains(event),
{
    if a.contains(event) {
        let k = choose|k: int| 0 <= k < a.len() && a[k] == event;
        assert((a + b)[k] == event);
    }
    if b.contains(event) {
        let k = choose|k: int| 0 <= k < b.len() && b[k] == event;
        assert((a + b)[a.len() + k] == event);
    }
    if (a + b).contains(event) {
        let k = choose|k: int| 0 <= k < (a + b).len() && (a + b)[k] == event;
        if k < a.len() {
            assert(a[k] == event);
        } else {
            assert(b[k - a.len()] == event);
        }
    }
}

proof fn lemma_level_finds(entries: Seq<TreeNode>, vars: SearchVariables, depth: nat, file: FileModel)
    ensures
        level_log(entries, vars, depth).contains(WalkEvent::Found(file)) <==> vars.includes(file)
            && within_levels(entries, file, depth),
    decreases depth, 1nat, entries.len(),
{
    let found = WalkEvent::Found(file);
    reveal_with_fuel(within_levels, 2);
    reveal_with_fuel(reaches, 2);
    if depth == 0 || entries.len() == 0 {
        assert(!level_log(entries, vars, depth).contains(found));
    } else {
        let head = level_log(entries.drop_last(), vars, depth);
        let tail = entry_log(entries.last(), vars, depth);
        let last = entries.len() - 1;
        lemma_found_in_either(head, tail, found);
        lemma_level_finds(entries.drop_last(), vars, depth, file);
        lemma_entry_finds(entries.last(), vars, depth, file);
        if within_levels(entries.drop_last(), file, depth) {
            let i = choose|i: int|
                0 <= i < entries.drop_last().len() && reaches(
                    #[trigger] entries.drop_last()[i],
                    file,
                    depth,
                );
            assert(reaches(entries[i], file, depth));
        }
        if reaches(entries.last(), file, depth) {
            assert(reaches(entries[last], file, depth));
        }
        if within_levels(entries, file, depth) {
            let i = choose|i: int| 0 <= i < entries.len() && reaches(#[trigger] entries[i], file, depth);
            if i < last {
                assert(reaches(entries.drop_last()[i], file, depth));
            }
        }
    }
}

proof fn lemma_entry_finds(entry: TreeNode, vars: SearchVariables, depth: nat, file: FileModel)
    ensures
        entry_log(entry, vars, depth).contains(WalkEvent::Found(file)) <==> vars.includes(file)
            && reaches(entry, file, depth),
    decreases depth, 0nat, 0nat,
{
    let found = WalkEvent::Found(file);
    reveal_with_fuel(within_levels, 2);
    reveal_with_fuel(reaches, 2);
    if depth > 0 {
        let below = if entry.file@.is_dir() {
            dir_log(entry.children, vars, (depth - 1) as nat)
        } else {
            Seq::empty()
        };
        let own = if vars.includes(entry.file@) {
            seq![WalkEvent::Found(entry.file@)]
        } else {
            Seq::empty()
        };
        lemma_found_in_either(below, own, found);
        if entry.file@.is_dir() {
            lemma_dir_finds(entry.children, vars, (depth - 1) as nat, file);
        } else {
            assert(!below.contains(found));
        }
        if vars.includes(entry.file@) {
            assert(own[0] == WalkEvent::Found(entry.file@));
            assert(own.contains(found) <==> entry.file@ == file);
        } else {
            assert(!own.contains(found));
        }
    } else {
        assert(!entry_log(entry, vars, depth).contains(found));
    }
}

proof fn lemma_dir_finds(
    children: Option<Vec<TreeNode>>,
    vars: SearchVariables,
    depth: nat,
    file: FileModel,
)
    ensures
        dir_log(children, vars, depth).contains(WalkEvent::Found(file)) <==> vars.includes(file)
            && children is Some && within_levels(children->Some_0@, file, depth),
    decreases depth, 2nat, 0nat,
{
    let found = WalkEvent::Found(file);
    let log = dir_log(children, vars, depth);
    reveal_with_fuel(within_levels, 2);
    reveal_with_fuel(reaches, 2);
    if depth > 0 {
        match children {
            None => {
                if log.contains(found) {
                    let k = choose|k: int| 0 <= k < log.len() && log[k] == found;
                    assert(log[k] == WalkEvent::Unreadable);
                }
            },
            Some(entries) => {
                lemma_level_finds(entries@, vars, depth, file);
            },
        }
    } else {
        assert(!log.contains(found));
    }
}

/// What a walk finds is exactly what the search asks for among the entries
/// that are within its depth: nothing below that level, nothing that does
/// not match, and nothing that matches is passed over. With no level to go
/// it finds nothing at all.
pub proof fn lemma_depth_bounds_finds(
    directory: TreeNode,
    vars: SearchVariables,
    depth: nat,
    file: FileModel,
)
    ensures
        dir_log(directory.children, vars, 0) == Seq::<WalkEvent>::empty(),
        dir_log(directory.children, vars, depth).contains(WalkEvent::Found(file)) <==> {
            &&& vars.includes(file)
            &&& directory.children is Some
            &&& within_levels(directory.children->Some_0@, file, depth)
        },
{
    lemma_dir_finds(directory.children, vars, depth, file);
}

/// Whether a walk goes into an entry whose own entries have `deeper` levels
/// left: it does for a directory, as long as a level is left.
pub fn is_branch(file: &PitouFile, deeper: u8) -> (r: bool)
    ensures
        r == (file@.is_dir() && deeper > 0),
{
    file.is_dir() && deeper > 0
}

/// Walks a directory of the tree and everything below it that is within
/// `depth` levels, offering each find to the session. Nothing is done for a
/// session that is terminated or serves another search, nor with no level
/// left to go.
pub fn recursive_search(
    directory: &TreeNode,
    variables: &SearchVariables,
    depth: u8,
    session: &mut SearchSession,
)
    ensures
        final(session)@ == if old(session)@.serves(*variables) {
            old(session)@.run(
                dir_log(directory.children, *variables, depth as nat),
                variables.skip_errors,
            )
        } else {
            old(session)@
        },
    decreases depth,
{
    let ghost start = session@;
    let ghost skip = variables.skip_errors;
    let deeper: u8 = match session.descend(variables, depth) {
        Some(deeper) => deeper,
        None => {
            proof {
                if depth != 0 && start.is_terminated() {
                    lemma_run_terminated(
                        start,
                        dir_log(directory.children, *variables, depth as nat),
                        skip,
                    );
                }
            }
            return ;
        },
    };
    match &directory.children {
        None => {
            session.read_failed(variables);
            proof {
                let log = dir_log(directory.children, *variables, depth as nat);
                assert(log.drop_last() =~= Seq::<WalkEvent>::empty());
                assert(start.run(log.drop_last(), skip) == start);
            }
        },
        Some(entries) => {
            let mut i: usize = 0;
            while i < entries.len()
                invariant
                    i <= entries@.len(),
                    depth > 0,
                    deeper == depth - 1,
                    skip == variables.skip_errors,
                    start.settled(),
                    start.serves(*variables),
                    session@ == start.run(
                        level_log(entries@.take(i as int), *variables, depth as nat),
                        skip,
                    ),
                decreases entries@.len() - i,
            {
                let entry = &entries[i];
                let ghost done = level_log(entries@.take(i as int), *variables, depth as nat);
                let ghost at_entry = session@;
                proof {
                    lemma_budget_bounds_finds(start, done, skip);
                }
                let ghost below = if entry.file@.is_dir() {
                    dir_log(entry.children, *variables, deeper as nat)
                } else {
                    Seq::empty()
                };
                if is_branch(&entry.file, deeper) {
                    recursive_search(entry, variables, deeper, session);
                }
                let ghost after_below = session@;
                assert(after_below == at_entry.run(below, skip));
                proof {
                    lemma_budget_bounds_finds(at_entry, below, skip);
                }
                let ghost own = if variables.includes(entry.file@) {
                    seq![WalkEvent::Found(entry.file@)]
                } else {
                    Seq::empty()
                };
                let _ = session.offer(variables, entry.file.clone());
                proof {
                    if variables.includes(entry.file@) {
                        assert(own.drop_last() =~= Seq::<WalkEvent>::empty());
                        assert(after_below.run(own.drop_last(), skip) == after_below);
                    }
                    assert(session@ == after_below.run(own, skip));
                    lemma_run_concat(at_entry, below, own, skip);
                    lemma_run_concat(start, done, below + own, skip);
                    let next = entries@.take(i + 1);
                    assert(next.drop_last() =~= entries@.take(i as int));
                    assert(next.last() == entries@[i as int]);
                    assert(entry_log(*entry, *variables, depth as nat) == below + own);
                }
                i += 1;
            }
            proof {
                assert(entries@.take(i as int) =~= entries@);
                lemma_budget_bounds_finds(
                    start,
                    level_log(entries@, *variables, depth as nat),
                    skip,
                );
            }
        },
    }
}

impl SearchSession {
    /// The part of starting a search that happens at once. A filter that
    /// lets no file, directory or link through starts nothing and leaves the
    /// session as it is. Otherwise the session is set up for the new search,
    /// and what the branches need comes back.
    pub fn search(&mut self, options: SearchOptions) -> (r: Option<(SearchVariables, PitouFilePath)>)
        ensures
            options.filter.spec_all_filtered() ==> r is None && *final(self) == *old(self),
            !options.filter.spec_all_filtered() ==> {
                &&& r is Some
                &&& final(self)@ == SessionModel::configured(
                    options.max_finds as nat,
                    next_epoch(old(self)@.epoch),
                )
                &&& r->Some_0.0 == (SearchVariables {
                    filter: options.filter,
                    case_sensitive: options.case_sensitive,
                    depth: options.depth,
                    search_type: options.search_type,
                    skip_errors: options.skip_errors,
                    epoch: next_epoch(old(self)@.epoch) as u64,
                })
                &&& r->Some_0.1 == options.search_dir.path
            },
    {
        let max_finds = options.max_finds;
        let (variables, directory) = options.into_variables();
        if variables.filter.all_filtered() {
            return None;
        }
        self.configure_stream(max_finds);
        let mut variables = variables;
        variables.epoch = self.epoch();
        Some((variables, directory))
    }

    /// Runs a whole search on a tree held in memory: sets the session up,
    /// walks the tree from `root` down and ends the session. What was found
    /// waits in the buffer for the next read.
    pub fn search_tree(&mut self, options: SearchOptions, root: &TreeNode) -> (started: bool)
        ensures
            started == !options.filter.spec_all_filtered(),
            !started ==> final(self)@ == old(self)@,
            started ==> final(self)@ == SessionModel::configured(
                options.max_finds as nat,
                next_epoch(old(self)@.epoch),
            ).run(
                dir_log(
                    root.children,
                    SearchVariables {
                        filter: options.filter,
                        case_sensitive: options.case_sensitive,
                        depth: options.depth,
                        search_type: options.search_type,
                        skip_errors: options.skip_errors,
                        epoch: next_epoch(old(self)@.epoch) as u64,
                    },
                    options.depth as nat,
                ),
                options.skip_errors,
            ).terminated(),
    {
        match self.search(options) {
            None => false,
            Some((variables, _)) => {
                let ghost fresh = self@;
                recursive_search(root, &variables, variables.depth, self);
                proof {
                    lemma_budget_bounds_finds(
                        fresh,
                        dir_log(root.children, variables, variables.depth as nat),
                        variables.skip_errors,
                    );
                }
                let _ = self.proceed_to_finish_stream(&variables);
                true
            },
        }
    }
}

} // verus!
