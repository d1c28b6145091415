//! The two passes of a transfer over a tree held in memory: weighing what is
//! to be copied, and copying it with every step counted.

use crate::file::PitouFileKind;
use crate::msg::{TransferSize, TransferState};
use crate::outside::{file_name_of, joined_path, path_file_name, path_join};
use crate::path::PitouFilePath;
use crate::transfer::{TransferConfig, TransferEvent, HYPOTHETICAL_FOLDER_SIZE};
use crate::tree::TreeNode;
use vstd::prelude::*;
use vstd::string::StringExecFns;

verus! {

/// The most that is read and written in one step of copying a file.
pub const TRANSFER_BUFFER_SIZE: usize = 1024;

/// What one entry adds to the weight of a transfer by itself: a folder its
/// unit, anything else its length in bytes.
pub fn entry_weight(is_dir: bool, len: u64) -> (r: u64)
    ensures
        r == if is_dir {
            HYPOTHETICAL_FOLDER_SIZE
        } else {
            len
        },
{
    if is_dir {
        HYPOTHETICAL_FOLDER_SIZE
    } else {
        len
    }
}

/// Everything about the entry and below it is known: its kind and length,
/// and for a directory its entries, all of them readable in turn.
pub open spec fn readable(node: TreeNode) -> bool
    decreases node,
{
    match node.file.metadata {
        None => false,
        Some(metadata) => metadata.kind == PitouFileKind::Directory ==> match node.children {
            None => false,
            Some(entries) => all_readable(entries@),
        },
    }
}

pub open spec fn all_readable(nodes: Seq<TreeNode>) -> bool
    decreases nodes,
{
    nodes.len() > 0 ==> all_readable(nodes.drop_last()) && readable(nodes.last())
}

/// The weight of an entry in a transfer: for a directory its unit and the
/// weight of all that is below it, for anything else its length in bytes.
/// The size that a listing shows for a directory plays no part in it.
pub open spec fn weight(node: TreeNode) -> nat
    decreases node,
{
    match node.file.metadata {
        None => 0,
        Some(metadata) => if metadata.kind == PitouFileKind::Directory {
            match node.children {
                None => HYPOTHETICAL_FOLDER_SIZE as nat,
                Some(entries) => HYPOTHETICAL_FOLDER_SIZE as nat + weights(entries@),
            }
        } else {
            metadata.size.bytes as nat
        },
    }
}

/// The weight of a sequence of entries.
pub open spec fn weights(nodes: Seq<TreeNode>) -> nat
    decreases nodes,
{
    if nodes.len() == 0 {
        0
    } else {
        weights(nodes.drop_last()) + weight(nodes.last())
    }
}

/// Weighs an entry and everything below it. Nothing comes back where part of
/// it is unknown or the weight does not fit in `u64`.
pub fn compute_size(item: &TreeNode) -> (r: Option<u64>)
    ensures
        r is Some <==> readable(*item) && weight(*item) <= u64::MAX,
        r is Some ==> r->Some_0 == weight(*item),
    decreases item,
{
    match &item.file.metadata {
        None => None,
        Some(metadata) => {
            if metadata.is_dir() {
                match &item.children {
                    None => None,
                    Some(entries) => {
                        match compute_sizes(entries) {
                            None => None,
                            Some(below) => below.checked_add(HYPOTHETICAL_FOLDER_SIZE),
                        }
                    },
                }
            } else {
                Some(entry_weight(false, metadata.size.bytes))
            }
        },
    }
}

/// Weighs a list of entries.
pub fn compute_sizes(items: &Vec<TreeNode>) -> (r: Option<u64>)
    ensures
        r is Some <==> all_readable(items@) && weights(items@) <= u64::MAX,
        r is Some ==> r->Some_0 == weights(items@),
    decreases items,
{
    let mut sum: u64 = 0;
    let mut i: usize = 0;
    while i < items.len()
        invariant
            i <= items@.len(),
            all_readable(items@.take(i as int)),
            sum == weights(items@.take(i as int)),
        decreases items@.len() - i,
    {
        proof {
            assert(items@.take(i + 1).drop_last() =~= items@.take(i as int));
            lemma_weights_grow(items@.take(i + 1), items@);
            if all_readable(items@) {
                lemma_readable_prefix(items@.take(i + 1), items@);
            }
        }
        match compute_size(&items[i]) {
            None => {
                return None;
            },
            Some(w) => match sum.checked_add(w) {
                None => {
                    return None;
                },
                Some(next) => {
                    sum = next;
                },
            },
        }
        i += 1;
    }
    assert(items@.take(i as int) =~= items@);
    Some(sum)
}

/// A longer list weighs no less.
pub proof fn lemma_weights_grow(shorter: Seq<TreeNode>, longer: Seq<TreeNode>)
    requires
        shorter.is_prefix_of(longer),
    ensures
        weights(shorter) <= weights(longer),
    decreases longer.len(),
{
    if shorter.len() < longer.len() {
        assert(shorter.is_prefix_of(longer.drop_last()));
        lemma_weights_grow(shorter, longer.drop_last());
    } else {
        assert(shorter =~= longer);
    }
}

/// The start of a readable list is readable.
pub proof fn lemma_readable_prefix(shorter: Seq<TreeNode>, longer: Seq<TreeNode>)
    requires
        shorter.is_prefix_of(longer),
        all_readable(longer),
    ensures
        all_readable(shorter),
    decreases longer.len(),
{
    if shorter.len() < longer.len() {
        assert(shorter.is_prefix_of(longer.drop_last()));
        lemma_readable_prefix(shorter, longer.drop_last());
    } else {
        assert(shorter =~= longer);
    }
}

/// Where a source is written while it is copied: in the destination, under
/// its own name with a dot in front. Nothing where the source has no name.
pub open spec fn temp_path(src: Seq<char>, dst: Seq<char>) -> Option<Seq<char>> {
    match file_name_of(src) {
        Some(name) => Some(joined_path(dst, seq!['.'] + name)),
        None => None,
    }
}

/// Where a source ends up: in the destination, under its own name. Nothing
/// where the source has no name.
pub open spec fn real_path(src: Seq<char>, dst: Seq<char>) -> Option<Seq<char>> {
    match file_name_of(src) {
        Some(name) => Some(joined_path(dst, name)),
        None => None,
    }
}

/// The name that a file goes by while it is written: its own with a dot in front.
pub fn hidden_name(name: &str) -> (r: String)
    ensures
        r@ == seq!['.'] + name@,
{
    let mut hidden = String::from_str(".");
    hidden.append(name);
    proof {
        reveal_strlit(".");
        assert("."@ =~= seq!['.']);
    }
    hidden
}

pub fn dst_temp(src: &PitouFilePath, dst: &PitouFilePath) -> (r: Option<PitouFilePath>)
    ensures
        r is Some <==> temp_path(src@, dst@) is Some,
        r is Some ==> r->Some_0@ == temp_path(src@, dst@)->Some_0,
{
    match path_file_name(src.path.as_str()) {
        None => None,
        Some(name) => {
            let hidden = hidden_name(name);
            Some(PitouFilePath::from_pathbuf(path_join(dst.path.as_str(), hidden.as_str())))
        },
    }
}

pub fn dst_real(src: &PitouFilePath, dst: &PitouFilePath) -> (r: Option<PitouFilePath>)
    ensures
        r is Some <==> real_path(src@, dst@) is Some,
        r is Some ==> r->Some_0@ == real_path(src@, dst@)->Some_0,
{
    match path_file_name(src.path.as_str()) {
        None => None,
        Some(name) => Some(PitouFilePath::from_pathbuf(path_join(dst.path.as_str(), name))),
    }
}

/// One step of the plan of a copy, for whoever touches the disk.
#[derive(Debug)]
pub enum CopyOp {
    /// Create this directory.
    CreateDir { path: PitouFilePath },
    /// Write the `len` bytes of `src` to `temp`, then rename `temp` to `dest`.
    /// The rename is what makes the copy appear under its name.
    CopyFile { src: PitouFilePath, temp: PitouFilePath, dest: PitouFilePath, len: u64 },
}

/// What the specifications say of a `CopyOp`.
pub ghost enum OpModel {
    CreateDir { path: Seq<char> },
    CopyFile { src: Seq<char>, temp: Seq<char>, dest: Seq<char>, len: u64 },
}

impl View for CopyOp {
    type V = OpModel;

    open spec fn view(&self) -> OpModel {
        match self {
            CopyOp::CreateDir { path } => OpModel::CreateDir { path: path@ },
            CopyOp::CopyFile { src, temp, dest, len } => OpModel::CopyFile {
                src: src@,
                temp: temp@,
                dest: dest@,
                len: *len,
            },
        }
    }
}

/// The models of a sequence of steps.
pub open spec fn op_models(ops: Seq<CopyOp>) -> Seq<OpModel> {
    ops.map_values(|op: CopyOp| op@)
}

/// The entry and all that is below it can be copied: it is readable, and
/// every path in it has a final component to name the copy by.
pub open spec fn copyable(node: TreeNode) -> bool
    decreases node,
{
    &&& file_name_of(node.file@.path) is Some
    &&& match node.file.metadata {
        None => false,
        Some(metadata) => metadata.kind == PitouFileKind::Directory ==> match node.children {
            None => false,
            Some(entries) => all_copyable(entries@),
        },
    }
}

pub open spec fn all_copyable(nodes: Seq<TreeNode>) -> bool
    decreases nodes,
{
    nodes.len() > 0 ==> all_copyable(nodes.drop_last()) && copyable(nodes.last())
}

/// The steps of copying an entry into `dst`: a directory is created and then
/// filled, anything else is copied as a file.
pub open spec fn plan_of(node: TreeNode, dst: Seq<char>) -> Seq<OpModel>
    decreases node,
{
    let dest = real_path(node.file@.path, dst)->Some_0;
    match node.file.metadata {
        None => Seq::empty(),
        Some(metadata) => if metadata.kind == PitouFileKind::Directory {
            match node.children {
                None => seq![OpModel::CreateDir { path: dest }],
                Some(entries) => seq![OpModel::CreateDir { path: dest }] + plans_of(entries@, dest),
            }
        } else {
            seq![
                OpModel::CopyFile {
                    src: node.file@.path,
                    temp: temp_path(node.file@.path, dst)->Some_0,
                    dest,
                    len: metadata.size.bytes,
                },
            ]
        },
    }
}

/// The steps of copying a sequence of entries into `dst`, one after the other.
pub open spec fn plans_of(nodes: Seq<TreeNode>, dst: Seq<char>) -> Seq<OpModel>
    decreases nodes,
{
    if nodes.len() == 0 {
        Seq::empty()
    } else {
        plans_of(nodes.drop_last(), dst) + plan_of(nodes.last(), dst)
    }
}

/// What can be copied can be read.
pub proof fn lemma_copyable_is_readable(node: TreeNode)
    requires
        copyable(node),
    ensures
        readable(node),
    decreases node,
{
    match node.file.metadata {
        None => {},
        Some(metadata) => {
            if metadata.kind == PitouFileKind::Directory {
                lemma_all_copyable_is_readable(node.children->Some_0@);
            }
        },
    }
}

pub proof fn lemma_all_copyable_is_readable(nodes: Seq<TreeNode>)
    requires
        all_copyable(nodes),
    ensures
        all_readable(nodes),
    decreases nodes,
{
    if nodes.len() > 0 {
        lemma_all_copyable_is_readable(nodes.drop_last());
        lemma_copyable_is_readable(nodes.last());
    }
}

/// The start of a list that can be copied can be copied.
pub proof fn lemma_copyable_prefix(shorter: Seq<TreeNode>, longer: Seq<TreeNode>)
    requires
        shorter.is_prefix_of(longer),
        all_copyable(longer),
    ensures
        all_copyable(shorter),
    decreases longer.len(),
{
    if shorter.len() < longer.len() {
        assert(shorter.is_prefix_of(longer.drop_last()));
        lemma_copyable_prefix(shorter, longer.drop_last());
    } else {
        assert(shorter =~= longer);
    }
}

/// Checks that an entry and all that is below it can be copied.
pub fn can_copy(node: &TreeNode) -> (r: bool)
    ensures
        r == copyable(*node),
    decreases node,
{
    if path_file_name(node.file.path.path.as_str()).is_none() {
        return false;
    }
    match &node.file.metadata {
        None => false,
        Some(metadata) => {
            if metadata.is_dir() {
                match &node.children {
                    None => false,
                    Some(entries) => can_copy_all(entries),
                }
            } else {
                true
            }
        },
    }
}

/// Checks that every entry of a list can be copied.
pub fn can_copy_all(nodes: &Vec<TreeNode>) -> (r: bool)
    ensures
        r == all_copyable(nodes@),
    decreases nodes,
{
    let mut i: usize = 0;
    while i < nodes.len()
        invariant
            i <= nodes@.len(),
            all_copyable(nodes@.take(i as int)),
        decreases nodes@.len() - i,
    {
        proof {
            assert(nodes@.take(i + 1).drop_last() =~= nodes@.take(i as int));
            if all_copyable(nodes@) {
                lemma_copyable_prefix(nodes@.take(i + 1), nodes@);
            }
        }
        if !can_copy(&nodes[i]) {
            return false;
        }
        i += 1;
    }
    assert(nodes@.take(i as int) =~= nodes@);
    true
}

/// The copy of one file: where it is written, where it ends up, and how far
/// it has got.
#[derive(Debug)]
pub struct CopyFileSession {
    pub src: PitouFilePath,
    pub temp_dst_path: PitouFilePath,
    pub real_dst_path: PitouFilePath,
    pub seek_ptr: u64,
    pub len: u64,
}

impl CopyFileSession {
    /// How many bytes are asked for next: a buffer full, or what is left of
    /// the file if that is less.
    pub open spec fn chunk(&self) -> nat {
        if self.seek_ptr >= self.len {
            0
        } else if self.len - self.seek_ptr > TRANSFER_BUFFER_SIZE {
            TRANSFER_BUFFER_SIZE as nat
        } else {
            (self.len - self.seek_ptr) as nat
        }
    }

    /// Plans the copy of the file at `src`, `len` bytes long, into `dst`.
    /// Nothing comes back where the source has no name.
    pub fn new(src: &PitouFilePath, len: u64, dst: &PitouFilePath) -> (r: Option<Self>)
        ensures
            r is Some <==> file_name_of(src@) is Some,
            r is Some ==> {
                &&& r->Some_0.src@ == src@
                &&& Some(r->Some_0.temp_dst_path@) == temp_path(src@, dst@)
                &&& Some(r->Some_0.real_dst_path@) == real_path(src@, dst@)
                &&& r->Some_0.seek_ptr == 0
                &&& r->Some_0.len == len
            },
    {
        let temp_dst_path = match dst_temp(src, dst) {
            Some(path) => path,
            None => {
                return None;
            },
        };
        let real_dst_path = match dst_real(src, dst) {
            Some(path) => path,
            None => {
                return None;
            },
        };
        Some(Self { src: src.clone(), temp_dst_path, real_dst_path, seek_ptr: 0, len })
    }

    pub fn is_complete(&self) -> (r: bool)
        ensures
            r == (self.seek_ptr >= self.len),
    {
        self.seek_ptr >= self.len
    }

    pub fn next_chunk(&self) -> (r: usize)
        ensures
            r == self.chunk(),
            r <= TRANSFER_BUFFER_SIZE,
            r == 0 <==> self.seek_ptr >= self.len,
    {
        if self.seek_ptr >= self.len {
            0
        } else {
            let left: u64 = self.len - self.seek_ptr;
            if left > TRANSFER_BUFFER_SIZE as u64 {
                TRANSFER_BUFFER_SIZE
            } else {
                left as usize
            }
        }
    }

    /// Takes note that `cnt` more bytes have been written, and says what
    /// that adds to the progress of the transfer.
    pub fn advance(&mut self, cnt: usize) -> (r: u64)
        requires
            cnt <= old(self).chunk(),
        ensures
            r == cnt,
            final(self).seek_ptr == old(self).seek_ptr + cnt,
            final(self).len == old(self).len,
            final(self).src == old(self).src,
            final(self).temp_dst_path == old(self).temp_dst_path,
            final(self).real_dst_path == old(self).real_dst_path,
    {
        let amount: u64 = cnt as u64;
        self.seek_ptr = self.seek_ptr + amount;
        amount
    }

    /// Copies what is left of the file, a buffer at a time, counting each
    /// into the progress, and then commits the copy under its name.
    pub fn proceed(&mut self, state: &mut TransferState, ops: &mut Vec<CopyOp>)
        requires
            (*old(state)) is Active,
            old(self).seek_ptr <= old(self).len,
            old(state)->Active_0.current + (old(self).len - old(self).seek_ptr) <= u64::MAX,
        ensures
            final(self).seek_ptr == old(self).len,
            final(self).len == old(self).len,
            *final(state) == old(state).with_current((old(self).len - old(self).seek_ptr) as u64),
            op_models(final(ops)@) == op_models(old(ops)@).push(
                OpModel::CopyFile {
                    src: old(self).src@,
                    temp: old(self).temp_dst_path@,
                    dest: old(self).real_dst_path@,
                    len: old(self).len,
                },
            ),
    {
        loop
            invariant
                *state is Active,
                self.len == old(self).len,
                self.src == old(self).src,
                self.temp_dst_path == old(self).temp_dst_path,
                self.real_dst_path == old(self).real_dst_path,
                old(self).seek_ptr <= self.seek_ptr <= self.len,
                old(state)->Active_0.current + (old(self).len - old(self).seek_ptr) <= u64::MAX,
                *state == old(state).with_current((self.seek_ptr - old(self).seek_ptr) as u64),
            ensures
                self.seek_ptr == self.len,
            decreases self.len - self.seek_ptr,
        {
            let cnt = self.next_chunk();
            if cnt == 0 {
                break ;
            }
            let amount = self.advance(cnt);
            state.append_current(amount);
        }
        let ghost before = ops@;
        ops.push(
            CopyOp::CopyFile {
                src: self.src.clone(),
                temp: self.temp_dst_path.clone(),
                dest: self.real_dst_path.clone(),
                len: self.len,
            },
        );
        assert(op_models(ops@) =~= op_models(before).push(ops@.last()@));
    }
}

/// The copy of one folder: the folder and the directory that its copy goes into.
#[derive(Debug)]
pub struct CopyFolderSession {
    pub src_folder: PitouFilePath,
    pub dst_folder: PitouFilePath,
}

impl CopyFolderSession {
    pub fn new(src_folder: PitouFilePath, dst_folder: PitouFilePath) -> (r: Self)
        ensures
            r.src_folder == src_folder,
            r.dst_folder == dst_folder,
    {
        Self { src_folder, dst_folder }
    }

    /// The directory that the copy of the folder is.
    pub fn target(&self) -> (r: Option<PitouFilePath>)
        ensures
            r is Some <==> real_path(self.src_folder@, self.dst_folder@) is Some,
            r is Some ==> r->Some_0@ == real_path(self.src_folder@, self.dst_folder@)->Some_0,
    {
        dst_real(&self.src_folder, &self.dst_folder)
    }

    /// Copies the folder: its directory is created, its entries are copied
    /// into it one after the other, and only then is the folder itself
    /// counted into the progress.
    pub fn proceed(self, entries: &Vec<TreeNode>, state: &mut TransferState, ops: &mut Vec<CopyOp>)
        requires
            file_name_of(self.src_folder@) is Some,
            all_copyable(entries@),
            (*old(state)) is Active,
            old(state)->Active_0.current + HYPOTHETICAL_FOLDER_SIZE + weights(entries@) <= u64::MAX,
        ensures
            *final(state) == old(state).with_current(
                (HYPOTHETICAL_FOLDER_SIZE + weights(entries@)) as u64,
            ),
            op_models(final(ops)@) == op_models(old(ops)@) + (seq![
                OpModel::CreateDir {
                    path: real_path(self.src_folder@, self.dst_folder@)->Some_0,
                },
            ] + plans_of(entries@, real_path(self.src_folder@, self.dst_folder@)->Some_0)),
        decreases entries, 1nat,
    {
        let target = self.target().unwrap();
        let ghost before = ops@;
        ops.push(CopyOp::CreateDir { path: target.clone() });
        assert(op_models(ops@) =~= op_models(before) + seq![OpModel::CreateDir { path: target@ }]);
        copy_nodes(entries, &target, state, ops);
        state.append_current(HYPOTHETICAL_FOLDER_SIZE);
        assert(op_models(ops@) =~= op_models(before) + (seq![OpModel::CreateDir { path: target@ }]
            + plans_of(entries@, target@)));
    }
}

/// Copies one entry into `dst`, as a folder or as a file.
pub fn copy_node(node: &TreeNode, dst: &PitouFilePath, state: &mut TransferState, ops: &mut Vec<CopyOp>)
    requires
        copyable(*node),
        (*old(state)) is Active,
        old(state)->Active_0.current + weight(*node) <= u64::MAX,
    ensures
        *final(state) == old(state).with_current(weight(*node) as u64),
        op_models(final(ops)@) == op_models(old(ops)@) + plan_of(*node, dst@),
    decreases node, 0nat,
{
    if node.file.is_dir() {
        let entries = match &node.children {
            Some(entries) => entries,
            None => {
                return ;
            },
        };
        CopyFolderSession::new(node.file.path.clone(), dst.clone()).proceed(entries, state, ops);
    } else {
        let len = match &node.file.metadata {
            Some(metadata) => metadata.size.bytes,
            None => {
                return ;
            },
        };
        let ghost before = ops@;
        let mut session = CopyFileSession::new(&node.file.path, len, dst).unwrap();
        session.proceed(state, ops);
        assert(op_models(ops@) =~= op_models(before) + plan_of(*node, dst@));
    }
}

/// Copies a list of entries into `dst`, one after the other.
pub fn copy_nodes(
    nodes: &Vec<TreeNode>,
    dst: &PitouFilePath,
    state: &mut TransferState,
    ops: &mut Vec<CopyOp>,
)
    requires
        all_copyable(nodes@),
        (*old(state)) is Active,
        old(state)->Active_0.current + weights(nodes@) <= u64::MAX,
    ensures
        *final(state) == old(state).with_current(weights(nodes@) as u64),
        op_models(final(ops)@) == op_models(old(ops)@) + plans_of(nodes@, dst@),
    decreases nodes, 0nat,
{
    let mut i: usize = 0;
    assert(op_models(ops@) =~= op_models(ops@) + plans_of(nodes@.take(0), dst@));
    while i < nodes.len()
        invariant
            i <= nodes@.len(),
            all_copyable(nodes@),
            *state is Active,
            old(state)->Active_0.current + weights(nodes@) <= u64::MAX,
            *state == old(state).with_current(weights(nodes@.take(i as int)) as u64),
            op_models(ops@) == op_models(old(ops)@) + plans_of(nodes@.take(i as int), dst@),
        decreases nodes@.len() - i,
    {
        proof {
            assert(nodes@.take(i + 1).drop_last() =~= nodes@.take(i as int));
            lemma_weights_grow(nodes@.take(i + 1), nodes@);
            lemma_copyable_prefix(nodes@.take(i + 1), nodes@);
        }
        let ghost before = ops@;
        copy_node(&nodes[i], dst, state, ops);
        assert(op_models(ops@) =~= op_models(old(ops)@) + plans_of(nodes@.take(i + 1), dst@));
        i += 1;
    }
    assert(nodes@.take(i as int) =~= nodes@);
}

/// A whole transfer: the items that were chosen and where they go.
#[derive(Debug)]
pub struct AllItemsCopySesssion {
    pub items: Vec<TreeNode>,
    pub dst: PitouFilePath,
}

impl AllItemsCopySesssion {
    /// Runs a transfer on trees held in memory and hands back the steps for
    /// the disk. Only a session that is still adding up is touched. Where an
    /// item cannot be copied, or the weight cannot be counted, the session
    /// fails and no step is planned. Otherwise every item is weighed, the
    /// copy starts, every item is copied, and the session ends with all that
    /// was counted copied.
    pub fn init(config: &mut TransferConfig, items: Vec<TreeNode>, dst: PitouFilePath) -> (r: Vec<
        CopyOp,
    >)
        ensures
            final(config).id == old(config).id,
            final(config).copy == old(config).copy,
            match old(config).state {
                TransferState::Initializing(counted) => if all_copyable(items@) && counted + weights(
                    items@,
                ) <= u64::MAX {
                    &&& final(config).state == (TransferState::Active(
                        TransferSize {
                            total: (counted + weights(items@)) as u64,
                            current: weights(items@) as u64,
                        },
                    )).finished()
                    &&& op_models(r@) == plans_of(items@, dst@)
                } else {
                    &&& final(config).state == old(config).state.broken()
                    &&& r@.len() == 0
                },
                _ => final(config).state == old(config).state && r@.len() == 0,
            },
    {
        let counted = match config.state {
            TransferState::Initializing(counted) => counted,
            _ => {
                return Vec::new();
            },
        };
        let weight = if can_copy_all(&items) {
            proof {
                lemma_all_copyable_is_readable(items@);
            }
            compute_sizes(&items)
        } else {
            None
        };
        let weight = match weight {
            Some(weight) if weight <= u64::MAX - counted => weight,
            _ => {
                config.apply(TransferEvent::sizing_done(false));
                return Vec::new();
            },
        };
        config.apply(TransferEvent::Sized(weight));
        config.apply(TransferEvent::sizing_done(true));
        let session = Self { items, dst };
        session.proceed(config)
    }

    /// Copies every item, one after the other, and ends the session.
    pub fn proceed(self, config: &mut TransferConfig) -> (r: Vec<CopyOp>)
        requires
            all_copyable(self.items@),
            old(config).state is Active,
            old(config).state->Active_0.current + weights(self.items@) <= u64::MAX,
        ensures
            final(config).id == old(config).id,
            final(config).copy == old(config).copy,
            final(config).state == old(config).state.with_current(weights(self.items@) as u64).finished(),
            op_models(r@) == plans_of(self.items@, self.dst@),
    {
        let mut ops: Vec<CopyOp> = Vec::new();
        let mut state = config.state;
        assert(op_models(ops@) =~= Seq::<OpModel>::empty());
        copy_nodes(&self.items, &self.dst, &mut state, &mut ops);
        config.state = state;
        config.apply(TransferEvent::copying_done(true));
        assert(op_models(ops@) =~= plans_of(self.items@, self.dst@));
        ops
    }
}

/// What a step adds to the progress of a transfer once it is done: a
/// directory its unit, a file its length.
pub open spec fn op_weight(op: OpModel) -> nat {
    match op {
        OpModel::CreateDir { .. } => HYPOTHETICAL_FOLDER_SIZE as nat,
        OpModel::CopyFile { len, .. } => len as nat,
    }
}

/// What the steps of a plan add to the progress of a transfer.
pub open spec fn plan_weight(plan: Seq<OpModel>) -> nat
    decreases plan.len(),
{
    if plan.len() == 0 {
        0
    } else {
        plan_weight(plan.drop_last()) + op_weight(plan.last())
    }
}

proof fn lemma_plan_weight_adds(a: Seq<OpModel>, b: Seq<OpModel>)
    ensures
        plan_weight(a + b) == plan_weight(a) + plan_weight(b),
    decreases b.len(),
{
    if b.len() == 0 {
        assert(a + b =~= a);
    } else {
        assert((a + b).drop_last() =~= a + b.drop_last());
        lemma_plan_weight_adds(a, b.drop_last());
    }
}

/// The plan of a copy holds one step for everything that was weighed, and
/// each step counts for what it weighed: the steps add up to the weight.
pub proof fn lemma_plan_weighs_what_was_counted(node: TreeNode, dst: Seq<char>)
    requires
        copyable(node),
    ensures
        plan_weight(plan_of(node, dst)) == weight(node),
    decreases node,
{
    let dest = real_path(node.file@.path, dst)->Some_0;
    let metadata = node.file.metadata->Some_0;
    assert(plan_weight(Seq::<OpModel>::empty()) == 0);
    if metadata.kind == PitouFileKind::Directory {
        let entries = node.children->Some_0@;
        let first = seq![OpModel::CreateDir { path: dest }];
        lemma_plans_weigh_what_was_counted(entries, dest);
        lemma_plan_weight_adds(first, plans_of(entries, dest));
        assert(first.drop_last() =~= Seq::<OpModel>::empty());
        assert(op_weight(first.last()) == HYPOTHETICAL_FOLDER_SIZE);
        assert(plan_weight(first) == HYPOTHETICAL_FOLDER_SIZE);
        assert(plan_of(node, dst) == first + plans_of(entries, dest));
    } else {
        let only = plan_of(node, dst);
        assert(only.len() == 1);
        assert(only.drop_last() =~= Seq::<OpModel>::empty());
        assert(op_weight(only.last()) == metadata.size.bytes);
        assert(plan_weight(only) == metadata.size.bytes);
    }
}

/// The same for a list of entries.
pub proof fn lemma_plans_weigh_what_was_counted(nodes: Seq<TreeNode>, dst: Seq<char>)
    requires
        all_copyable(nodes),
    ensures
        plan_weight(plans_of(nodes, dst)) == weights(nodes),
    decreases nodes,
{
    if nodes.len() > 0 {
        lemma_plans_weigh_what_was_counted(nodes.drop_last(), dst);
        lemma_plan_weighs_what_was_counted(nodes.last(), dst);
        lemma_plan_weight_adds(plans_of(nodes.drop_last(), dst), plan_of(nodes.last(), dst));
    }
}

} // verus!
