//! Operations on the ConfigFS tree.
//!
//! The provisioner does not touch the file system. It works out which
//! operations bring a gadget up or take it down, in which order, and hands
//! them out as a plan. Whoever holds the plan performs the operations one by
//! one, in order, and stops at the first one that fails.

use vstd::prelude::*;
use vstd::utf8::encode_utf8;
use crate::text::join;

verus! {

/// One operation on the ConfigFS tree.
#[derive(Debug, Clone, PartialEq, Eq)]
pub enum FsOp {
    /// Create the directory `path`. It is an error if `path` exists.
    CreateDir { path: String },
    /// Create the directory `path` unless it is a directory already.
    EnsureDir { path: String },
    /// Write `contents` to the file `path`. Where `required` is false the
    /// attribute may be missing from the kernel at hand, and a failure is
    /// passed over.
    Write { path: String, contents: Vec<u8>, required: bool },
    /// Create the symbolic link `link` that points to `target`.
    Symlink { target: String, link: String },
    /// Read the device numbers that the kernel published in the file `path`
    /// and hand them to the HID function they belong to.
    ReadDev { path: String },
    /// Remove the file or symbolic link `path`.
    RemoveFile { path: String },
    /// Remove the directory `path`.
    RemoveDir { path: String },
}

/// An entry of a directory, as the provisioner needs to know it before it
/// takes the directory down.
#[derive(Debug, Clone, PartialEq, Eq)]
pub struct DirEntry {
    /// The name of the entry inside its directory.
    pub name: String,
    /// Whether the entry is a directory, or a symbolic link to one.
    pub is_dir: bool,
    /// Whether the entry itself is a symbolic link.
    pub is_symlink: bool,
}

/// An operation on the ConfigFS tree, as a mathematical value.
pub enum FsOpView {
    CreateDir { path: Seq<char> },
    EnsureDir { path: Seq<char> },
    Write { path: Seq<char>, contents: Seq<u8>, required: bool },
    Symlink { target: Seq<char>, link: Seq<char> },
    ReadDev { path: Seq<char> },
    RemoveFile { path: Seq<char> },
    RemoveDir { path: Seq<char> },
}

impl View for FsOp {
    type V = FsOpView;

    open spec fn view(&self) -> FsOpView {
        match *self {
            FsOp::CreateDir { path } => FsOpView::CreateDir { path: path@ },
            FsOp::EnsureDir { path } => FsOpView::EnsureDir { path: path@ },
            FsOp::Write { path, contents, required } => FsOpView::Write {
                path: path@,
                contents: contents@,
                required,
            },
            FsOp::Symlink { target, link } => FsOpView::Symlink { target: target@, link: link@ },
            FsOp::ReadDev { path } => FsOpView::ReadDev { path: path@ },
            FsOp::RemoveFile { path } => FsOpView::RemoveFile { path: path@ },
            FsOp::RemoveDir { path } => FsOpView::RemoveDir { path: path@ },
        }
    }
}

impl DeepView for FsOp {
    type V = FsOpView;

    open spec fn deep_view(&self) -> FsOpView {
        self@
    }
}

/// The operation that writes the text `text` to the attribute `name` of the
/// directory `dir`.
pub open spec fn write_text(dir: Seq<char>, name: Seq<char>, text: Seq<char>) -> FsOpView {
    FsOpView::Write { path: join(dir, name), contents: encode_utf8(text), required: true }
}

/// The operation that writes the text `text` to the attribute `name` of the
/// directory `dir`, where the attribute may be missing.
pub open spec fn write_text_optional(dir: Seq<char>, name: Seq<char>, text: Seq<char>) -> FsOpView {
    FsOpView::Write { path: join(dir, name), contents: encode_utf8(text), required: false }
}

/// The text that stands for a truth value in an attribute file.
pub open spec fn flag_text(on: bool) -> Seq<char> {
    if on {
        seq!['1']
    } else {
        seq!['0']
    }
}

/// The plans of `items`, one after the other.
pub open spec fn concat_plans<T>(items: Seq<T>, plan: spec_fn(T) -> Seq<FsOpView>) -> Seq<FsOpView>
    decreases items.len(),
{
    if items.len() == 0 {
        Seq::empty()
    } else {
        concat_plans(items.drop_last(), plan) + plan(items.last())
    }
}

/// The plan of the first `n + 1` items is the plan of the first `n` followed
/// by the plan of item `n`.
pub proof fn lemma_concat_plans_step<T>(
    items: Seq<T>,
    plan: spec_fn(T) -> Seq<FsOpView>,
    n: int,
)
    requires
        0 <= n < items.len(),
    ensures
        concat_plans(items.take(n + 1), plan) == concat_plans(items.take(n), plan) + plan(items[n]),
        concat_plans(items.take(0), plan) == Seq::<FsOpView>::empty(),
        items.take(items.len() as int) == items,
{
    assert(items.take(n + 1).drop_last() =~= items.take(n));
    assert(items.take(items.len() as int) =~= items);
}

/// Every operation of the concatenated plans comes from the plan of one of
/// the items.
pub proof fn lemma_concat_plans_member<T>(
    items: Seq<T>,
    plan: spec_fn(T) -> Seq<FsOpView>,
    at: int,
) -> (found: (int, int))
    requires
        0 <= at < concat_plans(items, plan).len(),
    ensures
        0 <= found.0 < items.len(),
        0 <= found.1 < plan(items[found.0]).len(),
        concat_plans(items, plan)[at] == plan(items[found.0])[found.1],
    decreases items.len(),
{
    let head = concat_plans(items.drop_last(), plan);
    if at < head.len() {
        lemma_concat_plans_member(items.drop_last(), plan, at)
    } else {
        (items.len() - 1, at - head.len())
    }
}

/// Every operation of the plan of an item is an operation of the
/// concatenated plans, and the plans of earlier items come before those of
/// later ones.
pub proof fn lemma_concat_plans_contains<T>(
    items: Seq<T>,
    plan: spec_fn(T) -> Seq<FsOpView>,
    item: int,
    at: int,
) -> (found: int)
    requires
        0 <= item < items.len(),
        0 <= at < plan(items[item]).len(),
    ensures
        found == concat_plans(items.take(item), plan).len() + at,
        0 <= found < concat_plans(items, plan).len(),
        concat_plans(items, plan)[found] == plan(items[item])[at],
    decreases items.len(),
{
    let head = concat_plans(items.drop_last(), plan);
    if item == items.len() - 1 {
        assert(items.take(item) =~= items.drop_last());
        head.len() + at
    } else {
        assert(items.drop_last().take(item) =~= items.take(item));
        lemma_concat_plans_contains(items.drop_last(), plan, item, at)
    }
}

/// The file or directory that an operation works on. For a symbolic link
/// this is the link, not what it points to.
pub open spec fn op_path(op: FsOpView) -> Seq<char> {
    match op {
        FsOpView::CreateDir { path } => path,
        FsOpView::EnsureDir { path } => path,
        FsOpView::Write { path, .. } => path,
        FsOpView::Symlink { link, .. } => link,
        FsOpView::ReadDev { path } => path,
        FsOpView::RemoveFile { path } => path,
        FsOpView::RemoveDir { path } => path,
    }
}

/// Whether `path` is the directory `dir` or lies below it.
pub open spec fn within(path: Seq<char>, dir: Seq<char>) -> bool {
    path == dir || crate::text::begins_with(path, dir + seq!['/'])
}

/// Whether every operation of `plan` works on `dir` or below it.
pub open spec fn plan_within(plan: Seq<FsOpView>, dir: Seq<char>) -> bool {
    forall|i: int| 0 <= i < plan.len() ==> within(op_path(#[trigger] plan[i]), dir)
}

/// An entry of a directory lies below it, and so does what lies below the
/// entry.
pub proof fn lemma_within_join(path: Seq<char>, dir: Seq<char>, name: Seq<char>)
    requires
        within(path, join(dir, name)),
    ensures
        within(path, dir),
        path != dir,
        path.len() > dir.len(),
        path[dir.len() as int] == '/',
        name.len() > 0 ==> path.len() > dir.len() + 1 && path[dir.len() as int + 1] == name[0],
{
    let prefix = dir + seq!['/'];
    let entry = join(dir, name);
    assert(entry.subrange(0, prefix.len() as int) =~= prefix);
    assert(entry[dir.len() as int] == '/');
    if path == entry {
        assert(path.subrange(0, prefix.len() as int) =~= prefix);
        if name.len() > 0 {
            assert(path[dir.len() as int + 1] == name[0]);
        }
    } else {
        let longer = entry + seq!['/'];
        assert(path.subrange(0, longer.len() as int) == longer);
        assert(path.subrange(0, prefix.len() as int) =~= prefix) by {
            assert forall|i: int| 0 <= i < prefix.len() implies path.subrange(
                0,
                prefix.len() as int,
            )[i] == prefix[i] by {
                assert(path.subrange(0, longer.len() as int)[i] == longer[i]);
            }
        }
        assert(path[dir.len() as int] == path.subrange(0, longer.len() as int)[dir.len() as int]);
        if name.len() > 0 {
            assert(path[dir.len() as int + 1] == path.subrange(0, longer.len() as int)[dir.len() as int + 1]);
            assert(longer[dir.len() as int + 1] == name[0]);
        }
    }
}

/// An entry of a directory lies below it.
pub proof fn lemma_entry_within(dir: Seq<char>, name: Seq<char>)
    ensures
        within(join(dir, name), dir),
        within(dir, dir),
{
    let prefix = dir + seq!['/'];
    assert(join(dir, name).subrange(0, prefix.len() as int) =~= prefix);
}

/// Whether no operation of `plan` works on `path`.
pub open spec fn plan_avoids(plan: Seq<FsOpView>, path: Seq<char>) -> bool {
    forall|i: int| 0 <= i < plan.len() ==> op_path(#[trigger] plan[i]) != path
}

/// A plan that works below an entry of a directory works below the
/// directory, and never on the directory itself.
pub proof fn lemma_plan_within_join(plan: Seq<FsOpView>, dir: Seq<char>, name: Seq<char>)
    requires
        plan_within(plan, join(dir, name)),
    ensures
        plan_within(plan, dir),
        forall|i: int|
            0 <= i < plan.len() ==> op_path(#[trigger] plan[i]).len() > dir.len() && op_path(
                plan[i],
            )[dir.len() as int] == '/' && (name.len() > 0 ==> op_path(plan[i]).len() > dir.len() + 1
                && op_path(plan[i])[dir.len() as int + 1] == name[0]),
{
    assert forall|i: int| 0 <= i < plan.len() implies within(op_path(#[trigger] plan[i]), dir)
        && op_path(plan[i]).len() > dir.len() && op_path(plan[i])[dir.len() as int] == '/' && (
    name.len() > 0 ==> op_path(plan[i]).len() > dir.len() + 1 && op_path(plan[i])[dir.len() as int + 1]
        == name[0]) by {
        lemma_within_join(op_path(plan[i]), dir, name);
    }
}

/// Plans that each work below a directory still do so when they are put
/// one after the other.
pub proof fn lemma_concat_plans_within<T>(
    items: Seq<T>,
    plan: spec_fn(T) -> Seq<FsOpView>,
    dir: Seq<char>,
)
    requires
        forall|k: int| 0 <= k < items.len() ==> plan_within(#[trigger] plan(items[k]), dir),
    ensures
        plan_within(concat_plans(items, plan), dir),
{
    let all = concat_plans(items, plan);
    assert forall|i: int| 0 <= i < all.len() implies within(op_path(#[trigger] all[i]), dir) by {
        let found = lemma_concat_plans_member(items, plan, i);
        assert(plan_within(plan(items[found.0]), dir));
    }
}

/// Appends `op` to `ops`.
pub(crate) fn emit(ops: &mut Vec<FsOp>, op: FsOp)
    ensures
        final(ops).deep_view() == old(ops).deep_view().push(op@),
{
    ops.push(op);
    assert(ops.deep_view() =~= old(ops).deep_view().push(op@));
}

/// Appends the operations of `more` to `ops`.
pub(crate) fn emit_all(ops: &mut Vec<FsOp>, more: Vec<FsOp>)
    ensures
        final(ops).deep_view() == old(ops).deep_view() + more.deep_view(),
{
    let mut more = more;
    let ghost added = more.deep_view();
    ops.append(&mut more);
    assert(ops.deep_view() =~= old(ops).deep_view() + added);
}

/// The UTF-8 bytes of `text`.
pub(crate) fn text_bytes(text: &str) -> (bytes: Vec<u8>)
    ensures
        bytes@ == encode_utf8(text@),
{
    text.as_bytes_vec()
}

/// Appends to `ops` the operation that writes `text` to the attribute `name`
/// of the directory `dir`.
pub(crate) fn emit_write(ops: &mut Vec<FsOp>, dir: &str, name: &str, text: &str)
    ensures
        final(ops).deep_view() == old(ops).deep_view().push(write_text(dir@, name@, text@)),
{
    let path = crate::text::join_path(dir, name);
    emit(ops, FsOp::Write { path, contents: text_bytes(text), required: true });
}

/// The text that stands for `on` in an attribute file.
pub(crate) fn flag_str(on: bool) -> (text: &'static str)
    ensures
        text@ == flag_text(on),
{
    proof {
        reveal_strlit("1");
        reveal_strlit("0");
    }
    if on {
        assert("1"@ =~= seq!['1']);
        "1"
    } else {
        assert("0"@ =~= seq!['0']);
        "0"
    }
}

} // verus!
