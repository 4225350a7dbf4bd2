//! The USB composite gadget and its parts, as they are written to ConfigFS.

use vstd::prelude::*;
use crate::configfs::{
    concat_plans, emit, emit_all, lemma_concat_plans_member, lemma_concat_plans_step,
    lemma_concat_plans_within, lemma_plan_within_join, op_path, plan_avoids, plan_within, DirEntry,
    FsOp, FsOpView,
};
use crate::text::{join, join_path, prefixed_hex, prefixed_hex_string, same_text};

pub mod configuration;
pub mod info;
pub mod lifecycle;
pub mod order;
pub mod os_desc;
pub mod strings;
pub mod tree;

pub use configuration::{
    function_link_plan, function_link_target, ConfigSnapshot, UsbConfiguration,
};
pub use info::{
    bind_op, config_cleanup_plan, function_cleanup_plan, unbind_op, unbound_udc, FunctionOpts,
    FunctionSnapshot, GadgetInfo, GadgetSnapshot,
};
pub use os_desc::OsDesc;
pub use strings::{GadgetConfigName, GadgetStrings};

verus! {

/// Language code of English (United States).
pub const LANGUAGE_CODE_ENGLISH: u16 = 0x409;

/// Something that can be written to a directory of the ConfigFS tree.
pub trait Configurable {
    /// The operations that write this object to the directory `base_dir`, in
    /// the order in which they are to be performed.
    spec fn apply_plan(&self, base_dir: Seq<char>) -> Seq<FsOpView>;

    /// Plans the writing of this object to the directory `base_dir`.
    fn apply_config(&self, base_dir: &str) -> (ops: Vec<FsOp>)
        ensures
            ops.deep_view() == self.apply_plan(base_dir@),
    ;

    /// Writing an object touches nothing but its directory and what lies
    /// below it.
    proof fn lemma_apply_plan_within(&self, base_dir: Seq<char>)
        ensures
            plan_within(self.apply_plan(base_dir), base_dir),
    ;
}

/// The options of a USB function.
pub trait UsbFunctionOpts: Configurable {

}

/// The speed that a gadget asks the controller for.
#[derive(Debug, Clone, Copy, PartialEq, Eq)]
pub enum UsbDeviceSpeed {
    /// Not known yet: the device is enumerating.
    UsbSpeedUnknown,
    /// USB 1.1 low speed.
    UsbSpeedLow,
    /// USB 1.1 full speed.
    UsbSpeedFull,
    /// USB 2.0.
    UsbSpeedHigh,
    /// Wireless USB.
    UsbSpeedWireless,
    /// USB 3.0.
    UsbSpeedSuper,
    /// USB 3.1.
    UsbSpeedSuperPlus,
}

/// Whether `name` is written in lower-case kebab case: lower-case words with
/// single hyphens between them.
pub open spec fn is_kebab_case(name: Seq<char>) -> bool {
    &&& name.len() > 0
    &&& name[0] != '-'
    &&& name.last() != '-'
    &&& forall|i: int| 0 <= i < name.len() ==> 'a' <= #[trigger] name[i] <= 'z' || name[i] == '-'
    &&& forall|i: int| 0 <= i < name.len() - 1 ==> !(#[trigger] name[i] == '-' && name[i + 1] == '-')
}

impl UsbDeviceSpeed {
    /// The name by which the kernel knows this speed.
    pub open spec fn name(&self) -> Seq<char> {
        match *self {
            UsbDeviceSpeed::UsbSpeedUnknown => "unknown"@,
            UsbDeviceSpeed::UsbSpeedLow => "low-speed"@,
            UsbDeviceSpeed::UsbSpeedFull => "full-speed"@,
            UsbDeviceSpeed::UsbSpeedHigh => "high-speed"@,
            UsbDeviceSpeed::UsbSpeedWireless => "wireless"@,
            UsbDeviceSpeed::UsbSpeedSuper => "super-speed"@,
            UsbDeviceSpeed::UsbSpeedSuperPlus => "super-speed-plus"@,
        }
    }

    /// Every speed has a name in lower-case kebab case, and no two speeds
    /// share a name.
    pub proof fn lemma_names(a: UsbDeviceSpeed, b: UsbDeviceSpeed)
        ensures
            is_kebab_case(a.name()),
            a != b ==> a.name() != b.name(),
    {
        reveal_strlit("unknown");
        reveal_strlit("low-speed");
        reveal_strlit("full-speed");
        reveal_strlit("high-speed");
        reveal_strlit("wireless");
        reveal_strlit("super-speed");
        reveal_strlit("super-speed-plus");
        assert("unknown"@.len() == 7);
        assert("low-speed"@.len() == 9);
        assert("full-speed"@.len() == 10);
        assert("high-speed"@.len() == 10);
        assert("wireless"@.len() == 8);
        assert("super-speed"@.len() == 11);
        assert("super-speed-plus"@.len() == 16);
        assert("full-speed"@[0] != "high-speed"@[0]);
    }

    /// The name by which the kernel knows this speed.
    pub fn as_str(&self) -> (name: &'static str)
        ensures
            name@ == self.name(),
    {
        match self {
            UsbDeviceSpeed::UsbSpeedUnknown => "unknown",
            UsbDeviceSpeed::UsbSpeedLow => "low-speed",
            UsbDeviceSpeed::UsbSpeedFull => "full-speed",
            UsbDeviceSpeed::UsbSpeedHigh => "high-speed",
            UsbDeviceSpeed::UsbSpeedWireless => "wireless",
            UsbDeviceSpeed::UsbSpeedSuper => "super-speed",
            UsbDeviceSpeed::UsbSpeedSuperPlus => "super-speed-plus",
        }
    }
}

/// Whether no two entries of a map from name to object share a name.
pub open spec fn distinct_names<T>(entries: Seq<(String, T)>) -> bool {
    forall|i: int, j: int| 0 <= i < j < entries.len() ==> entries[i].0@ != entries[j].0@
}

/// Whether no two entries of a map from name to object share a name.
pub fn has_distinct_names<T>(entries: &Vec<(String, T)>) -> (distinct: bool)
    ensures
        distinct == distinct_names(entries@),
{
    let mut i: usize = 0;
    while i < entries.len()
        invariant
            i <= entries.len(),
            forall|a: int, b: int| 0 <= a < b < entries@.len() && b < i ==> entries@[a].0@ != entries@[b].0@,
        decreases entries.len() - i,
    {
        let mut k: usize = 0;
        while k < i
            invariant
                k <= i < entries.len(),
                forall|a: int| 0 <= a < k ==> entries@[a].0@ != entries@[i as int].0@,
            decreases i - k,
        {
            if same_text(entries[k].0.as_str(), entries[i].0.as_str()) {
                return false;
            }
            k += 1;
        }
        i += 1;
    }
    true
}

/// The plans of the entries of a map from language code to strings, each in
/// the directory of `dir` that is named by the language code in hexadecimal.
pub open spec fn language_plans<T: Configurable>(entries: Seq<(u16, T)>, dir: Seq<char>) -> Seq<
    FsOpView,
> {
    concat_plans(
        entries,
        |entry: (u16, T)| entry.1.apply_plan(join(dir, prefixed_hex(entry.0 as nat))),
    )
}

/// The plans of the entries of a map from name to object, each in the
/// directory of `dir` that has the name of the entry.
pub open spec fn named_plans<T: Configurable>(entries: Seq<(String, T)>, dir: Seq<char>) -> Seq<
    FsOpView,
> {
    concat_plans(entries, |entry: (String, T)| entry.1.apply_plan(join(dir, entry.0@)))
}

/// Writing the entries of a map from language code to strings touches
/// nothing but what lies below the directory of the map.
pub proof fn lemma_language_plans_within<T: Configurable>(entries: Seq<(u16, T)>, dir: Seq<char>)
    ensures
        plan_within(language_plans(entries, dir), dir),
        forall|i: int|
            0 <= i < language_plans(entries, dir).len() ==> op_path(
                #[trigger] language_plans(entries, dir)[i],
            ) != dir,
{
    let plan = |entry: (u16, T)| entry.1.apply_plan(join(dir, prefixed_hex(entry.0 as nat)));
    assert forall|k: int| 0 <= k < entries.len() implies plan_within(
        #[trigger] plan(entries[k]),
        dir,
    ) && plan_avoids(plan(entries[k]), dir) by {
        let name = prefixed_hex(entries[k].0 as nat);
        entries[k].1.lemma_apply_plan_within(join(dir, name));
        lemma_plan_within_join(plan(entries[k]), dir, name);
    }
    lemma_concat_plans_within(entries, plan, dir);
    let all = language_plans(entries, dir);
    assert forall|i: int| 0 <= i < all.len() implies op_path(#[trigger] all[i]) != dir by {
        let found = crate::configfs::lemma_concat_plans_member(entries, plan, i);
        assert(plan_avoids(plan(entries[found.0]), dir));
    }
}

/// Writing the entries of a map from name to object touches nothing but
/// what lies below the directory of the map.
pub proof fn lemma_named_plans_within<T: Configurable>(entries: Seq<(String, T)>, dir: Seq<char>)
    ensures
        plan_within(named_plans(entries, dir), dir),
        forall|i: int|
            0 <= i < named_plans(entries, dir).len() ==> op_path(
                #[trigger] named_plans(entries, dir)[i],
            ) != dir,
{
    let plan = |entry: (String, T)| entry.1.apply_plan(join(dir, entry.0@));
    assert forall|k: int| 0 <= k < entries.len() implies plan_within(
        #[trigger] plan(entries[k]),
        dir,
    ) && plan_avoids(plan(entries[k]), dir) by {
        entries[k].1.lemma_apply_plan_within(join(dir, entries[k].0@));
        lemma_plan_within_join(plan(entries[k]), dir, entries[k].0@);
    }
    lemma_concat_plans_within(entries, plan, dir);
    let all = named_plans(entries, dir);
    assert forall|i: int| 0 <= i < all.len() implies op_path(#[trigger] all[i]) != dir by {
        let found = crate::configfs::lemma_concat_plans_member(entries, plan, i);
        assert(plan_avoids(plan(entries[found.0]), dir));
    }
}

/// The operation that removes the directory `entry` of `dir`, where it is
/// one.
pub open spec fn remove_dir_plan(entry: DirEntry, dir: Seq<char>) -> Seq<FsOpView> {
    if entry.is_dir {
        seq![FsOpView::RemoveDir { path: join(dir, entry.name@) }]
    } else {
        Seq::empty()
    }
}

/// The operations that remove the directories among the entries `entries`
/// of `dir`.
pub open spec fn remove_dirs_plan(entries: Seq<DirEntry>, dir: Seq<char>) -> Seq<FsOpView> {
    concat_plans(entries, |entry: DirEntry| remove_dir_plan(entry, dir))
}

/// The operation that removes the symbolic link `entry` of `dir`, where it
/// is one.
pub open spec fn remove_link_plan(entry: DirEntry, dir: Seq<char>) -> Seq<FsOpView> {
    if entry.is_symlink {
        seq![FsOpView::RemoveFile { path: join(dir, entry.name@) }]
    } else {
        Seq::empty()
    }
}

/// The operations that remove the symbolic links among the entries
/// `entries` of `dir`.
pub open spec fn remove_links_plan(entries: Seq<DirEntry>, dir: Seq<char>) -> Seq<FsOpView> {
    concat_plans(entries, |entry: DirEntry| remove_link_plan(entry, dir))
}

/// Plans the writing of the entries of a map from language code to strings.
fn language_ops<T: Configurable>(entries: &Vec<(u16, T)>, dir: &str) -> (ops: Vec<FsOp>)
    ensures
        ops.deep_view() == language_plans(entries@, dir@),
{
    let mut ops: Vec<FsOp> = Vec::new();
    let ghost plan = |entry: (u16, T)| entry.1.apply_plan(join(dir@, prefixed_hex(entry.0 as nat)));
    let mut i: usize = 0;
    assert(ops.deep_view() =~= concat_plans(entries@.take(0), plan));
    while i < entries.len()
        invariant
            i <= entries.len(),
            plan == |entry: (u16, T)|
                entry.1.apply_plan(join(dir@, prefixed_hex(entry.0 as nat))),
            ops.deep_view() == concat_plans(entries@.take(i as int), plan),
        decreases entries.len() - i,
    {
        let entry = &entries[i];
        let path = join_path(dir, prefixed_hex_string(entry.0 as u64).as_str());
        proof {
            lemma_concat_plans_step(entries@, plan, i as int);
        }
        emit_all(&mut ops, entry.1.apply_config(path.as_str()));
        i += 1;
    }
    proof {
        assert(entries@.take(entries@.len() as int) =~= entries@);
    }
    ops
}

/// Plans the writing of the entries of a map from name to object.
fn named_ops<T: Configurable>(entries: &Vec<(String, T)>, dir: &str) -> (ops: Vec<FsOp>)
    ensures
        ops.deep_view() == named_plans(entries@, dir@),
{
    let mut ops: Vec<FsOp> = Vec::new();
    let ghost plan = |entry: (String, T)| entry.1.apply_plan(join(dir@, entry.0@));
    let mut i: usize = 0;
    assert(ops.deep_view() =~= concat_plans(entries@.take(0), plan));
    while i < entries.len()
        invariant
            i <= entries.len(),
            plan == |entry: (String, T)| entry.1.apply_plan(join(dir@, entry.0@)),
            ops.deep_view() == concat_plans(entries@.take(i as int), plan),
        decreases entries.len() - i,
    {
        let entry = &entries[i];
        let path = join_path(dir, entry.0.as_str());
        proof {
            lemma_concat_plans_step(entries@, plan, i as int);
        }
        emit_all(&mut ops, entry.1.apply_config(path.as_str()));
        i += 1;
    }
    proof {
        assert(entries@.take(entries@.len() as int) =~= entries@);
    }
    ops
}

/// Plans the removal of the directories among the entries `entries` of
/// `dir`.
fn remove_dirs_ops(entries: &Vec<DirEntry>, dir: &str) -> (ops: Vec<FsOp>)
    ensures
        ops.deep_view() == remove_dirs_plan(entries@, dir@),
{
    let mut ops: Vec<FsOp> = Vec::new();
    let ghost plan = |entry: DirEntry| remove_dir_plan(entry, dir@);
    let mut i: usize = 0;
    assert(ops.deep_view() =~= concat_plans(entries@.take(0), plan));
    while i < entries.len()
        invariant
            i <= entries.len(),
            plan == |entry: DirEntry| remove_dir_plan(entry, dir@),
            ops.deep_view() == concat_plans(entries@.take(i as int), plan),
        decreases entries.len() - i,
    {
        let entry = &entries[i];
        proof {
            lemma_concat_plans_step(entries@, plan, i as int);
        }
        if entry.is_dir {
            emit(&mut ops, FsOp::RemoveDir { path: join_path(dir, entry.name.as_str()) });
        }
        assert(ops.deep_view() =~= concat_plans(entries@.take(i + 1), plan));
        i += 1;
    }
    proof {
        assert(entries@.take(entries@.len() as int) =~= entries@);
    }
    ops
}

/// Plans the removal of the symbolic links among the entries `entries` of
/// `dir`.
fn remove_links_ops(entries: &Vec<DirEntry>, dir: &str) -> (ops: Vec<FsOp>)
    ensures
        ops.deep_view() == remove_links_plan(entries@, dir@),
{
    let mut ops: Vec<FsOp> = Vec::new();
    let ghost plan = |entry: DirEntry| remove_link_plan(entry, dir@);
    let mut i: usize = 0;
    assert(ops.deep_view() =~= concat_plans(entries@.take(0), plan));
    while i < entries.len()
        invariant
            i <= entries.len(),
            plan == |entry: DirEntry| remove_link_plan(entry, dir@),
            ops.deep_view() == concat_plans(entries@.take(i as int), plan),
        decreases entries.len() - i,
    {
        let entry = &entries[i];
        proof {
            lemma_concat_plans_step(entries@, plan, i as int);
        }
        if entry.is_symlink {
            emit(&mut ops, FsOp::RemoveFile { path: join_path(dir, entry.name.as_str()) });
        }
        assert(ops.deep_view() =~= concat_plans(entries@.take(i + 1), plan));
        i += 1;
    }
    proof {
        assert(entries@.take(entries@.len() as int) =~= entries@);
    }
    ops
}

} // verus!
