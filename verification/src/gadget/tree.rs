//! A model of the tree that a gadget is in ConfigFS, and what taking the
//! gadget down leaves of it.
//!
//! The model is the set of the paths of the directories and symbolic links
//! that were made one by one and have to be removed one by one. Attribute
//! files, and the directories that the kernel makes on its own, come and go
//! with the directory they are in and are no part of it. Performing an
//! operation puts a path in or takes it out; whether the kernel lets the
//! operation pass is not modelled.

use vstd::prelude::*;
use crate::configfs::{
    concat_plans, lemma_concat_plans_contains, lemma_concat_plans_member, within, DirEntry,
    FsOpView,
};
use crate::gadget::{
    config_cleanup_plan, function_cleanup_plan, remove_dir_plan, remove_dirs_plan,
    remove_link_plan, remove_links_plan, ConfigSnapshot, FunctionSnapshot, GadgetInfo,
    GadgetSnapshot, OsDesc,
};
use crate::mass_storage::{lun_name_text, FunctionMsgOpts};
use crate::text::{begins_with, join};

verus! {

/// What performing `op` makes of `tree`.
pub open spec fn perform(tree: Set<Seq<char>>, op: FsOpView) -> Set<Seq<char>> {
    match op {
        FsOpView::CreateDir { path } => tree.insert(path),
        FsOpView::EnsureDir { path } => tree.insert(path),
        FsOpView::Symlink { link, .. } => tree.insert(link),
        FsOpView::RemoveFile { path } => tree.remove(path),
        FsOpView::RemoveDir { path } => tree.remove(path),
        FsOpView::Write { .. } => tree,
        FsOpView::ReadDev { .. } => tree,
    }
}

/// What performing the operations of `plan` in order makes of `tree`.
pub open spec fn perform_all(tree: Set<Seq<char>>, plan: Seq<FsOpView>) -> Set<Seq<char>>
    decreases plan.len(),
{
    if plan.len() == 0 {
        tree
    } else {
        perform(perform_all(tree, plan.drop_last()), plan.last())
    }
}

/// Whether `op` removes the directory or link `path`.
pub open spec fn is_removal_of(op: FsOpView, path: Seq<char>) -> bool {
    op == (FsOpView::RemoveDir { path }) || op == (FsOpView::RemoveFile { path })
}

/// Whether an operation of `plan` removes the directory or link `path`.
pub open spec fn removes(plan: Seq<FsOpView>, path: Seq<char>) -> bool {
    exists|i: int| 0 <= i < plan.len() && is_removal_of(#[trigger] plan[i], path)
}

/// Whether `op` makes no directory and no link.
pub open spec fn makes_nothing(op: FsOpView) -> bool {
    op is Write || op is ReadDev || op is RemoveFile || op is RemoveDir
}

/// Whether no operation of `plan` makes a directory or a link.
pub open spec fn plan_makes_nothing(plan: Seq<FsOpView>) -> bool {
    forall|i: int| 0 <= i < plan.len() ==> makes_nothing(#[trigger] plan[i])
}

/// A directory or link of a gadget that was found and that taking the
/// gadget down has to remove.
pub enum Listed {
    /// The directory of the gadget.
    Gadget,
    /// The directory of a configuration.
    Config { config: int },
    /// A link to a function in a configuration.
    ConfigLink { config: int, entry: int },
    /// The directory of the names of a configuration in one language.
    ConfigStrings { config: int, entry: int },
    /// The directory of a function.
    Function { function: int },
    /// The directory of a unit of a mass-storage function, but unit 0.
    Unit { function: int, entry: int },
    /// The directory of the strings of the gadget in one language.
    Strings { entry: int },
}

/// Whether the function `function` is taken down as a mass-storage function:
/// its name begins with `mass_storage` and not with `hid`.
pub open spec fn is_mass_storage(function: FunctionSnapshot) -> bool {
    !begins_with(function.name@, GadgetInfo::HID@) && begins_with(
        function.name@,
        GadgetInfo::MASS_STORAGE@,
    )
}

/// The path of what `what` names in the gadget in `base_dir` as `snapshot`
/// found it, where there is such a directory or link.
pub open spec fn listed_path(snapshot: GadgetSnapshot, base_dir: Seq<char>, what: Listed) -> Option<
    Seq<char>,
> {
    let configs = join(base_dir, "configs"@);
    let functions = join(base_dir, "functions"@);
    match what {
        Listed::Gadget => Some(base_dir),
        Listed::Config { config } => if 0 <= config < snapshot.configs@.len()
            && snapshot.configs@[config].is_dir {
            Some(join(configs, snapshot.configs@[config].name@))
        } else {
            None
        },
        Listed::ConfigLink { config, entry } => if 0 <= config < snapshot.configs@.len()
            && snapshot.configs@[config].is_dir && 0 <= entry
            < snapshot.configs@[config].entries@.len()
            && snapshot.configs@[config].entries@[entry].is_symlink {
            Some(
                join(
                    join(configs, snapshot.configs@[config].name@),
                    snapshot.configs@[config].entries@[entry].name@,
                ),
            )
        } else {
            None
        },
        Listed::ConfigStrings { config, entry } => if 0 <= config < snapshot.configs@.len()
            && snapshot.configs@[config].is_dir && 0 <= entry
            < snapshot.configs@[config].strings@.len()
            && snapshot.configs@[config].strings@[entry].is_dir {
            Some(
                join(
                    join(join(configs, snapshot.configs@[config].name@), "strings"@),
                    snapshot.configs@[config].strings@[entry].name@,
                ),
            )
        } else {
            None
        },
        Listed::Function { function } => if 0 <= function < snapshot.functions@.len()
            && snapshot.functions@[function].is_dir {
            Some(join(functions, snapshot.functions@[function].name@))
        } else {
            None
        },
        Listed::Unit { function, entry } => if 0 <= function < snapshot.functions@.len()
            && snapshot.functions@[function].is_dir && is_mass_storage(
            snapshot.functions@[function],
        ) && 0 <= entry < snapshot.functions@[function].entries@.len()
            && snapshot.functions@[function].entries@[entry].is_dir
            && snapshot.functions@[function].entries@[entry].name@ != lun_name_text(0) {
            Some(
                join(
                    join(functions, snapshot.functions@[function].name@),
                    snapshot.functions@[function].entries@[entry].name@,
                ),
            )
        } else {
            None
        },
        Listed::Strings { entry } => if 0 <= entry < snapshot.strings@.len()
            && snapshot.strings@[entry].is_dir {
            Some(join(join(base_dir, "strings"@), snapshot.strings@[entry].name@))
        } else {
            None
        },
    }
}

/// Whether `snapshot` lists `path` among the directories and links of the
/// gadget in `base_dir` that are to be removed.
pub open spec fn lists(snapshot: GadgetSnapshot, base_dir: Seq<char>, path: Seq<char>) -> bool {
    exists|what: Listed| #[trigger] listed_path(snapshot, base_dir, what) == Some(path)
}

/// Whether `snapshot` lists all of the gadget in `base_dir` that `tree`
/// holds: every directory and link of the tree that is the gadget or lies
/// below it.
pub open spec fn lists_gadget(snapshot: GadgetSnapshot, base_dir: Seq<char>, tree: Set<Seq<char>>) -> bool {
    forall|path: Seq<char>|
        #[trigger] tree.contains(path) && within(path, base_dir) ==> lists(snapshot, base_dir, path)
}

/// A plan that makes nothing leaves of a tree what was there and what it
/// does not remove.
pub proof fn lemma_perform_all_removals(tree: Set<Seq<char>>, plan: Seq<FsOpView>, path: Seq<char>)
    requires
        plan_makes_nothing(plan),
    ensures
        perform_all(tree, plan).contains(path) == (tree.contains(path) && !removes(plan, path)),
    decreases plan.len(),
{
    if plan.len() > 0 {
        let head = plan.drop_last();
        assert forall|i: int| 0 <= i < head.len() implies makes_nothing(#[trigger] head[i]) by {
            assert(head[i] == plan[i]);
        }
        lemma_perform_all_removals(tree, head, path);
        assert(makes_nothing(plan[plan.len() - 1]));
        if removes(head, path) {
            let i = choose|i: int| 0 <= i < head.len() && is_removal_of(#[trigger] head[i], path);
            assert(is_removal_of(plan[i], path));
        }
        if removes(plan, path) && !is_removal_of(plan.last(), path) {
            let i = choose|i: int| 0 <= i < plan.len() && is_removal_of(#[trigger] plan[i], path);
            assert(is_removal_of(head[i], path));
        }
        if is_removal_of(plan.last(), path) {
            assert(is_removal_of(plan[plan.len() - 1], path));
        }
    }
}

/// Plans that make nothing still make nothing when they are put one after
/// the other.
pub proof fn lemma_concat_plans_make_nothing<T>(items: Seq<T>, plan: spec_fn(T) -> Seq<FsOpView>)
    requires
        forall|k: int| 0 <= k < items.len() ==> plan_makes_nothing(#[trigger] plan(items[k])),
    ensures
        plan_makes_nothing(concat_plans(items, plan)),
{
    let all = concat_plans(items, plan);
    assert forall|i: int| 0 <= i < all.len() implies makes_nothing(#[trigger] all[i]) by {
        let found = lemma_concat_plans_member(items, plan, i);
        assert(plan_makes_nothing(plan(items[found.0])));
    }
}

/// Removing the directories among the entries of a directory makes
/// nothing, and removes each of them.
pub proof fn lemma_remove_dirs_plan(entries: Seq<DirEntry>, dir: Seq<char>)
    ensures
        plan_makes_nothing(remove_dirs_plan(entries, dir)),
        forall|e: int|
            0 <= e < entries.len() && (#[trigger] entries[e]).is_dir ==> removes(
                remove_dirs_plan(entries, dir),
                join(dir, entries[e].name@),
            ),
{
    let plan = |entry: DirEntry| remove_dir_plan(entry, dir);
    lemma_concat_plans_make_nothing(entries, plan);
    assert forall|e: int| 0 <= e < entries.len() && (#[trigger] entries[e]).is_dir implies removes(
        remove_dirs_plan(entries, dir),
        join(dir, entries[e].name@),
    ) by {
        let at = lemma_concat_plans_contains(entries, plan, e, 0);
        assert(is_removal_of(remove_dirs_plan(entries, dir)[at], join(dir, entries[e].name@)));
    }
}

/// Removing the links among the entries of a directory makes nothing, and
/// removes each of them.
pub proof fn lemma_remove_links_plan(entries: Seq<DirEntry>, dir: Seq<char>)
    ensures
        plan_makes_nothing(remove_links_plan(entries, dir)),
        forall|e: int|
            0 <= e < entries.len() && (#[trigger] entries[e]).is_symlink ==> removes(
                remove_links_plan(entries, dir),
                join(dir, entries[e].name@),
            ),
{
    let plan = |entry: DirEntry| remove_link_plan(entry, dir);
    lemma_concat_plans_make_nothing(entries, plan);
    assert forall|e: int|
        0 <= e < entries.len() && (#[trigger] entries[e]).is_symlink implies removes(
        remove_links_plan(entries, dir),
        join(dir, entries[e].name@),
    ) by {
        let at = lemma_concat_plans_contains(entries, plan, e, 0);
        assert(is_removal_of(remove_links_plan(entries, dir)[at], join(dir, entries[e].name@)));
    }
}

/// What the first of two plans removes, and what the second removes, the
/// two plans one after the other remove; and they make nothing where
/// neither does.
pub proof fn lemma_removes_append(a: Seq<FsOpView>, b: Seq<FsOpView>)
    ensures
        forall|path: Seq<char>| #[trigger] removes(a, path) ==> removes(a + b, path),
        forall|path: Seq<char>| #[trigger] removes(b, path) ==> removes(a + b, path),
        plan_makes_nothing(a) && plan_makes_nothing(b) ==> plan_makes_nothing(a + b),
{
    assert forall|path: Seq<char>| #[trigger] removes(a, path) implies removes(a + b, path) by {
        let i = choose|i: int| 0 <= i < a.len() && is_removal_of(#[trigger] a[i], path);
        assert(is_removal_of((a + b)[i], path));
    }
    assert forall|path: Seq<char>| #[trigger] removes(b, path) implies removes(a + b, path) by {
        let i = choose|i: int| 0 <= i < b.len() && is_removal_of(#[trigger] b[i], path);
        assert(is_removal_of((a + b)[a.len() + i], path));
    }
    if plan_makes_nothing(a) && plan_makes_nothing(b) {
        assert forall|i: int| 0 <= i < (a + b).len() implies makes_nothing(#[trigger] (a + b)[i]) by {
            if i < a.len() {
                assert((a + b)[i] == a[i]);
            } else {
                assert((a + b)[i] == b[i - a.len()]);
            }
        }
    }
}

/// What the plan of one item removes, the plans of all items one after the
/// other remove.
pub proof fn lemma_concat_plans_remove<T>(
    items: Seq<T>,
    plan: spec_fn(T) -> Seq<FsOpView>,
    item: int,
    path: Seq<char>,
)
    requires
        0 <= item < items.len(),
        removes(plan(items[item]), path),
    ensures
        removes(concat_plans(items, plan), path),
{
    let own = plan(items[item]);
    let i = choose|i: int| 0 <= i < own.len() && is_removal_of(#[trigger] own[i], path);
    let at = lemma_concat_plans_contains(items, plan, item, i);
    assert(is_removal_of(concat_plans(items, plan)[at], path));
}

/// Taking a configuration down makes nothing, and removes the
/// configuration, its links and its names.
pub proof fn lemma_config_cleanup_plan(config: ConfigSnapshot, dir: Seq<char>)
    ensures
        plan_makes_nothing(config_cleanup_plan(config, dir)),
        config.is_dir ==> removes(config_cleanup_plan(config, dir), join(dir, config.name@)),
        forall|e: int|
            config.is_dir && 0 <= e < config.entries@.len() && (
            #[trigger] config.entries@[e]).is_symlink ==> removes(
                config_cleanup_plan(config, dir),
                join(join(dir, config.name@), config.entries@[e].name@),
            ),
        forall|e: int|
            config.is_dir && 0 <= e < config.strings@.len() && (
            #[trigger] config.strings@[e]).is_dir ==> removes(
                config_cleanup_plan(config, dir),
                join(join(join(dir, config.name@), "strings"@), config.strings@[e].name@),
            ),
{
    let path = join(dir, config.name@);
    let links = remove_links_plan(config.entries@, path);
    let names = remove_dirs_plan(config.strings@, join(path, "strings"@));
    let last = seq![FsOpView::RemoveDir { path }];
    lemma_remove_links_plan(config.entries@, path);
    lemma_remove_dirs_plan(config.strings@, join(path, "strings"@));
    assert(plan_makes_nothing(last));
    assert(is_removal_of(last[0], path));
    assert(removes(last, path));
    lemma_removes_append(links, names);
    lemma_removes_append(links + names, last);
    if config.is_dir {
        assert(config_cleanup_plan(config, dir) == links + names + last);
    } else {
        assert(config_cleanup_plan(config, dir) == Seq::<FsOpView>::empty());
    }
}

/// Taking a function down makes nothing, and removes the function and,
/// where it is a mass-storage function, its units but unit 0.
pub proof fn lemma_function_cleanup_plan(function: FunctionSnapshot, dir: Seq<char>)
    ensures
        plan_makes_nothing(function_cleanup_plan(function, dir)),
        function.is_dir ==> removes(
            function_cleanup_plan(function, dir),
            join(dir, function.name@),
        ),
        forall|e: int|
            function.is_dir && is_mass_storage(function) && 0 <= e < function.entries@.len() && (
            #[trigger] function.entries@[e]).is_dir && function.entries@[e].name@ != lun_name_text(
                0,
            ) ==> removes(
                function_cleanup_plan(function, dir),
                join(join(dir, function.name@), function.entries@[e].name@),
            ),
{
    let path = join(dir, function.name@);
    let last = seq![FsOpView::RemoveDir { path }];
    assert(plan_makes_nothing(last));
    assert(is_removal_of(last[0], path));
    assert(removes(last, path));
    let unit = |entry: DirEntry| FunctionMsgOpts::entry_cleanup_plan(entry, path);
    let units = concat_plans(function.entries@, unit);
    lemma_concat_plans_make_nothing(function.entries@, unit);
    lemma_removes_append(units, last);
    assert forall|e: int|
        0 <= e < function.entries@.len() && (#[trigger] function.entries@[e]).is_dir
            && function.entries@[e].name@ != lun_name_text(0) implies removes(
        units,
        join(path, function.entries@[e].name@),
    ) by {
        let at = lemma_concat_plans_contains(function.entries@, unit, e, 0);
        assert(is_removal_of(units[at], join(path, function.entries@[e].name@)));
    }
    if function.is_dir {
        if is_mass_storage(function) {
            assert(function_cleanup_plan(function, dir) == units + last);
        } else {
            assert(function_cleanup_plan(function, dir) == last);
        }
    } else {
        assert(function_cleanup_plan(function, dir) == Seq::<FsOpView>::empty());
    }
}

impl GadgetInfo {
    /// Taking a gadget down makes no directory and no link.
    pub proof fn lemma_cleanup_makes_nothing(base_dir: Seq<char>, found: Option<GadgetSnapshot>)
        ensures
            plan_makes_nothing(Self::cleanup_plan(base_dir, found)),
    {
        match found {
            Some(snapshot) => {
                Self::lemma_cleanup_parts(base_dir, snapshot);
            },
            None => {},
        }
    }

    /// The parts that the plan for taking a gadget down is made of: the
    /// unbinding, the configurations, the functions, the OS descriptor, the
    /// strings and the gadget itself. None of them makes a directory or a
    /// link.
    pub proof fn lemma_cleanup_parts(base_dir: Seq<char>, snapshot: GadgetSnapshot) -> (parts: (
        Seq<FsOpView>,
        Seq<FsOpView>,
        Seq<FsOpView>,
        Seq<FsOpView>,
        Seq<FsOpView>,
    ))
        ensures
            parts.0 == Self::unbind_plan(base_dir, snapshot.udc@) + concat_plans(
                snapshot.configs@,
                |config: ConfigSnapshot| config_cleanup_plan(config, join(base_dir, "configs"@)),
            ),
            parts.1 == concat_plans(
                snapshot.functions@,
                |function: FunctionSnapshot|
                    function_cleanup_plan(function, join(base_dir, "functions"@)),
            ),
            parts.2 == OsDesc::cleanup_plan(join(base_dir, "os_desc"@)),
            parts.3 == remove_dirs_plan(snapshot.strings@, join(base_dir, "strings"@)),
            parts.4 == seq![FsOpView::RemoveDir { path: base_dir }],
            Self::cleanup_plan(base_dir, Some(snapshot)) == parts.0 + parts.1 + parts.2 + parts.3
                + parts.4,
            plan_makes_nothing(parts.0),
            plan_makes_nothing(parts.1),
            plan_makes_nothing(parts.2),
            plan_makes_nothing(parts.3),
            plan_makes_nothing(parts.4),
            plan_makes_nothing(Self::cleanup_plan(base_dir, Some(snapshot))),
    {
        let config = |config: ConfigSnapshot|
            config_cleanup_plan(config, join(base_dir, "configs"@));
        let function = |function: FunctionSnapshot|
            function_cleanup_plan(function, join(base_dir, "functions"@));
        let unbind = Self::unbind_plan(base_dir, snapshot.udc@);
        let configs = concat_plans(snapshot.configs@, config);
        let functions = concat_plans(snapshot.functions@, function);
        let os_desc = OsDesc::cleanup_plan(join(base_dir, "os_desc"@));
        let strings = remove_dirs_plan(snapshot.strings@, join(base_dir, "strings"@));
        let last = seq![FsOpView::RemoveDir { path: base_dir }];
        assert forall|k: int| 0 <= k < snapshot.configs@.len() implies plan_makes_nothing(
            #[trigger] config(snapshot.configs@[k]),
        ) by {
            lemma_config_cleanup_plan(snapshot.configs@[k], join(base_dir, "configs"@));
        }
        lemma_concat_plans_make_nothing(snapshot.configs@, config);
        assert forall|k: int| 0 <= k < snapshot.functions@.len() implies plan_makes_nothing(
            #[trigger] function(snapshot.functions@[k]),
        ) by {
            lemma_function_cleanup_plan(snapshot.functions@[k], join(base_dir, "functions"@));
        }
        lemma_concat_plans_make_nothing(snapshot.functions@, function);
        lemma_remove_dirs_plan(snapshot.strings@, join(base_dir, "strings"@));
        assert(plan_makes_nothing(unbind));
        assert(plan_makes_nothing(os_desc));
        assert(plan_makes_nothing(last));
        lemma_removes_append(unbind, configs);
        lemma_removes_append(unbind + configs, functions);
        lemma_removes_append(unbind + configs + functions, os_desc);
        lemma_removes_append(unbind + configs + functions + os_desc, strings);
        lemma_removes_append(unbind + configs + functions + os_desc + strings, last);
        assert(Self::cleanup_plan(base_dir, Some(snapshot)) =~= unbind + configs + functions
            + os_desc + strings + last);
        (unbind + configs, functions, os_desc, strings, last)
    }

    /// Taking a gadget down removes every directory and link that was found
    /// of it.
    pub proof fn lemma_cleanup_removes_listed(
        base_dir: Seq<char>,
        snapshot: GadgetSnapshot,
        what: Listed,
    )
        requires
            listed_path(snapshot, base_dir, what) is Some,
        ensures
            removes(
                Self::cleanup_plan(base_dir, Some(snapshot)),
                listed_path(snapshot, base_dir, what)->Some_0,
            ),
    {
        let path = listed_path(snapshot, base_dir, what)->Some_0;
        let parts = Self::lemma_cleanup_parts(base_dir, snapshot);
        let unbind = Self::unbind_plan(base_dir, snapshot.udc@);
        let config = |config: ConfigSnapshot|
            config_cleanup_plan(config, join(base_dir, "configs"@));
        let function = |function: FunctionSnapshot|
            function_cleanup_plan(function, join(base_dir, "functions"@));
        let configs = concat_plans(snapshot.configs@, config);
        lemma_removes_append(unbind, configs);
        lemma_removes_append(parts.0, parts.1);
        lemma_removes_append(parts.0 + parts.1, parts.2);
        lemma_removes_append(parts.0 + parts.1 + parts.2, parts.3);
        lemma_removes_append(parts.0 + parts.1 + parts.2 + parts.3, parts.4);
        match what {
            Listed::Gadget => {
                assert(is_removal_of(parts.4[0], path));
                assert(removes(parts.4, path));
            },
            Listed::Config { config: k } => {
                lemma_config_cleanup_plan(snapshot.configs@[k], join(base_dir, "configs"@));
                lemma_concat_plans_remove(snapshot.configs@, config, k, path);
                assert(removes(parts.0, path));
            },
            Listed::ConfigLink { config: k, entry } => {
                lemma_config_cleanup_plan(snapshot.configs@[k], join(base_dir, "configs"@));
                assert(snapshot.configs@[k].entries@[entry].is_symlink);
                lemma_concat_plans_remove(snapshot.configs@, config, k, path);
                assert(removes(parts.0, path));
            },
            Listed::ConfigStrings { config: k, entry } => {
                lemma_config_cleanup_plan(snapshot.configs@[k], join(base_dir, "configs"@));
                assert(snapshot.configs@[k].strings@[entry].is_dir);
                lemma_concat_plans_remove(snapshot.configs@, config, k, path);
                assert(removes(parts.0, path));
            },
            Listed::Function { function: k } => {
                lemma_function_cleanup_plan(snapshot.functions@[k], join(base_dir, "functions"@));
                lemma_concat_plans_remove(snapshot.functions@, function, k, path);
                assert(removes(parts.1, path));
            },
            Listed::Unit { function: k, entry } => {
                lemma_function_cleanup_plan(snapshot.functions@[k], join(base_dir, "functions"@));
                assert(snapshot.functions@[k].entries@[entry].is_dir);
                lemma_concat_plans_remove(snapshot.functions@, function, k, path);
                assert(removes(parts.1, path));
            },
            Listed::Strings { entry } => {
                lemma_remove_dirs_plan(snapshot.strings@, join(base_dir, "strings"@));
                assert(snapshot.strings@[entry].is_dir);
                assert(removes(parts.3, path));
            },
        }
    }

    /// After a gadget was taken down nothing is left of it: where what was
    /// found lists every directory and link of the tree that is the gadget
    /// or lies below it, the tree that the plan leaves holds neither the
    /// gadget nor anything below it. Outside the gadget the tree is as it
    /// was.
    pub proof fn lemma_cleanup_leaves_nothing(
        base_dir: Seq<char>,
        snapshot: GadgetSnapshot,
        tree: Set<Seq<char>>,
    )
        requires
            lists_gadget(snapshot, base_dir, tree),
        ensures
            !perform_all(tree, Self::cleanup_plan(base_dir, Some(snapshot))).contains(base_dir),
            forall|path: Seq<char>|
                #[trigger] perform_all(
                    tree,
                    Self::cleanup_plan(base_dir, Some(snapshot)),
                ).contains(path) ==> tree.contains(path) && !within(path, base_dir),
    {
        let plan = Self::cleanup_plan(base_dir, Some(snapshot));
        Self::lemma_cleanup_makes_nothing(base_dir, Some(snapshot));
        lemma_perform_all_removals(tree, plan, base_dir);
        assert(listed_path(snapshot, base_dir, Listed::Gadget) == Some(base_dir));
        Self::lemma_cleanup_removes_listed(base_dir, snapshot, Listed::Gadget);
        assert forall|path: Seq<char>| #[trigger]
            perform_all(tree, plan).contains(path) implies tree.contains(path) && !within(
            path,
            base_dir,
        ) by {
            lemma_perform_all_removals(tree, plan, path);
            if within(path, base_dir) {
                assert(lists(snapshot, base_dir, path));
                let what = choose|what: Listed| #[trigger]
                    listed_path(snapshot, base_dir, what) == Some(path);
                Self::lemma_cleanup_removes_listed(base_dir, snapshot, what);
            }
        }
    }

    /// Taking down a gadget that is not there leaves the tree as it is.
    pub proof fn lemma_cleanup_of_nothing_leaves_tree(base_dir: Seq<char>, tree: Set<Seq<char>>)
        ensures
            perform_all(tree, Self::cleanup_plan(base_dir, None)) == tree,
    {
    }
}

} // verus!
