//! Bringing a gadget up and taking it down again, in the model of the tree.

use vstd::prelude::*;
use crate::configfs::{
    concat_plans, lemma_concat_plans_member, op_path, within, DirEntry, FsOpView,
};
use crate::gadget::tree::{is_mass_storage, listed_path, lists, lists_gadget, perform_all, Listed};
use crate::gadget::{
    function_link_plan, language_plans, named_plans, ConfigSnapshot, Configurable, FunctionOpts,
    FunctionSnapshot, GadgetConfigName, GadgetInfo, GadgetSnapshot, GadgetStrings,
    UsbConfiguration,
};
use crate::mass_storage::{lun_name_text, FunctionMsgOpts, MsgLun};
use crate::text::{join, prefixed_hex};

verus! {

/// Whether `op` makes the directory or link `path`.
pub open spec fn is_making_of(op: FsOpView, path: Seq<char>) -> bool {
    match op {
        FsOpView::CreateDir { path: made } => made == path,
        FsOpView::EnsureDir { path: made } => made == path,
        FsOpView::Symlink { link, .. } => link == path,
        _ => false,
    }
}

/// Whether an operation of `plan` makes the directory or link `path`.
pub open spec fn makes(plan: Seq<FsOpView>, path: Seq<char>) -> bool {
    exists|i: int| 0 <= i < plan.len() && is_making_of(#[trigger] plan[i], path)
}

/// Whether `entries` hold a directory of the name `name`.
pub open spec fn has_dir(entries: Seq<DirEntry>, name: Seq<char>) -> bool {
    exists|e: int| 0 <= e < entries.len() && (#[trigger] entries[e]).name@ == name && entries[e].is_dir
}

/// Whether `entries` hold a symbolic link of the name `name`.
pub open spec fn has_link(entries: Seq<DirEntry>, name: Seq<char>) -> bool {
    exists|e: int|
        0 <= e < entries.len() && (#[trigger] entries[e]).name@ == name && entries[e].is_symlink
}

/// Whether `found` is what is found of the function `opts` of the name
/// `name` once it was written: its directory, and for a mass-storage
/// function the directory of every unit but unit 0.
pub open spec fn shows_function(found: FunctionSnapshot, name: Seq<char>, opts: FunctionOpts) -> bool {
    &&& found.name@ == name
    &&& found.is_dir
    &&& match opts {
        FunctionOpts::Hid(_) => true,
        FunctionOpts::Msg(msg) => forall|l: int|
            0 <= l < msg.luns@.len() && (#[trigger] msg.luns@[l]).0@ != lun_name_text(0)
                ==> has_dir(found.entries@, msg.luns@[l].0@),
    }
}

/// A name that begins with `mass_storage` does not begin with `hid`: a
/// function of that name is taken down as a mass-storage function.
pub proof fn lemma_mass_storage_name(found: FunctionSnapshot)
    requires
        crate::text::begins_with(found.name@, GadgetInfo::MASS_STORAGE@),
    ensures
        is_mass_storage(found),
{
    reveal_strlit("hid");
    reveal_strlit("mass_storage");
    let name = found.name@;
    assert(name.subrange(0, 12)[0] == 'm');
    if crate::text::begins_with(name, GadgetInfo::HID@) {
        assert(name.subrange(0, 3)[0] == 'h');
    }
}

/// Whether `found` is what is found of the configuration `config` of the
/// name `name` once it was written: its directory, a link for every function
/// and a directory for its name in every language.
pub open spec fn shows_config(found: ConfigSnapshot, name: Seq<char>, config: UsbConfiguration) -> bool {
    &&& found.name@ == name
    &&& found.is_dir
    &&& forall|f: int|
        0 <= f < config.functions@.len() ==> has_link(
            found.entries@,
            (#[trigger] config.functions@[f])@,
        )
    &&& forall|l: int|
        0 <= l < config.strings@.len() ==> has_dir(
            found.strings@,
            prefixed_hex((#[trigger] config.strings@[l]).0 as nat),
        )
}

/// Whether `snapshot` holds what is found of the function `opts` of the
/// name `name`.
pub open spec fn function_shown(snapshot: GadgetSnapshot, name: Seq<char>, opts: FunctionOpts) -> bool {
    exists|j: int|
        0 <= j < snapshot.functions@.len() && shows_function(
            #[trigger] snapshot.functions@[j],
            name,
            opts,
        )
}

/// Whether `snapshot` holds what is found of the configuration `config` of
/// the name `name`.
pub open spec fn config_shown(snapshot: GadgetSnapshot, name: Seq<char>, config: UsbConfiguration) -> bool {
    exists|j: int|
        0 <= j < snapshot.configs@.len() && shows_config(
            #[trigger] snapshot.configs@[j],
            name,
            config,
        )
}

/// Whether `snapshot` is what a look at the tree finds once `gadget` was
/// written, in whole or in part: it holds every function with its units,
/// every configuration with its links and names, and the strings in every
/// language. It may hold more.
pub open spec fn shows(snapshot: GadgetSnapshot, gadget: GadgetInfo) -> bool {
    &&& forall|k: int|
        0 <= k < gadget.functions@.len() ==> function_shown(
            snapshot,
            (#[trigger] gadget.functions@[k]).0@,
            gadget.functions@[k].1,
        )
    &&& forall|k: int|
        0 <= k < gadget.configs@.len() ==> config_shown(
            snapshot,
            (#[trigger] gadget.configs@[k]).0@,
            gadget.configs@[k].1,
        )
    &&& forall|l: int|
        0 <= l < gadget.strings@.len() ==> has_dir(
            snapshot.strings@,
            prefixed_hex((#[trigger] gadget.strings@[l]).0 as nat),
        )
}

/// A tree holds after a plan only what it held before and what the plan
/// makes.
pub proof fn lemma_perform_all_made(tree: Set<Seq<char>>, plan: Seq<FsOpView>, path: Seq<char>)
    requires
        perform_all(tree, plan).contains(path),
    ensures
        tree.contains(path) || makes(plan, path),
    decreases plan.len(),
{
    if plan.len() > 0 {
        let head = plan.drop_last();
        if perform_all(tree, head).contains(path) {
            lemma_perform_all_made(tree, head, path);
            if makes(head, path) {
                let i = choose|i: int| 0 <= i < head.len() && is_making_of(#[trigger] head[i], path);
                assert(is_making_of(plan[i], path));
            }
        } else {
            assert(is_making_of(plan[plan.len() - 1], path));
        }
    }
}

/// What two plans one after the other make, one of them makes.
pub proof fn lemma_makes_append(a: Seq<FsOpView>, b: Seq<FsOpView>, path: Seq<char>)
    requires
        makes(a + b, path),
    ensures
        makes(a, path) || makes(b, path),
{
    let i = choose|i: int| 0 <= i < (a + b).len() && is_making_of(#[trigger] (a + b)[i], path);
    if i < a.len() {
        assert(is_making_of(a[i], path));
    } else {
        assert(is_making_of(b[i - a.len()], path));
    }
}

/// What the plans of some items one after the other make, the plan of one
/// of the items makes.
pub proof fn lemma_makes_concat<T>(
    items: Seq<T>,
    plan: spec_fn(T) -> Seq<FsOpView>,
    path: Seq<char>,
) -> (item: int)
    requires
        makes(concat_plans(items, plan), path),
    ensures
        0 <= item < items.len(),
        makes(plan(items[item]), path),
{
    let all = concat_plans(items, plan);
    let i = choose|i: int| 0 <= i < all.len() && is_making_of(#[trigger] all[i], path);
    let found = lemma_concat_plans_member(items, plan, i);
    assert(is_making_of(plan(items[found.0])[found.1], path));
    found.0
}

/// What the first operations of a plan make, the plan makes.
pub proof fn lemma_makes_prefix(plan: Seq<FsOpView>, done: int, path: Seq<char>)
    requires
        0 <= done <= plan.len(),
        makes(plan.take(done), path),
    ensures
        makes(plan, path),
{
    let head = plan.take(done);
    let i = choose|i: int| 0 <= i < head.len() && is_making_of(#[trigger] head[i], path);
    assert(is_making_of(plan[i], path));
}

/// A plan of writes makes nothing.
pub proof fn lemma_writes_make_nothing(plan: Seq<FsOpView>, path: Seq<char>)
    requires
        forall|i: int| 0 <= i < plan.len() ==> (#[trigger] plan[i]) is Write,
    ensures
        !makes(plan, path),
{
}

/// Writing the names of a configuration makes one directory for each
/// language.
pub proof fn lemma_config_names_make(
    entries: Seq<(u16, GadgetConfigName)>,
    dir: Seq<char>,
    path: Seq<char>,
) -> (l: int)
    requires
        makes(language_plans(entries, dir), path),
    ensures
        0 <= l < entries.len(),
        path == join(dir, prefixed_hex(entries[l].0 as nat)),
{
    let plan = |entry: (u16, GadgetConfigName)|
        entry.1.apply_plan(join(dir, prefixed_hex(entry.0 as nat)));
    let l = lemma_makes_concat(entries, plan, path);
    let own = plan(entries[l]);
    let i = choose|i: int| 0 <= i < own.len() && is_making_of(#[trigger] own[i], path);
    l
}

/// Writing the strings of a gadget makes one directory for each language.
pub proof fn lemma_gadget_strings_make(
    entries: Seq<(u16, GadgetStrings)>,
    dir: Seq<char>,
    path: Seq<char>,
) -> (l: int)
    requires
        makes(language_plans(entries, dir), path),
    ensures
        0 <= l < entries.len(),
        path == join(dir, prefixed_hex(entries[l].0 as nat)),
{
    let plan = |entry: (u16, GadgetStrings)|
        entry.1.apply_plan(join(dir, prefixed_hex(entry.0 as nat)));
    let l = lemma_makes_concat(entries, plan, path);
    let own = plan(entries[l]);
    let i = choose|i: int| 0 <= i < own.len() && is_making_of(#[trigger] own[i], path);
    l
}

/// What writing a configuration makes.
pub enum ConfigPart {
    /// The directory of the configuration.
    Dir,
    /// The link to the function of this index.
    Link(int),
    /// The directory of the name in the language of this index.
    Name(int),
}

/// Writing a configuration makes its directory, a directory for its name in
/// each language and a link for each function, and nothing else.
pub proof fn lemma_config_makes(config: UsbConfiguration, dir: Seq<char>, path: Seq<char>) -> (part:
    ConfigPart)
    requires
        makes(config.apply_plan(dir), path),
    ensures
        match part {
            ConfigPart::Dir => path == dir,
            ConfigPart::Link(f) => 0 <= f < config.functions@.len() && path == join(
                dir,
                config.functions@[f]@,
            ),
            ConfigPart::Name(l) => 0 <= l < config.strings@.len() && path == join(
                join(dir, "strings"@),
                prefixed_hex(config.strings@[l].0 as nat),
            ),
        },
{
    let head = seq![
        FsOpView::CreateDir { path: dir },
        crate::configfs::write_text(
            dir,
            "bmAttributes"@,
            crate::text::decimal(config.bm_attributes as nat),
        ),
        crate::configfs::write_text(dir, "MaxPower"@, crate::text::decimal(config.max_power as nat)),
    ];
    let names = language_plans(config.strings@, join(dir, "strings"@));
    let link = |function: String| function_link_plan(function, dir);
    let links = concat_plans(config.functions@, link);
    assert(config.apply_plan(dir) == head + names + links);
    lemma_makes_append(head + names, links, path);
    if makes(links, path) {
        let f = lemma_makes_concat(config.functions@, link, path);
        let own = link(config.functions@[f]);
        let i = choose|i: int| 0 <= i < own.len() && is_making_of(#[trigger] own[i], path);
        ConfigPart::Link(f)
    } else {
        lemma_makes_append(head, names, path);
        if makes(names, path) {
            ConfigPart::Name(lemma_config_names_make(config.strings@, join(dir, "strings"@), path))
        } else {
            let i = choose|i: int| 0 <= i < head.len() && is_making_of(#[trigger] head[i], path);
            ConfigPart::Dir
        }
    }
}

/// Writing a function makes its directory and, for a mass-storage function,
/// a directory for each unit but unit 0, and nothing else. The result is the
/// index of the unit, or nothing for the directory of the function.
pub proof fn lemma_function_makes(opts: FunctionOpts, dir: Seq<char>, path: Seq<char>) -> (unit:
    Option<int>)
    requires
        makes(opts.apply_plan(dir), path),
    ensures
        match unit {
            None => path == dir,
            Some(l) => opts matches FunctionOpts::Msg(msg) && 0 <= l < msg.luns@.len()
                && msg.luns@[l].0@ != lun_name_text(0) && path == join(dir, msg.luns@[l].0@),
        },
{
    match opts {
        FunctionOpts::Hid(hid) => {
            let own = hid.apply_plan(dir);
            let i = choose|i: int| 0 <= i < own.len() && is_making_of(#[trigger] own[i], path);
            None
        },
        FunctionOpts::Msg(msg) => {
            let head = seq![
                FsOpView::CreateDir { path: dir },
                crate::configfs::write_text(dir, "stall"@, crate::configfs::flag_text(msg.stall)),
            ];
            let unit = |entry: (String, MsgLun)| FunctionMsgOpts::lun_plan(entry, dir);
            let units = concat_plans(msg.luns@, unit);
            assert(msg.apply_plan(dir) == head + units);
            lemma_makes_append(head, units, path);
            if makes(units, path) {
                let l = lemma_makes_concat(msg.luns@, unit, path);
                let own = unit(msg.luns@[l]);
                let i = choose|i: int| 0 <= i < own.len() && is_making_of(#[trigger] own[i], path);
                let entry = msg.luns@[l];
                if entry.0@ == lun_name_text(0) {
                    lemma_writes_make_nothing(entry.1.attribute_plan(join(dir, entry.0@)), path);
                } else {
                    let attributes = entry.1.attribute_plan(join(dir, entry.0@));
                    let first = seq![FsOpView::EnsureDir { path: join(dir, entry.0@) }];
                    lemma_writes_make_nothing(attributes, path);
                    assert(own == first + attributes);
                    lemma_makes_append(first, attributes, path);
                    let k = choose|k: int|
                        0 <= k < first.len() && is_making_of(#[trigger] first[k], path);
                }
                Some(l)
            } else {
                let i = choose|i: int| 0 <= i < head.len() && is_making_of(#[trigger] head[i], path);
                None
            }
        },
    }
}

impl GadgetInfo {
    /// Whatever the writing of a gadget makes is found by a look at the tree
    /// afterwards.
    pub proof fn lemma_made_is_listed(
        &self,
        base_dir: Seq<char>,
        snapshot: GadgetSnapshot,
        path: Seq<char>,
    )
        requires
            self.well_formed(),
            shows(snapshot, *self),
            makes(self.apply_plan(base_dir), path),
        ensures
            lists(snapshot, base_dir, path),
    {
        let device = self.device_plan(base_dir);
        let functions_dir = join(base_dir, "functions"@);
        let configs_dir = join(base_dir, "configs"@);
        let strings_dir = join(base_dir, "strings"@);
        let functions = named_plans(self.functions@, functions_dir);
        let configs = named_plans(self.configs@, configs_dir);
        let identity = self.identity_plan(base_dir);
        let os_desc = self.os_desc.apply_plan(join(base_dir, "os_desc"@));
        let strings = language_plans(self.strings@, strings_dir);
        let setup = self.setup_plan(base_dir);
        let bind = seq![crate::gadget::bind_op(base_dir, self.udc@)];
        assert(self.apply_plan(base_dir) =~= setup + bind);
        lemma_writes_make_nothing(bind, path);
        lemma_makes_append(setup, bind, path);
        assert(setup == device + functions + configs + identity + os_desc + strings);
        lemma_makes_append(device + functions + configs + identity + os_desc, strings, path);
        if makes(strings, path) {
            let l = lemma_gadget_strings_make(self.strings@, strings_dir, path);
            let name = prefixed_hex(self.strings@[l].0 as nat);
            assert(has_dir(snapshot.strings@, name));
            let e = choose|e: int|
                0 <= e < snapshot.strings@.len() && (#[trigger] snapshot.strings@[e]).name@ == name
                    && snapshot.strings@[e].is_dir;
            assert(listed_path(snapshot, base_dir, Listed::Strings { entry: e }) == Some(path));
        } else {
            lemma_makes_append(device + functions + configs + identity, os_desc, path);
            lemma_writes_make_nothing(os_desc, path);
            lemma_makes_append(device + functions + configs, identity, path);
            lemma_writes_make_nothing(identity, path);
            lemma_makes_append(device + functions, configs, path);
            if makes(configs, path) {
                self.lemma_made_config_is_listed(base_dir, snapshot, path);
            } else {
                lemma_makes_append(device, functions, path);
                if makes(functions, path) {
                    self.lemma_made_function_is_listed(base_dir, snapshot, path);
                } else {
                    let i = choose|i: int|
                        0 <= i < device.len() && is_making_of(#[trigger] device[i], path);
                    assert(path == base_dir);
                    assert(listed_path(snapshot, base_dir, Listed::Gadget) == Some(path));
                }
            }
        }
    }

    /// Whatever the writing of the configurations makes is found by a look
    /// at the tree afterwards.
    pub proof fn lemma_made_config_is_listed(
        &self,
        base_dir: Seq<char>,
        snapshot: GadgetSnapshot,
        path: Seq<char>,
    )
        requires
            shows(snapshot, *self),
            makes(named_plans(self.configs@, join(base_dir, "configs"@)), path),
        ensures
            lists(snapshot, base_dir, path),
    {
        let configs_dir = join(base_dir, "configs"@);
        let plan = |entry: (String, UsbConfiguration)|
            entry.1.apply_plan(join(configs_dir, entry.0@));
        let k = lemma_makes_concat(self.configs@, plan, path);
        let entry = self.configs@[k];
        let dir = join(configs_dir, entry.0@);
        let part = lemma_config_makes(entry.1, dir, path);
        assert(config_shown(snapshot, entry.0@, entry.1));
        let j = choose|j: int|
            0 <= j < snapshot.configs@.len() && shows_config(
                #[trigger] snapshot.configs@[j],
                entry.0@,
                entry.1,
            );
        let found = snapshot.configs@[j];
        match part {
            ConfigPart::Dir => {
                assert(listed_path(snapshot, base_dir, Listed::Config { config: j }) == Some(path));
            },
            ConfigPart::Link(f) => {
                let name = entry.1.functions@[f]@;
                assert(has_link(found.entries@, name));
                let e = choose|e: int|
                    0 <= e < found.entries@.len() && (#[trigger] found.entries@[e]).name@ == name
                        && found.entries@[e].is_symlink;
                assert(listed_path(snapshot, base_dir, Listed::ConfigLink { config: j, entry: e })
                    == Some(path));
            },
            ConfigPart::Name(l) => {
                let name = prefixed_hex(entry.1.strings@[l].0 as nat);
                assert(has_dir(found.strings@, name));
                let e = choose|e: int|
                    0 <= e < found.strings@.len() && (#[trigger] found.strings@[e]).name@ == name
                        && found.strings@[e].is_dir;
                assert(listed_path(
                    snapshot,
                    base_dir,
                    Listed::ConfigStrings { config: j, entry: e },
                ) == Some(path));
            },
        }
    }

    /// Whatever the writing of the functions makes is found by a look at the
    /// tree afterwards.
    pub proof fn lemma_made_function_is_listed(
        &self,
        base_dir: Seq<char>,
        snapshot: GadgetSnapshot,
        path: Seq<char>,
    )
        requires
            self.well_formed(),
            shows(snapshot, *self),
            makes(named_plans(self.functions@, join(base_dir, "functions"@)), path),
        ensures
            lists(snapshot, base_dir, path),
    {
        let functions_dir = join(base_dir, "functions"@);
        let plan = |entry: (String, FunctionOpts)|
            entry.1.apply_plan(join(functions_dir, entry.0@));
        let k = lemma_makes_concat(self.functions@, plan, path);
        let entry = self.functions@[k];
        let dir = join(functions_dir, entry.0@);
        let unit = lemma_function_makes(entry.1, dir, path);
        assert(function_shown(snapshot, entry.0@, entry.1));
        let j = choose|j: int|
            0 <= j < snapshot.functions@.len() && shows_function(
                #[trigger] snapshot.functions@[j],
                entry.0@,
                entry.1,
            );
        let found = snapshot.functions@[j];
        match unit {
            None => {
                assert(listed_path(snapshot, base_dir, Listed::Function { function: j }) == Some(
                    path,
                ));
            },
            Some(l) => {
                let msg = entry.1->Msg_0;
                let name = msg.luns@[l].0@;
                assert(Self::name_tells_kind(entry.0@, entry.1));
                lemma_mass_storage_name(found);
                assert(has_dir(found.entries@, name));
                let e = choose|e: int|
                    0 <= e < found.entries@.len() && (#[trigger] found.entries@[e]).name@ == name
                        && found.entries@[e].is_dir;
                assert(listed_path(snapshot, base_dir, Listed::Unit { function: j, entry: e })
                    == Some(path));
            },
        }
    }

    /// A gadget that is well formed, was brought up and is taken down again
    /// leaves nothing behind, whether it was brought up in full or only in
    /// part. `done` is
    /// the number of operations of the plan for `base_dir` that were
    /// performed on the empty tree, `snapshot` what a look at the tree found
    /// after that. Performing the plan that takes the gadget down leaves
    /// the tree empty again: the gadget is gone, and so is everything below
    /// it.
    pub proof fn lemma_up_and_down_leaves_nothing(
        &self,
        base_dir: Seq<char>,
        done: int,
        snapshot: GadgetSnapshot,
    )
        requires
            self.well_formed(),
            0 <= done <= self.apply_plan(base_dir).len(),
            shows(snapshot, *self),
        ensures
            lists_gadget(
                snapshot,
                base_dir,
                perform_all(Set::empty(), self.apply_plan(base_dir).take(done)),
            ),
            perform_all(
                perform_all(Set::empty(), self.apply_plan(base_dir).take(done)),
                Self::cleanup_plan(base_dir, Some(snapshot)),
            ) == Set::<Seq<char>>::empty(),
    {
        let up = self.apply_plan(base_dir);
        let tree = perform_all(Set::empty(), up.take(done));
        self.lemma_apply_plan_within(base_dir);
        assert forall|path: Seq<char>| #[trigger] tree.contains(path) implies lists(
            snapshot,
            base_dir,
            path,
        ) && within(path, base_dir) by {
            lemma_perform_all_made(Set::empty(), up.take(done), path);
            lemma_makes_prefix(up, done, path);
            self.lemma_made_is_listed(base_dir, snapshot, path);
            let i = choose|i: int| 0 <= i < up.len() && is_making_of(#[trigger] up[i], path);
            assert(op_path(up[i]) == path);
        }
        Self::lemma_cleanup_leaves_nothing(base_dir, snapshot, tree);
        let left = perform_all(tree, Self::cleanup_plan(base_dir, Some(snapshot)));
        assert forall|path: Seq<char>| !left.contains(path) by {
            if left.contains(path) {
                assert(tree.contains(path) && !within(path, base_dir));
            }
        }
        assert(left =~= Set::<Seq<char>>::empty());
    }
}

} // verus!
