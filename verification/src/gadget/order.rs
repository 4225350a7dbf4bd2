//! What comes before what when a gadget is brought up or taken down.

use vstd::prelude::*;
use crate::configfs::{
    concat_plans, lemma_concat_plans_contains, lemma_entry_within, lemma_plan_within_join, op_path,
    plan_avoids, plan_within, within, DirEntry, FsOpView,
};
use crate::mass_storage::FunctionMsgOpts;
use crate::text::{
    begins_with, hexadecimal, join, lemma_hexadecimal_injective, lemma_join_injective,
    prefixed_hex,
};
use crate::gadget::{
    bind_op, config_cleanup_plan, function_cleanup_plan, function_link_target, language_plans,
    lemma_language_plans_within, lemma_named_plans_within, named_plans, remove_dir_plan,
    remove_dirs_plan, remove_link_plan, remove_links_plan, unbind_op, unbound_udc, ConfigSnapshot,
    Configurable, FunctionOpts, FunctionSnapshot, GadgetInfo, GadgetSnapshot, UsbConfiguration,
};

verus! {

impl GadgetInfo {
    /// Nothing that is done before the gadget is bound touches the attribute
    /// `UDC`, and all of it stays within the gadget.
    pub proof fn lemma_setup_plan(&self, base_dir: Seq<char>)
        ensures
            plan_within(self.setup_plan(base_dir), base_dir),
            plan_avoids(self.setup_plan(base_dir), join(base_dir, "UDC"@)),
    {
        reveal_strlit("UDC");
        reveal_strlit("bcdDevice");
        reveal_strlit("bcdUSB");
        reveal_strlit("bDeviceClass");
        reveal_strlit("bDeviceProtocol");
        reveal_strlit("bDeviceSubClass");
        reveal_strlit("bMaxPacketSize0");
        reveal_strlit("idProduct");
        reveal_strlit("idVendor");
        reveal_strlit("max_speed");
        reveal_strlit("functions");
        reveal_strlit("configs");
        reveal_strlit("os_desc");
        reveal_strlit("strings");
        let udc = join(base_dir, "UDC"@);
        let at = base_dir.len() as int + 1;
        assert(udc[at] == 'U');
        assert(udc.len() == base_dir.len() + 4);

        let device = self.device_plan(base_dir);
        assert forall|i: int| 0 <= i < device.len() implies within(
            op_path(#[trigger] device[i]),
            base_dir,
        ) && op_path(device[i]) != udc by {
            match device[i] {
                FsOpView::Write { path, .. } => {
                    let name = choose|name: Seq<char>| path == join(base_dir, name) && name.len() > 4;
                    lemma_entry_within(base_dir, name);
                },
                _ => {},
            }
        }
        let identity = self.identity_plan(base_dir);
        assert forall|i: int| 0 <= i < identity.len() implies within(
            op_path(#[trigger] identity[i]),
            base_dir,
        ) && op_path(identity[i]) != udc by {
            match identity[i] {
                FsOpView::Write { path, .. } => {
                    let name = choose|name: Seq<char>| path == join(base_dir, name) && name.len() > 4;
                    lemma_entry_within(base_dir, name);
                },
                _ => {},
            }
        }
        let functions = named_plans(self.functions@, join(base_dir, "functions"@));
        lemma_named_plans_within(self.functions@, join(base_dir, "functions"@));
        lemma_plan_within_join(functions, base_dir, "functions"@);
        assert(plan_avoids(functions, udc)) by {
            assert forall|i: int| 0 <= i < functions.len() implies op_path(
                #[trigger] functions[i],
            ) != udc by {
                assert(op_path(functions[i])[at] == 'f');
            }
        }
        let configs = named_plans(self.configs@, join(base_dir, "configs"@));
        lemma_named_plans_within(self.configs@, join(base_dir, "configs"@));
        lemma_plan_within_join(configs, base_dir, "configs"@);
        assert(plan_avoids(configs, udc)) by {
            assert forall|i: int| 0 <= i < configs.len() implies op_path(#[trigger] configs[i])
                != udc by {
                assert(op_path(configs[i])[at] == 'c');
            }
        }
        let os_desc = self.os_desc.apply_plan(join(base_dir, "os_desc"@));
        self.os_desc.lemma_apply_plan_within(join(base_dir, "os_desc"@));
        lemma_plan_within_join(os_desc, base_dir, "os_desc"@);
        assert(plan_avoids(os_desc, udc)) by {
            assert forall|i: int| 0 <= i < os_desc.len() implies op_path(#[trigger] os_desc[i])
                != udc by {
                assert(op_path(os_desc[i])[at] == 'o');
            }
        }
        let strings = language_plans(self.strings@, join(base_dir, "strings"@));
        lemma_language_plans_within(self.strings@, join(base_dir, "strings"@));
        lemma_plan_within_join(strings, base_dir, "strings"@);
        assert(plan_avoids(strings, udc)) by {
            assert forall|i: int| 0 <= i < strings.len() implies op_path(#[trigger] strings[i])
                != udc by {
                assert(op_path(strings[i])[at] == 's');
            }
        }
        assert(self.setup_plan(base_dir) == device + functions + configs + identity + os_desc
            + strings);
    }

    /// Binding the gadget to its controller is the last thing that is done,
    /// and nothing before it touches the attribute `UDC`: where an earlier
    /// operation fails, the gadget is left unbound.
    pub proof fn lemma_bind_comes_last(&self, base_dir: Seq<char>)
        ensures
            self.apply_plan(base_dir).len() > 0,
            self.apply_plan(base_dir).last() == bind_op(base_dir, self.udc@),
            forall|i: int|
                0 <= i < self.apply_plan(base_dir).len() - 1 ==> op_path(
                    #[trigger] self.apply_plan(base_dir)[i],
                ) != op_path(bind_op(base_dir, self.udc@)),
    {
        self.lemma_setup_plan(base_dir);
        let setup = self.setup_plan(base_dir);
        assert forall|i: int| 0 <= i < self.apply_plan(base_dir).len() - 1 implies op_path(
            #[trigger] self.apply_plan(base_dir)[i],
        ) != op_path(bind_op(base_dir, self.udc@)) by {
            assert(self.apply_plan(base_dir)[i] == setup[i]);
        }
    }

    /// In a gadget that is well formed no two functions, no two
    /// configurations and no two sets of strings are written to the same
    /// directory.
    pub proof fn lemma_directories_differ(&self, base_dir: Seq<char>, i: int, j: int)
        requires
            self.well_formed(),
            0 <= i < j,
        ensures
            j < self.functions@.len() ==> join(
                join(base_dir, "functions"@),
                self.functions@[i].0@,
            ) != join(join(base_dir, "functions"@), self.functions@[j].0@),
            j < self.configs@.len() ==> join(join(base_dir, "configs"@), self.configs@[i].0@)
                != join(join(base_dir, "configs"@), self.configs@[j].0@),
            j < self.strings@.len() ==> join(
                join(base_dir, "strings"@),
                prefixed_hex(self.strings@[i].0 as nat),
            ) != join(join(base_dir, "strings"@), prefixed_hex(self.strings@[j].0 as nat)),
    {
        if j < self.functions@.len() {
            lemma_join_injective(
                join(base_dir, "functions"@),
                self.functions@[i].0@,
                self.functions@[j].0@,
            );
        }
        if j < self.configs@.len() {
            lemma_join_injective(
                join(base_dir, "configs"@),
                self.configs@[i].0@,
                self.configs@[j].0@,
            );
        }
        if j < self.strings@.len() {
            let a = self.strings@[i].0 as nat;
            let b = self.strings@[j].0 as nat;
            lemma_join_injective(join(base_dir, "strings"@), prefixed_hex(a), prefixed_hex(b));
            lemma_hexadecimal_injective(a, b);
            if prefixed_hex(a) == prefixed_hex(b) {
                assert(prefixed_hex(a).subrange(2, prefixed_hex(a).len() as int) =~= hexadecimal(a));
                assert(prefixed_hex(b).subrange(2, prefixed_hex(b).len() as int) =~= hexadecimal(b));
            }
        }
    }

    /// Writing the functions of the gadget creates the directory of each of
    /// them.
    pub proof fn lemma_function_is_created(&self, base_dir: Seq<char>, function: int) -> (at: int)
        requires
            0 <= function < self.functions@.len(),
        ensures
            0 <= at < named_plans(self.functions@, join(base_dir, "functions"@)).len(),
            named_plans(self.functions@, join(base_dir, "functions"@))[at] == (FsOpView::CreateDir {
                path: join(join(base_dir, "functions"@), self.functions@[function].0@),
            }),
    {
        let dir = join(base_dir, "functions"@);
        let plan = |entry: (String, FunctionOpts)| entry.1.apply_plan(join(dir, entry.0@));
        let created = plan(self.functions@[function]);
        assert(created.len() > 0 && created[0] == (FsOpView::CreateDir {
            path: join(dir, self.functions@[function].0@),
        })) by {
            match self.functions@[function].1 {
                FunctionOpts::Hid(opts) => {},
                FunctionOpts::Msg(opts) => {},
            }
        }
        lemma_concat_plans_contains(self.functions@, plan, function, 0)
    }

    /// Writing the configurations of the gadget links in each function
    /// that one of them names.
    pub proof fn lemma_function_is_linked(&self, base_dir: Seq<char>, config: int, function: int) -> (at:
        int)
        requires
            0 <= config < self.configs@.len(),
            0 <= function < self.configs@[config].1.functions@.len(),
        ensures
            0 <= at < named_plans(self.configs@, join(base_dir, "configs"@)).len(),
            named_plans(self.configs@, join(base_dir, "configs"@))[at] == (FsOpView::Symlink {
                target: function_link_target(self.configs@[config].1.functions@[function]@),
                link: join(
                    join(join(base_dir, "configs"@), self.configs@[config].0@),
                    self.configs@[config].1.functions@[function]@,
                ),
            }),
    {
        let configs_dir = join(base_dir, "configs"@);
        let plan = |entry: (String, UsbConfiguration)|
            entry.1.apply_plan(join(configs_dir, entry.0@));
        let entry = self.configs@[config];
        let dir = join(configs_dir, entry.0@);
        let inner = entry.1.lemma_function_is_linked(dir, function);
        lemma_concat_plans_contains(self.configs@, plan, config, inner)
    }

    /// In a gadget that is well formed, every function that a configuration
    /// names is created before the configuration links it in, and both
    /// before the gadget is bound.
    pub proof fn lemma_functions_come_before_links(
        &self,
        base_dir: Seq<char>,
        config: int,
        function: int,
    ) -> (found: (int, int))
        requires
            self.well_formed(),
            0 <= config < self.configs@.len(),
            0 <= function < self.configs@[config].1.functions@.len(),
        ensures
            0 <= found.0 < found.1 < self.apply_plan(base_dir).len() - 1,
            self.apply_plan(base_dir)[found.0] == (FsOpView::CreateDir {
                path: join(
                    join(base_dir, "functions"@),
                    self.configs@[config].1.functions@[function]@,
                ),
            }),
            self.apply_plan(base_dir)[found.1] == (FsOpView::Symlink {
                target: function_link_target(self.configs@[config].1.functions@[function]@),
                link: join(
                    join(join(base_dir, "configs"@), self.configs@[config].0@),
                    self.configs@[config].1.functions@[function]@,
                ),
            }),
    {
        let name = self.configs@[config].1.functions@[function]@;
        assert(self.has_function(name));
        let k = choose|k: int|
            0 <= k < self.functions@.len() && (#[trigger] self.functions@[k]).0@ == name;
        let first = self.lemma_function_is_created(base_dir, k);
        let second = self.lemma_function_is_linked(base_dir, config, function);
        let device = self.device_plan(base_dir);
        let functions = named_plans(self.functions@, join(base_dir, "functions"@));
        let configs = named_plans(self.configs@, join(base_dir, "configs"@));
        let rest = self.identity_plan(base_dir) + self.os_desc.apply_plan(
            join(base_dir, "os_desc"@),
        ) + language_plans(self.strings@, join(base_dir, "strings"@));
        let setup = self.setup_plan(base_dir);
        assert(setup =~= device + functions + configs + rest);
        assert(setup[device.len() + first] == functions[first]);
        assert(setup[device.len() + functions.len() + second] == configs[second]);
        let plan = self.apply_plan(base_dir);
        assert(plan[device.len() + first] == setup[device.len() + first]);
        assert(plan[device.len() + functions.len() + second] == setup[device.len()
            + functions.len() + second]);
        (device.len() + first, device.len() + functions.len() + second)
    }

    /// Taking down a gadget that is not there does nothing.
    pub proof fn lemma_cleanup_of_missing_gadget(base_dir: Seq<char>)
        ensures
            Self::cleanup_plan(base_dir, None) == Seq::<FsOpView>::empty(),
    {
    }

    /// A gadget that is bound is taken off its controller before anything
    /// is removed: the first operation unbinds it, and every removal of a
    /// link or a directory comes after that. At the very end the gadget
    /// itself is removed.
    pub proof fn lemma_unbind_comes_first(base_dir: Seq<char>, snapshot: GadgetSnapshot)
        requires
            snapshot.udc@ != unbound_udc(),
        ensures
            Self::cleanup_plan(base_dir, Some(snapshot)).len() >= 3,
            Self::cleanup_plan(base_dir, Some(snapshot))[0] == unbind_op(base_dir),
            forall|i: int|
                0 <= i < Self::cleanup_plan(base_dir, Some(snapshot)).len() && (
                #[trigger] Self::cleanup_plan(base_dir, Some(snapshot))[i] is RemoveFile
                    || Self::cleanup_plan(base_dir, Some(snapshot))[i] is RemoveDir) ==> i > 0,
            Self::cleanup_plan(base_dir, Some(snapshot)).last() == (FsOpView::RemoveDir {
                path: base_dir,
            }),
    {
    }

    /// A gadget that is bound to no controller is taken down without a
    /// write to the attribute `UDC`: the plan is the removals alone, and it
    /// ends with the removal of the gadget itself.
    pub proof fn lemma_cleanup_of_unbound_gadget(base_dir: Seq<char>, snapshot: GadgetSnapshot)
        requires
            snapshot.udc@ == unbound_udc(),
        ensures
            Self::cleanup_plan(base_dir, Some(snapshot)) == Self::removal_plan(base_dir, snapshot),
            Self::cleanup_plan(base_dir, Some(snapshot)).last() == (FsOpView::RemoveDir {
                path: base_dir,
            }),
    {
    }

    /// Every configuration that was found is removed, and so is every
    /// symbolic link that was found in it, the link before the
    /// configuration.
    pub proof fn lemma_cleanup_removes_config(
        base_dir: Seq<char>,
        snapshot: GadgetSnapshot,
        config: int,
    ) -> (at: int)
        requires
            0 <= config < snapshot.configs@.len(),
            snapshot.configs@[config].is_dir,
        ensures
            0 <= at < Self::cleanup_plan(base_dir, Some(snapshot)).len(),
            Self::cleanup_plan(base_dir, Some(snapshot))[at] == (FsOpView::RemoveDir {
                path: join(join(base_dir, "configs"@), snapshot.configs@[config].name@),
            }),
            forall|link: int|
                0 <= link < snapshot.configs@[config].entries@.len()
                    && (#[trigger] snapshot.configs@[config].entries@[link]).is_symlink ==> exists|
                    before: int,
                |
                    0 <= before < at && Self::cleanup_plan(base_dir, Some(snapshot))[before] == (
                    FsOpView::RemoveFile {
                        path: join(
                            join(join(base_dir, "configs"@), snapshot.configs@[config].name@),
                            snapshot.configs@[config].entries@[link].name@,
                        ),
                    }),
    {
        let dir = join(base_dir, "configs"@);
        let plan = |config: ConfigSnapshot| config_cleanup_plan(config, dir);
        let found = snapshot.configs@[config];
        let path = join(dir, found.name@);
        let own = plan(found);
        let links = remove_links_plan(found.entries@, path);
        let unbind = Self::unbind_plan(base_dir, snapshot.udc@);
        let all = Self::cleanup_plan(base_dir, Some(snapshot));
        let start = unbind.len() + concat_plans(snapshot.configs@.take(config), plan).len();
        let last = lemma_concat_plans_contains(snapshot.configs@, plan, config, own.len() - 1);
        let at = unbind.len() + last;
        assert(all[at] == own[own.len() - 1]);
        assert forall|link: int|
            0 <= link < found.entries@.len() && (#[trigger] found.entries@[link]).is_symlink implies exists|
            before: int,
        |
            0 <= before < at && all[before] == (FsOpView::RemoveFile {
                path: join(path, found.entries@[link].name@),
            }) by {
            let remove = |entry: DirEntry| remove_link_plan(entry, path);
            let inner = lemma_concat_plans_contains(found.entries@, remove, link, 0);
            assert(own[inner] == links[inner]);
            let outer = lemma_concat_plans_contains(snapshot.configs@, plan, config, inner);
            assert(all[unbind.len() + outer] == own[inner]);
            assert(unbind.len() + outer < at);
        }
        at
    }

    /// Every function that was found is removed, and where it is a
    /// mass-storage function every unit that was found in it but unit 0,
    /// the unit before the function.
    pub proof fn lemma_cleanup_removes_function(
        base_dir: Seq<char>,
        snapshot: GadgetSnapshot,
        function: int,
    ) -> (at: int)
        requires
            0 <= function < snapshot.functions@.len(),
            snapshot.functions@[function].is_dir,
        ensures
            0 <= at < Self::cleanup_plan(base_dir, Some(snapshot)).len(),
            Self::cleanup_plan(base_dir, Some(snapshot))[at] == (FsOpView::RemoveDir {
                path: join(join(base_dir, "functions"@), snapshot.functions@[function].name@),
            }),
            forall|unit: int|
                0 <= unit < snapshot.functions@[function].entries@.len() && !begins_with(
                    snapshot.functions@[function].name@,
                    Self::HID@,
                ) && begins_with(snapshot.functions@[function].name@, Self::MASS_STORAGE@)
                    && (#[trigger] snapshot.functions@[function].entries@[unit]).is_dir
                    && snapshot.functions@[function].entries@[unit].name@
                    != crate::mass_storage::lun_name_text(0) ==> exists|before: int|
                    0 <= before < at && Self::cleanup_plan(base_dir, Some(snapshot))[before] == (
                    FsOpView::RemoveDir {
                        path: join(
                            join(join(base_dir, "functions"@), snapshot.functions@[function].name@),
                            snapshot.functions@[function].entries@[unit].name@,
                        ),
                    }),
    {
        let dir = join(base_dir, "functions"@);
        let plan = |function: FunctionSnapshot| function_cleanup_plan(function, dir);
        let found = snapshot.functions@[function];
        let path = join(dir, found.name@);
        let own = plan(found);
        let unbind = Self::unbind_plan(base_dir, snapshot.udc@);
        let configs = concat_plans(
            snapshot.configs@,
            |config: ConfigSnapshot| config_cleanup_plan(config, join(base_dir, "configs"@)),
        );
        let all = Self::cleanup_plan(base_dir, Some(snapshot));
        let offset = unbind.len() + configs.len();
        let last = lemma_concat_plans_contains(snapshot.functions@, plan, function, own.len() - 1);
        let at = offset + last;
        assert(all[at] == own[own.len() - 1]);
        assert forall|unit: int|
            0 <= unit < found.entries@.len() && !begins_with(found.name@, Self::HID@) && begins_with(
                found.name@,
                Self::MASS_STORAGE@,
            ) && (#[trigger] found.entries@[unit]).is_dir && found.entries@[unit].name@
                != crate::mass_storage::lun_name_text(0) implies exists|before: int|
            0 <= before < at && all[before] == (FsOpView::RemoveDir {
                path: join(path, found.entries@[unit].name@),
            }) by {
            let remove = |entry: DirEntry| FunctionMsgOpts::entry_cleanup_plan(entry, path);
            let inner = lemma_concat_plans_contains(found.entries@, remove, unit, 0);
            assert(own[inner] == concat_plans(found.entries@, remove)[inner]);
            let outer = lemma_concat_plans_contains(snapshot.functions@, plan, function, inner);
            assert(all[offset + outer] == own[inner]);
            assert(offset + outer < at);
        }
        at
    }

    /// Every set of strings that was found is removed.
    pub proof fn lemma_cleanup_removes_strings(
        base_dir: Seq<char>,
        snapshot: GadgetSnapshot,
        language: int,
    ) -> (at: int)
        requires
            0 <= language < snapshot.strings@.len(),
            snapshot.strings@[language].is_dir,
        ensures
            0 <= at < Self::cleanup_plan(base_dir, Some(snapshot)).len() - 1,
            Self::cleanup_plan(base_dir, Some(snapshot))[at] == (FsOpView::RemoveDir {
                path: join(join(base_dir, "strings"@), snapshot.strings@[language].name@),
            }),
    {
        let dir = join(base_dir, "strings"@);
        let plan = |entry: DirEntry| remove_dir_plan(entry, dir);
        let unbind = Self::unbind_plan(base_dir, snapshot.udc@);
        let configs = concat_plans(
            snapshot.configs@,
            |config: ConfigSnapshot| config_cleanup_plan(config, join(base_dir, "configs"@)),
        );
        let functions = concat_plans(
            snapshot.functions@,
            |function: FunctionSnapshot|
                function_cleanup_plan(function, join(base_dir, "functions"@)),
        );
        let all = Self::cleanup_plan(base_dir, Some(snapshot));
        let offset = unbind.len() + configs.len() + functions.len() + 1;
        let inner = lemma_concat_plans_contains(snapshot.strings@, plan, language, 0);
        assert(all[offset + inner] == remove_dirs_plan(snapshot.strings@, dir)[inner]);
        offset + inner
    }
}

} // verus!
