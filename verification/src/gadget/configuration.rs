//! The configurations of a gadget.

use vstd::prelude::*;
use crate::configfs::{
    concat_plans, emit, emit_all, emit_write, lemma_concat_plans_contains, lemma_concat_plans_step,
    lemma_concat_plans_within, lemma_entry_within, lemma_plan_within_join, plan_within, write_text,
    DirEntry, FsOp, FsOpView,
};
use crate::error::Error;
use crate::fs::{lemma_written_number_reads_back, read_to_u16, read_to_u8, u16_value, u8_value};
use crate::text::{decimal, decimal_string, join, join_path};
use crate::gadget::{
    language_ops, language_plans, lemma_language_plans_within, remove_dirs_ops, remove_dirs_plan,
    remove_links_ops, remove_links_plan, Configurable, GadgetConfigName,
};

verus! {

/// One configuration of a gadget.
#[derive(Debug, Clone, PartialEq, Eq)]
pub struct UsbConfiguration {
    pub bm_attributes: u8,
    /// The power that the configuration draws, in milliamperes.
    pub max_power: u16,
    /// The names of the functions of the configuration, in order. Each is
    /// the name of a function of the gadget.
    pub functions: Vec<String>,
    /// The name of the configuration by language code.
    pub strings: Vec<(u16, GadgetConfigName)>,
}

/// What is found in the directory of a configuration before it is taken
/// down.
#[derive(Debug, Clone, PartialEq, Eq)]
pub struct ConfigSnapshot {
    /// The name of the configuration.
    pub name: String,
    /// Whether the entry of that name is a directory.
    pub is_dir: bool,
    /// The entries of the directory.
    pub entries: Vec<DirEntry>,
    /// The entries of its directory `strings`.
    pub strings: Vec<DirEntry>,
}

/// What the link to the function `function` points to: the function of that
/// name of the gadget, as a path relative to the directory of the
/// configuration, which lies two levels below the gadget.
pub open spec fn function_link_target(function: Seq<char>) -> Seq<char> {
    "../../functions/"@ + function
}

/// The operation that links the function `function` into the configuration
/// in `base_dir`.
pub open spec fn function_link_plan(function: String, base_dir: Seq<char>) -> Seq<FsOpView> {
    seq![
        FsOpView::Symlink {
            target: function_link_target(function@),
            link: join(base_dir, function@),
        },
    ]
}

impl Default for UsbConfiguration {
    /// A bus-powered configuration that draws 2 mA and holds nothing.
    fn default() -> (config: Self)
        ensures
            config.bm_attributes == 0x80,
            config.max_power == 2,
            config.functions@.len() == 0,
            config.strings@.len() == 0,
    {
        UsbConfiguration {
            bm_attributes: 0x80,
            max_power: 2,
            strings: Vec::new(),
            functions: Vec::new(),
        }
    }
}

impl Configurable for UsbConfiguration {
    /// Creates the configuration, writes its attributes and its names, and
    /// links its functions in, each by a relative link of its own name.
    open spec fn apply_plan(&self, base_dir: Seq<char>) -> Seq<FsOpView> {
        seq![
            FsOpView::CreateDir { path: base_dir },
            write_text(base_dir, "bmAttributes"@, decimal(self.bm_attributes as nat)),
            write_text(base_dir, "MaxPower"@, decimal(self.max_power as nat)),
        ] + language_plans(self.strings@, join(base_dir, "strings"@)) + concat_plans(
            self.functions@,
            |function: String| function_link_plan(function, base_dir),
        )
    }

    fn apply_config(&self, base_dir: &str) -> (ops: Vec<FsOp>) {
        let mut ops: Vec<FsOp> = Vec::new();
        emit(&mut ops, FsOp::CreateDir { path: String::from_str(base_dir) });
        emit_write(
            &mut ops,
            base_dir,
            "bmAttributes",
            decimal_string(self.bm_attributes as u64).as_str(),
        );
        emit_write(&mut ops, base_dir, "MaxPower", decimal_string(self.max_power as u64).as_str());
        emit_all(&mut ops, language_ops(&self.strings, join_path(base_dir, "strings").as_str()));
        let ghost head = ops.deep_view();
        let ghost plan = |function: String| function_link_plan(function, base_dir@);
        let mut i: usize = 0;
        assert(ops.deep_view() =~= head + concat_plans(self.functions@.take(0), plan));
        while i < self.functions.len()
            invariant
                i <= self.functions.len(),
                plan == |function: String| function_link_plan(function, base_dir@),
                ops.deep_view() == head + concat_plans(self.functions@.take(i as int), plan),
            decreases self.functions.len() - i,
        {
            let function = &self.functions[i];
            let mut relative = String::from_str("../../functions/");
            relative.append(function.as_str());
            proof {
                lemma_concat_plans_step(self.functions@, plan, i as int);
            }
            emit(
                &mut ops,
                FsOp::Symlink { target: relative, link: join_path(base_dir, function.as_str()) },
            );
            assert(ops.deep_view() =~= head + concat_plans(self.functions@.take(i + 1), plan));
            i += 1;
        }
        proof {
            assert(self.functions@.take(self.functions@.len() as int) =~= self.functions@);
            assert(ops.deep_view() =~= self.apply_plan(base_dir@));
        }
        ops
    }

    proof fn lemma_apply_plan_within(&self, base_dir: Seq<char>) {
        let head = seq![
            FsOpView::CreateDir { path: base_dir },
            write_text(base_dir, "bmAttributes"@, decimal(self.bm_attributes as nat)),
            write_text(base_dir, "MaxPower"@, decimal(self.max_power as nat)),
        ];
        lemma_entry_within(base_dir, "bmAttributes"@);
        lemma_entry_within(base_dir, "MaxPower"@);
        assert(plan_within(head, base_dir));
        let names = language_plans(self.strings@, join(base_dir, "strings"@));
        lemma_language_plans_within(self.strings@, join(base_dir, "strings"@));
        lemma_plan_within_join(names, base_dir, "strings"@);
        let link = |function: String| function_link_plan(function, base_dir);
        let links = concat_plans(self.functions@, link);
        assert forall|k: int| 0 <= k < self.functions@.len() implies plan_within(
            #[trigger] link(self.functions@[k]),
            base_dir,
        ) by {
            lemma_entry_within(base_dir, self.functions@[k]@);
        }
        lemma_concat_plans_within(self.functions@, link, base_dir);
        assert(self.apply_plan(base_dir) == head + names + links);
    }
}

impl UsbConfiguration {
    /// Writing a configuration links in each function that it names.
    pub proof fn lemma_function_is_linked(&self, base_dir: Seq<char>, function: int) -> (at: int)
        requires
            0 <= function < self.functions@.len(),
        ensures
            0 <= at < self.apply_plan(base_dir).len(),
            self.apply_plan(base_dir)[at] == (FsOpView::Symlink {
                target: function_link_target(self.functions@[function]@),
                link: join(base_dir, self.functions@[function]@),
            }),
    {
        let names = language_plans(self.strings@, join(base_dir, "strings"@));
        let link = |function: String| function_link_plan(function, base_dir);
        let inner = lemma_concat_plans_contains(self.functions@, link, function, 0);
        3 + names.len() + inner
    }

    /// Whether `after` is `before` after it took over the contents
    /// `bm_attributes` and `max_power` of its attribute files, in this
    /// order: a field has its new value where everything up to it was
    /// understood, else the value it had. Names and functions stay.
    pub open spec fn took_config(
        before: UsbConfiguration,
        after: UsbConfiguration,
        bm_attributes: Seq<char>,
        max_power: Seq<char>,
    ) -> bool {
        &&& after.bm_attributes == match u8_value(bm_attributes) {
            Some(v) => v,
            None => before.bm_attributes,
        }
        &&& after.max_power == match u16_value(max_power) {
            Some(v) if u8_value(bm_attributes) is Some => v,
            _ => before.max_power,
        }
        &&& after.functions == before.functions
        &&& after.strings == before.strings
    }

    /// What was written for a configuration is read back as the same
    /// values: the texts that `apply_plan` writes are all understood, and
    /// taking them over gives the attributes that were written.
    pub proof fn lemma_written_config_reads_back(
        written: UsbConfiguration,
        before: UsbConfiguration,
        after: UsbConfiguration,
    )
        requires
            Self::took_config(
                before,
                after,
                decimal(written.bm_attributes as nat),
                decimal(written.max_power as nat),
            ),
        ensures
            u8_value(decimal(written.bm_attributes as nat)) is Some,
            u16_value(decimal(written.max_power as nat)) is Some,
            after.bm_attributes == written.bm_attributes,
            after.max_power == written.max_power,
    {
        lemma_written_number_reads_back(written.bm_attributes as nat);
        lemma_written_number_reads_back(written.max_power as nat);
    }

    /// Takes over what was read from the attributes `bmAttributes` and
    /// `MaxPower`, in this order. A field gets its new value where
    /// everything up to it was understood; the first content that was not
    /// is the error.
    pub fn from_config(&mut self, bm_attributes: &str, max_power: &str) -> (r:
        core::result::Result<(), Error>)
        ensures
            r is Ok <==> u8_value(bm_attributes@) is Some && u16_value(max_power@) is Some,
            r is Err ==> r->Err_0.is_deserialized(),
            Self::took_config(*old(self), *final(self), bm_attributes@, max_power@),
    {
        self.bm_attributes = read_to_u8(bm_attributes)?;
        self.max_power = read_to_u16(max_power)?;
        Ok(())
    }

    /// The operations that remove the configuration in `base_dir`: none
    /// where `base_dir` is no directory, else the links to its functions,
    /// then its names, then the configuration.
    pub open spec fn cleanup_plan(
        base_dir: Seq<char>,
        is_dir: bool,
        entries: Seq<DirEntry>,
        strings: Seq<DirEntry>,
    ) -> Seq<FsOpView> {
        if is_dir {
            remove_links_plan(entries, base_dir) + remove_dirs_plan(
                strings,
                join(base_dir, "strings"@),
            ) + seq![FsOpView::RemoveDir { path: base_dir }]
        } else {
            Seq::empty()
        }
    }

    /// Plans the removal of the configuration in `base_dir`. `is_dir` tells
    /// whether `base_dir` is a directory, `entries` what it holds, and
    /// `strings` what its directory `strings` holds.
    pub fn cleanup(
        base_dir: &str,
        is_dir: bool,
        entries: &Vec<DirEntry>,
        strings: &Vec<DirEntry>,
    ) -> (ops: Vec<FsOp>)
        ensures
            ops.deep_view() == Self::cleanup_plan(base_dir@, is_dir, entries@, strings@),
    {
        let mut ops: Vec<FsOp> = Vec::new();
        if is_dir {
            emit_all(&mut ops, remove_links_ops(entries, base_dir));
            emit_all(&mut ops, remove_dirs_ops(strings, join_path(base_dir, "strings").as_str()));
            emit(&mut ops, FsOp::RemoveDir { path: String::from_str(base_dir) });
        }
        assert(ops.deep_view() =~= Self::cleanup_plan(base_dir@, is_dir, entries@, strings@));
        ops
    }
}

} // verus!
