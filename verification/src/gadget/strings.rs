//! The strings of a gadget and the names of its configurations.

use vstd::prelude::*;
use crate::configfs::{
    emit, emit_write, lemma_entry_within, op_path, within, write_text, FsOp, FsOpView,
};
use crate::text::join;
use crate::gadget::Configurable;

verus! {

/// The name of a configuration in one language.
#[derive(Debug, Clone, PartialEq, Eq)]
pub struct GadgetConfigName {
    pub configuration: String,
}

impl Default for GadgetConfigName {
    /// The empty name, which ConfigFS shows as a lone newline.
    fn default() -> (name: Self)
        ensures
            name.configuration@ == seq!['\n'],
    {
        proof {
            reveal_strlit("\n");
        }
        assert("\n"@ =~= seq!['\n']);
        GadgetConfigName { configuration: String::from_str("\n") }
    }
}

impl Configurable for GadgetConfigName {
    open spec fn apply_plan(&self, base_dir: Seq<char>) -> Seq<FsOpView> {
        seq![
            FsOpView::CreateDir { path: base_dir },
            write_text(base_dir, "configuration"@, self.configuration@),
        ]
    }

    fn apply_config(&self, base_dir: &str) -> (ops: Vec<FsOp>) {
        let mut ops: Vec<FsOp> = Vec::new();
        emit(&mut ops, FsOp::CreateDir { path: String::from_str(base_dir) });
        emit_write(&mut ops, base_dir, "configuration", self.configuration.as_str());
        assert(ops.deep_view() =~= self.apply_plan(base_dir@));
        ops
    }

    proof fn lemma_apply_plan_within(&self, base_dir: Seq<char>) {
        let plan = self.apply_plan(base_dir);
        assert forall|i: int| 0 <= i < plan.len() implies within(
            op_path(#[trigger] plan[i]),
            base_dir,
        ) by {
            match plan[i] {
                FsOpView::Write { path, .. } => {
                    let name = choose|name: Seq<char>| path == join(base_dir, name);
                    lemma_entry_within(base_dir, name);
                },
                _ => {},
            }
        }
    }
}

impl GadgetConfigName {
    /// Takes over the name that was read from the attribute `configuration`.
    pub fn from_config(&mut self, configuration: &str)
        ensures
            final(self).configuration@ == configuration@,
    {
        self.configuration = String::from_str(configuration);
    }
}

/// The strings of a gadget in one language.
#[derive(Debug, Clone, PartialEq, Eq)]
pub struct GadgetStrings {
    pub manufacturer: String,
    pub product: String,
    pub serialnumber: String,
}

impl Default for GadgetStrings {
    /// Three empty strings, which ConfigFS shows as lone newlines.
    fn default() -> (strings: Self)
        ensures
            strings.manufacturer@ == seq!['\n'],
            strings.product@ == seq!['\n'],
            strings.serialnumber@ == seq!['\n'],
    {
        proof {
            reveal_strlit("\n");
        }
        assert("\n"@ =~= seq!['\n']);
        GadgetStrings {
            manufacturer: String::from_str("\n"),
            product: String::from_str("\n"),
            serialnumber: String::from_str("\n"),
        }
    }
}

impl Configurable for GadgetStrings {
    open spec fn apply_plan(&self, base_dir: Seq<char>) -> Seq<FsOpView> {
        seq![
            FsOpView::CreateDir { path: base_dir },
            write_text(base_dir, "manufacturer"@, self.manufacturer@),
            write_text(base_dir, "product"@, self.product@),
            write_text(base_dir, "serialnumber"@, self.serialnumber@),
        ]
    }

    fn apply_config(&self, base_dir: &str) -> (ops: Vec<FsOp>) {
        let mut ops: Vec<FsOp> = Vec::new();
        emit(&mut ops, FsOp::CreateDir { path: String::from_str(base_dir) });
        emit_write(&mut ops, base_dir, "manufacturer", self.manufacturer.as_str());
        emit_write(&mut ops, base_dir, "product", self.product.as_str());
        emit_write(&mut ops, base_dir, "serialnumber", self.serialnumber.as_str());
        assert(ops.deep_view() =~= self.apply_plan(base_dir@));
        ops
    }

    proof fn lemma_apply_plan_within(&self, base_dir: Seq<char>) {
        let plan = self.apply_plan(base_dir);
        assert forall|i: int| 0 <= i < plan.len() implies within(
            op_path(#[trigger] plan[i]),
            base_dir,
        ) by {
            match plan[i] {
                FsOpView::Write { path, .. } => {
                    let name = choose|name: Seq<char>| path == join(base_dir, name);
                    lemma_entry_within(base_dir, name);
                },
                _ => {},
            }
        }
    }
}

impl GadgetStrings {
    /// Takes over the strings that were read from the attributes
    /// `manufacturer`, `product` and `serialnumber`.
    pub fn from_config(&mut self, manufacturer: &str, product: &str, serialnumber: &str)
        ensures
            final(self).manufacturer@ == manufacturer@,
            final(self).product@ == product@,
            final(self).serialnumber@ == serialnumber@,
    {
        self.manufacturer = String::from_str(manufacturer);
        self.product = String::from_str(product);
        self.serialnumber = String::from_str(serialnumber);
    }
}

} // verus!
