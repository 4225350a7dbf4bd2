//! The OS descriptor of a gadget.

use vstd::prelude::*;
use crate::configfs::{
    emit_write, flag_str, flag_text, lemma_entry_within, op_path, within, write_text, FsOp,
    FsOpView,
};
use crate::error::Error;
use crate::fs::{
    lemma_written_flag_reads_back, lemma_written_number_reads_back, read_to_bool, read_to_u8,
    truth_value, u8_value,
};
use crate::text::{decimal, decimal_string, join};
use crate::gadget::Configurable;

verus! {

/// The OS descriptor of a gadget.
#[derive(Debug, Clone, PartialEq, Eq)]
pub struct OsDesc {
    /// Whether the gadget hands out the OS descriptor: the attribute `use`.
    pub in_use: bool,
    pub b_vendor_code: u8,
    pub qw_sign: String,
}

impl Default for OsDesc {
    /// An OS descriptor that is switched off. The signature is two newlines:
    /// the kernel hangs on a lone one.
    fn default() -> (os_desc: Self)
        ensures
            !os_desc.in_use,
            os_desc.b_vendor_code == 0,
            os_desc.qw_sign@ == seq!['\n', '\n'],
    {
        proof {
            reveal_strlit("\n\n");
        }
        assert("\n\n"@ =~= seq!['\n', '\n']);
        OsDesc { in_use: false, b_vendor_code: 0, qw_sign: String::from_str("\n\n") }
    }
}

impl Configurable for OsDesc {
    open spec fn apply_plan(&self, base_dir: Seq<char>) -> Seq<FsOpView> {
        seq![
            write_text(base_dir, "use"@, flag_text(self.in_use)),
            write_text(base_dir, "b_vendor_code"@, decimal(self.b_vendor_code as nat)),
            write_text(base_dir, "qw_sign"@, self.qw_sign@),
        ]
    }

    fn apply_config(&self, base_dir: &str) -> (ops: Vec<FsOp>) {
        let mut ops: Vec<FsOp> = Vec::new();
        emit_write(&mut ops, base_dir, "use", flag_str(self.in_use));
        emit_write(
            &mut ops,
            base_dir,
            "b_vendor_code",
            decimal_string(self.b_vendor_code as u64).as_str(),
        );
        emit_write(&mut ops, base_dir, "qw_sign", self.qw_sign.as_str());
        assert(ops.deep_view() =~= self.apply_plan(base_dir@));
        ops
    }

    proof fn lemma_apply_plan_within(&self, base_dir: Seq<char>) {
        let plan = self.apply_plan(base_dir);
        assert forall|i: int| 0 <= i < plan.len() implies within(
            op_path(#[trigger] plan[i]),
            base_dir,
        ) by {
            match plan[i] {
                FsOpView::Write { path, .. } => {
                    let name = choose|name: Seq<char>| path == join(base_dir, name);
                    lemma_entry_within(base_dir, name);
                },
                _ => {},
            }
        }
    }
}

impl OsDesc {
    /// The operations that switch the OS descriptor in `base_dir` off.
    pub open spec fn cleanup_plan(base_dir: Seq<char>) -> Seq<FsOpView> {
        seq![write_text(base_dir, "use"@, flag_text(false))]
    }

    /// Plans the switching off of the OS descriptor in `base_dir`.
    pub fn cleanup(base_dir: &str) -> (ops: Vec<FsOp>)
        ensures
            ops.deep_view() == Self::cleanup_plan(base_dir@),
    {
        let mut ops: Vec<FsOp> = Vec::new();
        emit_write(&mut ops, base_dir, "use", flag_str(false));
        assert(ops.deep_view() =~= Self::cleanup_plan(base_dir@));
        ops
    }

    /// Whether `after` is `before` after it took over the contents
    /// `b_vendor_code`, `qw_sign` and `in_use` of its attribute files, in
    /// this order: a field has its new value where everything up to it was
    /// understood, else the value it had.
    pub open spec fn took_config(
        before: OsDesc,
        after: OsDesc,
        b_vendor_code: Seq<char>,
        qw_sign: Seq<char>,
        in_use: Seq<char>,
    ) -> bool {
        &&& after.b_vendor_code == match u8_value(b_vendor_code) {
            Some(v) => v,
            None => before.b_vendor_code,
        }
        &&& after.qw_sign@ == if u8_value(b_vendor_code) is Some {
            qw_sign
        } else {
            before.qw_sign@
        }
        &&& after.in_use == match truth_value(in_use) {
            Some(v) if u8_value(b_vendor_code) is Some => v,
            _ => before.in_use,
        }
    }

    /// What was written for an OS descriptor is read back as the same
    /// values: the texts that `apply_plan` writes are all understood, and
    /// taking them over gives the descriptor that was written.
    pub proof fn lemma_written_config_reads_back(written: OsDesc, before: OsDesc, after: OsDesc)
        requires
            Self::took_config(
                before,
                after,
                decimal(written.b_vendor_code as nat),
                written.qw_sign@,
                flag_text(written.in_use),
            ),
        ensures
            u8_value(decimal(written.b_vendor_code as nat)) is Some,
            truth_value(flag_text(written.in_use)) is Some,
            after.b_vendor_code == written.b_vendor_code,
            after.qw_sign@ == written.qw_sign@,
            after.in_use == written.in_use,
    {
        lemma_written_number_reads_back(written.b_vendor_code as nat);
        lemma_written_flag_reads_back(written.in_use);
    }

    /// Takes over what was read from the attributes `b_vendor_code`,
    /// `qw_sign` and `use`, in this order. A field gets its new value where
    /// everything up to it was understood; the first content that was not
    /// is the error, and the fields from there on keep their values.
    pub fn from_config(&mut self, b_vendor_code: &str, qw_sign: &str, in_use: &str) -> (r:
        core::result::Result<(), Error>)
        ensures
            r is Ok <==> u8_value(b_vendor_code@) is Some && truth_value(in_use@) is Some,
            r is Err ==> r->Err_0.is_deserialized(),
            Self::took_config(*old(self), *final(self), b_vendor_code@, qw_sign@, in_use@),
    {
        self.b_vendor_code = read_to_u8(b_vendor_code)?;
        self.qw_sign = String::from_str(qw_sign);
        self.in_use = read_to_bool(in_use)?;
        Ok(())
    }
}

} // verus!
