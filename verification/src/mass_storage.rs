//! The mass-storage function and its logical units.

use vstd::prelude::*;
use crate::configfs::{
    concat_plans, emit, emit_all, emit_write, flag_str, flag_text, lemma_concat_plans_step,
    lemma_concat_plans_within, lemma_entry_within, lemma_plan_within_join, op_path, plan_within,
    within, write_text, DirEntry, FsOp, FsOpView,
};
use crate::error::Error;
use crate::fs::{lemma_written_flag_reads_back, read_to_bool, truth_value};
use crate::gadget::{Configurable, UsbFunctionOpts};
use crate::text::{decimal, decimal_string, join, join_path, same_text};

verus! {

/// One logical unit of the mass-storage function: a backing file and how the
/// host is to see it.
#[derive(Debug, Clone, PartialEq, Eq)]
pub struct MsgLun {
    pub cdrom: bool,
    pub file: String,
    pub inquiry_string: String,
    pub nofua: bool,
    pub removable: bool,
    pub ro: bool,
}

/// The contents of the attribute files of one logical unit, as they were
/// read from the directory `name`.
#[derive(Debug, Clone, PartialEq, Eq)]
pub struct MsgLunFiles {
    pub name: String,
    pub cdrom: String,
    pub file: String,
    pub inquiry_string: String,
    pub nofua: String,
    pub removable: String,
    pub ro: String,
}

/// The options of the mass-storage function.
#[derive(Debug, Clone, PartialEq, Eq)]
pub struct FunctionMsgOpts {
    pub stall: bool,
    /// The logical units by name, in the order in which they are written.
    pub luns: Vec<(String, MsgLun)>,
}

/// The name of logical unit `lun_id`.
pub open spec fn lun_name_text(lun_id: nat) -> Seq<char> {
    "lun."@ + decimal(lun_id)
}

impl Default for MsgLun {
    /// A removable, writable unit without a backing file.
    fn default() -> (lun: Self)
        ensures
            lun.is_default(),
    {
        proof {
            reveal_strlit("\n");
        }
        assert("\n"@ =~= seq!['\n']);
        MsgLun {
            cdrom: false,
            file: String::from_str("\n"),
            inquiry_string: String::from_str("\n"),
            nofua: false,
            removable: true,
            ro: false,
        }
    }
}

impl Configurable for MsgLun {
    /// Makes sure that the directory of the unit is there, ejects the medium
    /// so that the host sees the change, and writes the attributes.
    open spec fn apply_plan(&self, base_dir: Seq<char>) -> Seq<FsOpView> {
        seq![FsOpView::EnsureDir { path: base_dir }] + self.attribute_plan(base_dir)
    }

    fn apply_config(&self, base_dir: &str) -> (ops: Vec<FsOp>) {
        let mut ops: Vec<FsOp> = Vec::new();
        emit(&mut ops, FsOp::EnsureDir { path: String::from_str(base_dir) });
        emit_all(&mut ops, self.attribute_ops(base_dir));
        ops
    }

    proof fn lemma_apply_plan_within(&self, base_dir: Seq<char>) {
        self.lemma_attribute_plan_within(base_dir);
        lemma_entry_within(base_dir, Seq::empty());
    }
}

impl MsgLun {
    /// Whether this unit has the values that a new unit starts with.
    pub open spec fn is_default(&self) -> bool {
        &&& !self.cdrom
        &&& self.file@ == seq!['\n']
        &&& self.inquiry_string@ == seq!['\n']
        &&& !self.nofua
        &&& self.removable
        &&& !self.ro
    }

    /// The operations that write the attributes of the unit in `base_dir`.
    /// The medium is ejected before the backing file changes.
    pub open spec fn attribute_plan(&self, base_dir: Seq<char>) -> Seq<FsOpView> {
        seq![
            write_text(base_dir, "forced_eject"@, flag_text(true)),
            write_text(base_dir, "cdrom"@, flag_text(self.cdrom)),
            write_text(base_dir, "file"@, self.file@),
            write_text(base_dir, "inquiry_string"@, self.inquiry_string@),
            write_text(base_dir, "nofua"@, flag_text(self.nofua)),
            write_text(base_dir, "removable"@, flag_text(self.removable)),
            write_text(base_dir, "ro"@, flag_text(self.ro)),
        ]
    }

    /// Plans the writing of the attributes of the unit in `base_dir`, which
    /// is there already.
    pub fn attribute_ops(&self, base_dir: &str) -> (ops: Vec<FsOp>)
        ensures
            ops.deep_view() == self.attribute_plan(base_dir@),
    {
        let mut ops: Vec<FsOp> = Vec::new();
        emit_write(&mut ops, base_dir, "forced_eject", flag_str(true));
        emit_write(&mut ops, base_dir, "cdrom", flag_str(self.cdrom));
        emit_write(&mut ops, base_dir, "file", self.file.as_str());
        emit_write(&mut ops, base_dir, "inquiry_string", self.inquiry_string.as_str());
        emit_write(&mut ops, base_dir, "nofua", flag_str(self.nofua));
        emit_write(&mut ops, base_dir, "removable", flag_str(self.removable));
        emit_write(&mut ops, base_dir, "ro", flag_str(self.ro));
        assert(ops.deep_view() =~= self.attribute_plan(base_dir@));
        ops
    }

    /// Writing the attributes of a unit touches nothing but what lies below
    /// its directory.
    pub proof fn lemma_attribute_plan_within(&self, base_dir: Seq<char>)
        ensures
            plan_within(self.attribute_plan(base_dir), base_dir),
    {
        let plan = self.attribute_plan(base_dir);
        assert forall|i: int| 0 <= i < plan.len() implies within(
            op_path(#[trigger] plan[i]),
            base_dir,
        ) by {
            match plan[i] {
                FsOpView::Write { path, .. } => {
                    let name = choose|name: Seq<char>| path == join(base_dir, name);
                    lemma_entry_within(base_dir, name);
                },
                _ => {},
            }
        }
    }

    /// The operations that remove the unit in `base_dir`.
    pub open spec fn cleanup_plan(base_dir: Seq<char>) -> Seq<FsOpView> {
        seq![FsOpView::RemoveDir { path: base_dir }]
    }

    /// Plans the removal of the unit in `base_dir`.
    pub fn cleanup(base_dir: &str) -> (ops: Vec<FsOp>)
        ensures
            ops.deep_view() == Self::cleanup_plan(base_dir@),
    {
        let mut ops: Vec<FsOp> = Vec::new();
        emit(&mut ops, FsOp::RemoveDir { path: String::from_str(base_dir) });
        assert(ops.deep_view() =~= Self::cleanup_plan(base_dir@));
        ops
    }

    /// Whether every truth value among the attribute files `files` can be
    /// understood.
    pub open spec fn files_understood(files: MsgLunFiles) -> bool {
        &&& truth_value(files.cdrom@) is Some
        &&& truth_value(files.nofua@) is Some
        &&& truth_value(files.removable@) is Some
        &&& truth_value(files.ro@) is Some
    }

    /// Whether this unit holds what the attribute files `files` say.
    pub open spec fn holds(&self, files: MsgLunFiles) -> bool {
        &&& truth_value(files.cdrom@) == Some(self.cdrom)
        &&& self.file@ == files.file@
        &&& self.inquiry_string@ == files.inquiry_string@
        &&& truth_value(files.nofua@) == Some(self.nofua)
        &&& truth_value(files.removable@) == Some(self.removable)
        &&& truth_value(files.ro@) == Some(self.ro)
    }

    /// Whether `after` is `before` after it took over the contents of its
    /// attribute files `cdrom`, `file`, `inquiry_string`, `nofua`,
    /// `removable` and `ro`, in this order: a field has its new value where
    /// everything up to it was understood, else the value it had.
    pub open spec fn took_config(
        before: MsgLun,
        after: MsgLun,
        cdrom: Seq<char>,
        file: Seq<char>,
        inquiry_string: Seq<char>,
        nofua: Seq<char>,
        removable: Seq<char>,
        ro: Seq<char>,
    ) -> bool {
        &&& after.cdrom == match truth_value(cdrom) {
            Some(v) => v,
            None => before.cdrom,
        }
        &&& after.file@ == if truth_value(cdrom) is Some {
            file
        } else {
            before.file@
        }
        &&& after.inquiry_string@ == if truth_value(cdrom) is Some {
            inquiry_string
        } else {
            before.inquiry_string@
        }
        &&& after.nofua == match truth_value(nofua) {
            Some(v) if truth_value(cdrom) is Some => v,
            _ => before.nofua,
        }
        &&& after.removable == match truth_value(removable) {
            Some(v) if truth_value(cdrom) is Some && truth_value(nofua) is Some => v,
            _ => before.removable,
        }
        &&& after.ro == match truth_value(ro) {
            Some(v) if truth_value(cdrom) is Some && truth_value(nofua) is Some && truth_value(
                removable,
            ) is Some => v,
            _ => before.ro,
        }
    }

    /// What was written for a unit is read back as the same values: the
    /// texts that `attribute_plan` writes are all understood, and taking
    /// them over gives the unit that was written.
    pub proof fn lemma_written_config_reads_back(written: MsgLun, before: MsgLun, after: MsgLun)
        requires
            Self::took_config(
                before,
                after,
                flag_text(written.cdrom),
                written.file@,
                written.inquiry_string@,
                flag_text(written.nofua),
                flag_text(written.removable),
                flag_text(written.ro),
            ),
        ensures
            truth_value(flag_text(written.cdrom)) is Some,
            truth_value(flag_text(written.nofua)) is Some,
            truth_value(flag_text(written.removable)) is Some,
            truth_value(flag_text(written.ro)) is Some,
            after.cdrom == written.cdrom,
            after.file@ == written.file@,
            after.inquiry_string@ == written.inquiry_string@,
            after.nofua == written.nofua,
            after.removable == written.removable,
            after.ro == written.ro,
    {
        lemma_written_flag_reads_back(written.cdrom);
        lemma_written_flag_reads_back(written.nofua);
        lemma_written_flag_reads_back(written.removable);
        lemma_written_flag_reads_back(written.ro);
    }

    /// Takes over what was read from the attributes `cdrom`, `file`,
    /// `inquiry_string`, `nofua`, `removable` and `ro`, in this order. A
    /// field gets its new value where everything up to it was understood;
    /// the first content that was not is the error, and the fields from
    /// there on keep their values.
    pub fn from_config(
        &mut self,
        cdrom: &str,
        file: &str,
        inquiry_string: &str,
        nofua: &str,
        removable: &str,
        ro: &str,
    ) -> (r: core::result::Result<(), Error>)
        ensures
            r is Ok <==> truth_value(cdrom@) is Some && truth_value(nofua@) is Some && truth_value(
                removable@,
            ) is Some && truth_value(ro@) is Some,
            r is Err ==> r->Err_0.is_deserialized(),
            Self::took_config(
                *old(self),
                *final(self),
                cdrom@,
                file@,
                inquiry_string@,
                nofua@,
                removable@,
                ro@,
            ),
    {
        self.cdrom = read_to_bool(cdrom)?;
        self.file = String::from_str(file);
        self.inquiry_string = String::from_str(inquiry_string);
        self.nofua = read_to_bool(nofua)?;
        self.removable = read_to_bool(removable)?;
        self.ro = read_to_bool(ro)?;
        Ok(())
    }
}

impl Default for FunctionMsgOpts {
    /// A function with the one unit that the kernel always makes.
    fn default() -> (opts: Self)
        ensures
            !opts.stall,
            opts.luns@.len() == 1,
            opts.luns@[0].0@ == lun_name_text(0),
            opts.luns@[0].1.is_default(),
    {
        let mut luns: Vec<(String, MsgLun)> = Vec::new();
        luns.push((Self::lun_name(0), MsgLun::default()));
        FunctionMsgOpts { stall: false, luns }
    }
}

impl Configurable for FunctionMsgOpts {
    /// Creates the function, writes `stall` and then the units in order.
    open spec fn apply_plan(&self, base_dir: Seq<char>) -> Seq<FsOpView> {
        seq![
            FsOpView::CreateDir { path: base_dir },
            write_text(base_dir, "stall"@, flag_text(self.stall)),
        ] + concat_plans(self.luns@, |entry: (String, MsgLun)| Self::lun_plan(entry, base_dir))
    }

    fn apply_config(&self, base_dir: &str) -> (ops: Vec<FsOp>) {
        let mut ops: Vec<FsOp> = Vec::new();
        emit(&mut ops, FsOp::CreateDir { path: String::from_str(base_dir) });
        emit_write(&mut ops, base_dir, "stall", flag_str(self.stall));
        let ghost head = ops.deep_view();
        let ghost plan = |entry: (String, MsgLun)| Self::lun_plan(entry, base_dir@);
        let first = Self::lun_name(0);
        let mut i: usize = 0;
        while i < self.luns.len()
            invariant
                i <= self.luns.len(),
                first@ == lun_name_text(0),
                plan == |entry: (String, MsgLun)| Self::lun_plan(entry, base_dir@),
                ops.deep_view() == head + concat_plans(self.luns@.take(i as int), plan),
            decreases self.luns.len() - i,
        {
            let entry = &self.luns[i];
            let dir = join_path(base_dir, entry.0.as_str());
            proof {
                lemma_concat_plans_step(self.luns@, plan, i as int);
            }
            if same_text(entry.0.as_str(), first.as_str()) {
                emit_all(&mut ops, entry.1.attribute_ops(dir.as_str()));
            } else {
                emit_all(&mut ops, entry.1.apply_config(dir.as_str()));
            }
            assert(ops.deep_view() =~= head + concat_plans(self.luns@.take(i + 1), plan));
            i += 1;
        }
        proof {
            assert(self.luns@.take(self.luns@.len() as int) =~= self.luns@);
            assert(head =~= seq![
                FsOpView::CreateDir { path: base_dir@ },
                write_text(base_dir@, "stall"@, flag_text(self.stall)),
            ]);
        }
        ops
    }

    proof fn lemma_apply_plan_within(&self, base_dir: Seq<char>) {
        let head = seq![
            FsOpView::CreateDir { path: base_dir },
            write_text(base_dir, "stall"@, flag_text(self.stall)),
        ];
        lemma_entry_within(base_dir, "stall"@);
        assert(plan_within(head, base_dir));
        let plan = |entry: (String, MsgLun)| Self::lun_plan(entry, base_dir);
        assert forall|k: int| 0 <= k < self.luns@.len() implies plan_within(
            #[trigger] plan(self.luns@[k]),
            base_dir,
        ) by {
            let entry = self.luns@[k];
            entry.1.lemma_attribute_plan_within(join(base_dir, entry.0@));
            entry.1.lemma_apply_plan_within(join(base_dir, entry.0@));
            lemma_plan_within_join(plan(entry), base_dir, entry.0@);
        }
        lemma_concat_plans_within(self.luns@, plan, base_dir);
    }
}

impl UsbFunctionOpts for FunctionMsgOpts {

}

impl FunctionMsgOpts {
    /// The operations that write the unit `entry` of the function in
    /// `base_dir`. The kernel makes unit 0 together with the function: its
    /// directory is never created, only its attributes are written.
    pub open spec fn lun_plan(entry: (String, MsgLun), base_dir: Seq<char>) -> Seq<FsOpView> {
        if entry.0@ == lun_name_text(0) {
            entry.1.attribute_plan(join(base_dir, entry.0@))
        } else {
            entry.1.apply_plan(join(base_dir, entry.0@))
        }
    }

    /// The name of logical unit `lun_id`.
    pub fn lun_name(lun_id: u8) -> (name: String)
        ensures
            name@ == lun_name_text(lun_id as nat),
    {
        let mut name = String::from_str("lun.");
        name.append(decimal_string(lun_id as u64).as_str());
        name
    }

    /// The operation that removes the entry `entry` of the function in
    /// `base_dir`, where there is one: every directory but that of unit 0,
    /// which goes with the function.
    pub open spec fn entry_cleanup_plan(entry: DirEntry, base_dir: Seq<char>) -> Seq<FsOpView> {
        if entry.is_dir && entry.name@ != lun_name_text(0) {
            seq![FsOpView::RemoveDir { path: join(base_dir, entry.name@) }]
        } else {
            Seq::empty()
        }
    }

    /// The operations that remove the function in `base_dir`, whose entries
    /// are `entries`: none where `base_dir` is no directory, else the units
    /// but unit 0, then the function.
    pub open spec fn cleanup_plan(base_dir: Seq<char>, is_dir: bool, entries: Seq<DirEntry>) -> Seq<
        FsOpView,
    > {
        if is_dir {
            concat_plans(entries, |entry: DirEntry| Self::entry_cleanup_plan(entry, base_dir))
                + seq![FsOpView::RemoveDir { path: base_dir }]
        } else {
            Seq::empty()
        }
    }

    /// Plans the removal of the function in `base_dir`. `is_dir` tells
    /// whether `base_dir` is a directory, `entries` what it holds.
    pub fn cleanup(base_dir: &str, is_dir: bool, entries: &Vec<DirEntry>) -> (ops: Vec<FsOp>)
        ensures
            ops.deep_view() == Self::cleanup_plan(base_dir@, is_dir, entries@),
    {
        let mut ops: Vec<FsOp> = Vec::new();
        if !is_dir {
            assert(ops.deep_view() =~= Self::cleanup_plan(base_dir@, is_dir, entries@));
            return ops;
        }
        let ghost plan = |entry: DirEntry| Self::entry_cleanup_plan(entry, base_dir@);
        let first = Self::lun_name(0);
        let mut i: usize = 0;
        assert(ops.deep_view() =~= concat_plans(entries@.take(0), plan));
        while i < entries.len()
            invariant
                i <= entries.len(),
                first@ == lun_name_text(0),
                plan == |entry: DirEntry| Self::entry_cleanup_plan(entry, base_dir@),
                ops.deep_view() == concat_plans(entries@.take(i as int), plan),
            decreases entries.len() - i,
        {
            let entry = &entries[i];
            proof {
                lemma_concat_plans_step(entries@, plan, i as int);
            }
            if entry.is_dir && !same_text(entry.name.as_str(), first.as_str()) {
                emit_all(&mut ops, MsgLun::cleanup(join_path(base_dir, entry.name.as_str()).as_str()));
            }
            assert(ops.deep_view() =~= concat_plans(entries@.take(i + 1), plan));
            i += 1;
        }
        proof {
            assert(entries@.take(entries@.len() as int) =~= entries@);
        }
        emit(&mut ops, FsOp::RemoveDir { path: String::from_str(base_dir) });
        ops
    }

    /// How many of the units `files` are understood before the first one
    /// that is not.
    pub open spec fn units_understood(files: Seq<MsgLunFiles>) -> nat
        decreases files.len(),
    {
        if files.len() == 0 || !MsgLun::files_understood(files[0]) {
            0
        } else {
            1 + Self::units_understood(files.drop_first())
        }
    }

    /// Takes over what was read from the attribute `stall` and from the
    /// directories of the units, in this order. Where `stall` is not
    /// understood nothing changes. Else the units are replaced by those in
    /// `units`, in order, up to the first one that is not understood, which
    /// is the error.
    pub fn from_config(&mut self, stall: &str, units: &Vec<MsgLunFiles>) -> (r:
        core::result::Result<(), Error>)
        ensures
            r is Ok <==> truth_value(stall@) is Some && Self::units_understood(units@)
                == units@.len(),
            r is Err ==> r->Err_0.is_deserialized(),
            truth_value(stall@) is None ==> *final(self) == *old(self),
            truth_value(stall@) is Some ==> {
                &&& truth_value(stall@) == Some(final(self).stall)
                &&& final(self).luns@.len() == Self::units_understood(units@)
                &&& forall|i: int|
                    0 <= i < final(self).luns@.len() ==> (#[trigger] final(self).luns@[i]).0@
                        == units@[i].name@ && final(self).luns@[i].1.holds(units@[i])
            },
    {
        self.stall = read_to_bool(stall)?;
        self.luns = Vec::new();
        let mut i: usize = 0;
        assert(units@.skip(0) =~= units@);
        while i < units.len()
            invariant
                i <= units.len(),
                truth_value(stall@) == Some(self.stall),
                self.luns@.len() == i,
                Self::units_understood(units@) == i + Self::units_understood(
                    units@.skip(i as int),
                ),
                forall|k: int|
                    0 <= k < i ==> (#[trigger] self.luns@[k]).0@ == units@[k].name@
                        && self.luns@[k].1.holds(units@[k]),
            decreases units.len() - i,
        {
            let files = &units[i];
            let mut lun = MsgLun::default();
            proof {
                assert(units@.skip(i as int)[0] == units@[i as int]);
                assert(units@.skip(i as int).drop_first() =~= units@.skip(i + 1));
            }
            match lun.from_config(
                files.cdrom.as_str(),
                files.file.as_str(),
                files.inquiry_string.as_str(),
                files.nofua.as_str(),
                files.removable.as_str(),
                files.ro.as_str(),
            ) {
                Ok(()) => {},
                Err(e) => {
                    return Err(e);
                },
            }
            self.luns.push((files.name.clone(), lun));
            i += 1;
        }
        assert(units@.skip(units@.len() as int).len() == 0);
        Ok(())
    }
}

} // verus!
