//! HID gadget functions and the report encoders built on them.

use vstd::prelude::*;
use crate::configfs::{
    emit, emit_write, lemma_entry_within, op_path, text_bytes, within, write_text,
    write_text_optional, FsOp, FsOpView,
};
use crate::error::{DeserializedError, Error, ErrorKind};
use crate::fs::{
    i32_value, lemma_written_number_reads_back, number_or_error, parse_i32, read_to_u16,
    read_to_u8, u16_value, u8_value,
};
use crate::gadget::{Configurable, UsbFunctionOpts};
use crate::pattern::{captures, regex_captures, regex_is_valid};
use crate::text::{decimal, decimal_string, join, join_path, trim, trimmed};

pub mod generic_desktop;
pub mod hid_composite;
pub mod keyboard;
pub mod mouse;

verus! {

/// The form of the attribute `dev`: major and minor device number, each a
/// run of digits, with a colon between them.
pub const DEV_PATTERN: &'static str = r"^(\d+):(\d+)$";

/// The options of a HID function.
#[derive(Debug, Clone, PartialEq, Eq)]
pub struct FunctionHidOpts {
    /// Major device number of `/dev/hidgN`. The kernel sets it.
    pub major: i32,
    /// Minor device number of `/dev/hidgN`. The kernel sets it.
    pub minor: i32,
    pub no_out_endpoint: u8,
    /// 1 for a keyboard, 2 for a mouse.
    pub protocol: u8,
    pub report_desc: Vec<u8>,
    pub report_length: u16,
    /// 1 for the boot interface subclass.
    pub subclass: u8,
}

/// The texts of the two capture groups of a match of `DEV_PATTERN`.
pub open spec fn captured_pair(captures: Option<Seq<Option<Seq<char>>>>) -> Option<
    (Seq<char>, Seq<char>),
> {
    match captures {
        Some(groups) => if groups.len() == 3 && groups[1] is Some && groups[2] is Some {
            Some((groups[1]->Some_0, groups[2]->Some_0))
        } else {
            None
        },
        None => None,
    }
}

/// The major device number in the captures of a `dev` attribute.
pub open spec fn captured_major(captures: Option<Seq<Option<Seq<char>>>>) -> Option<i32> {
    match captured_pair(captures) {
        Some(pair) => i32_value(pair.0),
        None => None,
    }
}

/// The minor device number in the captures of a `dev` attribute. There is
/// none where there is no major device number.
pub open spec fn captured_minor(captures: Option<Seq<Option<Seq<char>>>>) -> Option<i32> {
    match captured_pair(captures) {
        Some(pair) => if i32_value(pair.0) is Some {
            i32_value(pair.1)
        } else {
            None
        },
        None => None,
    }
}

/// What matching `DEV_PATTERN` against the content `dev_string` of a `dev`
/// attribute captures, whitespace around the content aside. Nothing where
/// the pattern is refused.
pub open spec fn dev_captures(dev_string: Seq<char>) -> Option<Seq<Option<Seq<char>>>> {
    if regex_is_valid(DEV_PATTERN@) {
        regex_captures(DEV_PATTERN@, trimmed(dev_string))
    } else {
        None
    }
}

/// The message of the error that reports `dev_string` as not of the form of
/// a `dev` attribute.
pub open spec fn dev_message(dev_string: Seq<char>) -> Seq<char> {
    "Can not deserialize dev_string: "@ + dev_string
}

/// The number in the attribute `no_out_endpoint`: zero where the attribute
/// could not be read or understood, as on kernels that lack it.
pub open spec fn no_out_endpoint_value(content: Option<Seq<char>>) -> u8 {
    match content {
        Some(text) => match u8_value(text) {
            Some(v) => v,
            None => 0,
        },
        None => 0,
    }
}

/// Whether `after` is `before` after it took the device numbers from the
/// content `dev_string` of its attribute `dev`: the numbers that the content
/// holds are taken, the major number first, and nothing else differs.
pub open spec fn took_dev(before: FunctionHidOpts, after: FunctionHidOpts, dev_string: Seq<char>) -> bool {
    &&& after.major == match captured_major(dev_captures(dev_string)) {
        Some(v) => v,
        None => before.major,
    }
    &&& after.minor == match captured_minor(dev_captures(dev_string)) {
        Some(v) => v,
        None => before.minor,
    }
    &&& after.no_out_endpoint == before.no_out_endpoint
    &&& after.protocol == before.protocol
    &&& after.report_desc == before.report_desc
    &&& after.report_length == before.report_length
    &&& after.subclass == before.subclass
}

impl Default for FunctionHidOpts {
    /// Options with every number zero and an empty report descriptor.
    fn default() -> (opts: Self)
        ensures
            opts.major == 0,
            opts.minor == 0,
            opts.no_out_endpoint == 0,
            opts.protocol == 0,
            opts.report_desc@ == Seq::<u8>::empty(),
            opts.report_length == 0,
            opts.subclass == 0,
    {
        FunctionHidOpts {
            major: 0,
            minor: 0,
            no_out_endpoint: 0,
            protocol: 0,
            report_desc: Vec::new(),
            report_length: 0,
            subclass: 0,
        }
    }
}

impl Configurable for FunctionHidOpts {
    /// Creates the function, writes its attributes and reads back the device
    /// numbers. The attribute `no_out_endpoint` may be missing.
    open spec fn apply_plan(&self, base_dir: Seq<char>) -> Seq<FsOpView> {
        seq![
            FsOpView::CreateDir { path: base_dir },
            write_text_optional(base_dir, "no_out_endpoint"@, decimal(self.no_out_endpoint as nat)),
            write_text(base_dir, "protocol"@, decimal(self.protocol as nat)),
            FsOpView::Write {
                path: join(base_dir, "report_desc"@),
                contents: self.report_desc@,
                required: true,
            },
            write_text(base_dir, "report_length"@, decimal(self.report_length as nat)),
            write_text(base_dir, "subclass"@, decimal(self.subclass as nat)),
            FsOpView::ReadDev { path: join(base_dir, "dev"@) },
        ]
    }

    fn apply_config(&self, base_dir: &str) -> (ops: Vec<FsOp>) {
        let mut ops: Vec<FsOp> = Vec::new();
        emit(&mut ops, FsOp::CreateDir { path: String::from_str(base_dir) });
        emit(
            &mut ops,
            FsOp::Write {
                path: join_path(base_dir, "no_out_endpoint"),
                contents: text_bytes(decimal_string(self.no_out_endpoint as u64).as_str()),
                required: false,
            },
        );
        emit_write(&mut ops, base_dir, "protocol", decimal_string(self.protocol as u64).as_str());
        emit(
            &mut ops,
            FsOp::Write {
                path: join_path(base_dir, "report_desc"),
                contents: self.report_desc.clone(),
                required: true,
            },
        );
        emit_write(
            &mut ops,
            base_dir,
            "report_length",
            decimal_string(self.report_length as u64).as_str(),
        );
        emit_write(&mut ops, base_dir, "subclass", decimal_string(self.subclass as u64).as_str());
        emit(&mut ops, FsOp::ReadDev { path: join_path(base_dir, "dev") });
        assert(ops.deep_view() =~= self.apply_plan(base_dir@));
        ops
    }

    proof fn lemma_apply_plan_within(&self, base_dir: Seq<char>) {
        let plan = self.apply_plan(base_dir);
        assert forall|i: int| 0 <= i < plan.len() implies within(
            op_path(#[trigger] plan[i]),
            base_dir,
        ) by {
            match plan[i] {
                FsOpView::Write { path, .. } => {
                    let name = choose|name: Seq<char>| path == join(base_dir, name);
                    lemma_entry_within(base_dir, name);
                },
                FsOpView::ReadDev { path } => {
                    lemma_entry_within(base_dir, "dev"@);
                },
                _ => {},
            }
        }
    }
}

impl UsbFunctionOpts for FunctionHidOpts {

}

impl FunctionHidOpts {
    /// The operations that remove the function in `base_dir`: none where
    /// `base_dir` is no directory.
    pub open spec fn cleanup_plan(base_dir: Seq<char>, is_dir: bool) -> Seq<FsOpView> {
        if is_dir {
            seq![FsOpView::RemoveDir { path: base_dir }]
        } else {
            Seq::empty()
        }
    }

    /// Plans the removal of the function in `base_dir`. `is_dir` tells
    /// whether `base_dir` is a directory.
    pub fn cleanup(base_dir: &str, is_dir: bool) -> (ops: Vec<FsOp>)
        ensures
            ops.deep_view() == Self::cleanup_plan(base_dir@, is_dir),
    {
        let mut ops: Vec<FsOp> = Vec::new();
        if is_dir {
            emit(&mut ops, FsOp::RemoveDir { path: String::from_str(base_dir) });
        }
        assert(ops.deep_view() =~= Self::cleanup_plan(base_dir@, is_dir));
        ops
    }

    /// Takes the device numbers from what matching `DEV_PATTERN` against the
    /// content `dev_string` of the attribute `dev` has captured. Without two
    /// captured numbers the content is reported as not understood, with a
    /// message that quotes it. The major number is taken first: it is kept
    /// where only the minor number does not fit.
    pub fn read_dev_captures(
        &mut self,
        captures: &Option<Vec<Option<String>>>,
        dev_string: &str,
    ) -> (r: core::result::Result<(), Error>)
        ensures
            r is Ok <==> captured_minor(captures.deep_view()) is Some,
            final(self).major == match captured_major(captures.deep_view()) {
                Some(v) => v,
                None => old(self).major,
            },
            final(self).minor == match captured_minor(captures.deep_view()) {
                Some(v) => v,
                None => old(self).minor,
            },
            r is Err ==> if captured_pair(captures.deep_view()) is None {
                r->Err_0.is_deserialized_custom(dev_message(dev_string@))
            } else {
                *r->Err_0.0 matches ErrorKind::Deserialized(DeserializedError::ParseInt(_))
            },
            final(self).no_out_endpoint == old(self).no_out_endpoint,
            final(self).protocol == old(self).protocol,
            final(self).report_desc == old(self).report_desc,
            final(self).report_length == old(self).report_length,
            final(self).subclass == old(self).subclass,
    {
        let ghost view = captures.deep_view();
        match captures {
            Some(groups) => {
                assert(view is Some && view->Some_0.len() == groups.len());
                if groups.len() == 3 {
                    assert(view->Some_0[1] == groups[1].deep_view());
                    assert(view->Some_0[2] == groups[2].deep_view());
                    match (&groups[1], &groups[2]) {
                        (Some(major), Some(minor)) => {
                            assert(captured_pair(view) == Some((major@, minor@)));
                            match number_or_error(parse_i32(major.as_str())) {
                                Ok(v) => {
                                    self.major = v;
                                },
                                Err(e) => {
                                    return Err(e);
                                },
                            }
                            match number_or_error(parse_i32(minor.as_str())) {
                                Ok(v) => {
                                    self.minor = v;
                                },
                                Err(e) => {
                                    return Err(e);
                                },
                            }
                            return Ok(());
                        },
                        _ => {},
                    }
                }
            },
            None => {},
        }
        assert(captured_pair(view) is None);
        let mut msg = String::from_str("Can not deserialize dev_string: ");
        msg.append(dev_string);
        Err(Error::deserialized_custom(msg))
    }

    /// Takes the device numbers from the content `dev_string` of the
    /// attribute `dev`, which has the form `MAJOR:MINOR`, whitespace around
    /// it aside.
    pub fn read_dev(&mut self, dev_string: &str) -> (r: core::result::Result<(), Error>)
        ensures
            r is Ok <==> captured_minor(dev_captures(dev_string@)) is Some,
            r is Err ==> if captured_pair(dev_captures(dev_string@)) is None {
                r->Err_0.is_deserialized_custom(dev_message(dev_string@))
            } else {
                *r->Err_0.0 matches ErrorKind::Deserialized(DeserializedError::ParseInt(_))
            },
            took_dev(*old(self), *final(self), dev_string@),
    {
        match captures(DEV_PATTERN, trim(dev_string)) {
            Some(found) => self.read_dev_captures(&found, dev_string),
            None => self.read_dev_captures(&None, dev_string),
        }
    }

    /// Whether `after` is `before` after it took over the contents of its
    /// attribute files `dev`, `no_out_endpoint`, `protocol`, `report_desc`,
    /// `report_length` and `subclass`, in this order: a field has its new
    /// value where everything up to it was understood, else the value it
    /// had.
    pub open spec fn took_config(
        before: FunctionHidOpts,
        after: FunctionHidOpts,
        dev: Seq<char>,
        no_out_endpoint: Option<Seq<char>>,
        protocol: Seq<char>,
        report_desc: Seq<u8>,
        report_length: Seq<char>,
        subclass: Seq<char>,
    ) -> bool {
        let numbered = captured_minor(dev_captures(dev)) is Some;
        &&& after.major == match captured_major(dev_captures(dev)) {
            Some(v) => v,
            None => before.major,
        }
        &&& after.minor == match captured_minor(dev_captures(dev)) {
            Some(v) => v,
            None => before.minor,
        }
        &&& after.no_out_endpoint == if numbered {
            no_out_endpoint_value(no_out_endpoint)
        } else {
            before.no_out_endpoint
        }
        &&& after.protocol == match u8_value(protocol) {
            Some(v) if numbered => v,
            _ => before.protocol,
        }
        &&& after.report_desc@ == if numbered && u8_value(protocol) is Some {
            report_desc
        } else {
            before.report_desc@
        }
        &&& after.report_length == match u16_value(report_length) {
            Some(v) if numbered && u8_value(protocol) is Some => v,
            _ => before.report_length,
        }
        &&& after.subclass == match u8_value(subclass) {
            Some(v) if numbered && u8_value(protocol) is Some && u16_value(report_length)
                is Some => v,
            _ => before.subclass,
        }
    }

    /// What was written for a HID function is read back as the same values,
    /// where the kernel has given the function its device numbers: the
    /// texts that `apply_plan` writes are all understood, and taking them
    /// over gives the options that were written. The device numbers are the
    /// kernel's and are not part of this.
    pub proof fn lemma_written_config_reads_back(
        written: FunctionHidOpts,
        before: FunctionHidOpts,
        after: FunctionHidOpts,
        dev: Seq<char>,
    )
        requires
            captured_minor(dev_captures(dev)) is Some,
            Self::took_config(
                before,
                after,
                dev,
                Some(decimal(written.no_out_endpoint as nat)),
                decimal(written.protocol as nat),
                written.report_desc@,
                decimal(written.report_length as nat),
                decimal(written.subclass as nat),
            ),
        ensures
            u8_value(decimal(written.protocol as nat)) is Some,
            u16_value(decimal(written.report_length as nat)) is Some,
            u8_value(decimal(written.subclass as nat)) is Some,
            after.no_out_endpoint == written.no_out_endpoint,
            after.protocol == written.protocol,
            after.report_desc@ == written.report_desc@,
            after.report_length == written.report_length,
            after.subclass == written.subclass,
    {
        lemma_written_number_reads_back(written.no_out_endpoint as nat);
        lemma_written_number_reads_back(written.protocol as nat);
        lemma_written_number_reads_back(written.report_length as nat);
        lemma_written_number_reads_back(written.subclass as nat);
    }

    /// Takes over what was read from the attributes `dev`,
    /// `no_out_endpoint`, `protocol`, `report_desc`, `report_length` and
    /// `subclass`, in this order. `no_out_endpoint` is `None` where the
    /// attribute could not be read. A field gets its new value where
    /// everything up to it was understood; the first content that was not
    /// is the error, and the fields from there on keep their values.
    pub fn from_config(
        &mut self,
        dev: &str,
        no_out_endpoint: Option<&str>,
        protocol: &str,
        report_desc: Vec<u8>,
        report_length: &str,
        subclass: &str,
    ) -> (r: core::result::Result<(), Error>)
        ensures
            r is Ok <==> captured_minor(dev_captures(dev@)) is Some && u8_value(protocol@) is Some
                && u16_value(report_length@) is Some && u8_value(subclass@) is Some,
            r is Err ==> r->Err_0.is_deserialized(),
            Self::took_config(
                *old(self),
                *final(self),
                dev@,
                no_out_endpoint.deep_view(),
                protocol@,
                report_desc@,
                report_length@,
                subclass@,
            ),
    {
        self.read_dev(dev)?;
        self.no_out_endpoint = match no_out_endpoint {
            Some(text) => match read_to_u8(text) {
                Ok(v) => v,
                Err(_) => 0,
            },
            None => 0,
        };
        self.protocol = read_to_u8(protocol)?;
        self.report_desc = report_desc;
        self.report_length = read_to_u16(report_length)?;
        self.subclass = read_to_u8(subclass)?;
        Ok(())
    }
}

} // verus!
