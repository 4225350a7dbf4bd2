//! The gadget as a whole: how it is brought up and how it is taken down.

use vstd::prelude::*;
use crate::configfs::{
    concat_plans, emit, emit_all, emit_write, lemma_concat_plans_step, lemma_entry_within,
    text_bytes, write_text, write_text_optional, DirEntry, FsOp, FsOpView,
};
use crate::error::Error;
use crate::hid::FunctionHidOpts;
use crate::mass_storage::FunctionMsgOpts;
use crate::text::{begins_with, decimal, decimal_string, has_prefix, join, join_path, same_text};
use crate::gadget::{
    distinct_names, has_distinct_names, language_ops, language_plans, named_ops, named_plans,
    remove_dirs_ops, remove_dirs_plan, ConfigSnapshot, Configurable, GadgetStrings, OsDesc,
    UsbConfiguration, UsbDeviceSpeed, UsbFunctionOpts,
};

verus! {

/// The options of a function of a gadget: the kinds of function that this
/// crate can bring up.
#[derive(Debug, Clone, PartialEq, Eq)]
pub enum FunctionOpts {
    /// A HID function, whose name begins with `hid`.
    Hid(FunctionHidOpts),
    /// A mass-storage function, whose name begins with `mass_storage`.
    Msg(FunctionMsgOpts),
}

impl Configurable for FunctionOpts {
    open spec fn apply_plan(&self, base_dir: Seq<char>) -> Seq<FsOpView> {
        match *self {
            FunctionOpts::Hid(opts) => opts.apply_plan(base_dir),
            FunctionOpts::Msg(opts) => opts.apply_plan(base_dir),
        }
    }

    fn apply_config(&self, base_dir: &str) -> (ops: Vec<FsOp>) {
        match self {
            FunctionOpts::Hid(opts) => opts.apply_config(base_dir),
            FunctionOpts::Msg(opts) => opts.apply_config(base_dir),
        }
    }

    proof fn lemma_apply_plan_within(&self, base_dir: Seq<char>) {
        match *self {
            FunctionOpts::Hid(opts) => opts.lemma_apply_plan_within(base_dir),
            FunctionOpts::Msg(opts) => opts.lemma_apply_plan_within(base_dir),
        }
    }
}

impl UsbFunctionOpts for FunctionOpts {

}

/// What is found in the directory of a function before it is taken down.
#[derive(Debug, Clone, PartialEq, Eq)]
pub struct FunctionSnapshot {
    /// The name of the function.
    pub name: String,
    /// Whether the entry of that name is a directory.
    pub is_dir: bool,
    /// The entries of the directory.
    pub entries: Vec<DirEntry>,
}

/// What is found in the directory of a gadget before it is taken down.
#[derive(Debug, Clone, PartialEq, Eq)]
pub struct GadgetSnapshot {
    /// The content of the attribute `UDC`.
    pub udc: Vec<u8>,
    /// The entries of the directory `configs`.
    pub configs: Vec<ConfigSnapshot>,
    /// The entries of the directory `functions`.
    pub functions: Vec<FunctionSnapshot>,
    /// The entries of the directory `strings`.
    pub strings: Vec<DirEntry>,
}

/// A USB composite gadget.
#[derive(Debug, Clone, PartialEq, Eq)]
pub struct GadgetInfo {
    pub bcd_device: u16,
    pub bcd_usb: u16,
    pub b_device_class: u8,
    pub b_device_protocol: u8,
    pub b_device_sub_class: u8,
    pub b_max_packet_size0: u8,
    /// The configurations by name, in the order in which they are written.
    pub configs: Vec<(String, UsbConfiguration)>,
    /// The functions by name, in the order in which they are written.
    pub functions: Vec<(String, FunctionOpts)>,
    pub id_product: u16,
    pub id_vendor: u16,
    pub max_speed: UsbDeviceSpeed,
    pub os_desc: OsDesc,
    /// The strings of the gadget by language code.
    pub strings: Vec<(u16, GadgetStrings)>,
    /// The name of the controller that the gadget is bound to. A lone
    /// newline binds it to none.
    pub udc: String,
}

/// The content of the attribute `UDC` of a gadget that is bound to no
/// controller.
pub open spec fn unbound_udc() -> Seq<u8> {
    seq![0x0au8]
}

/// The operation that takes the gadget in `base_dir` off its controller.
pub open spec fn unbind_op(base_dir: Seq<char>) -> FsOpView {
    write_text(base_dir, "UDC"@, seq!['\n'])
}

/// The operation that binds the gadget in `base_dir` to the controller
/// `udc`.
pub open spec fn bind_op(base_dir: Seq<char>, udc: Seq<char>) -> FsOpView {
    write_text(base_dir, "UDC"@, udc)
}

/// The operations that remove the function `function` from the directory
/// `dir`. What is to be done goes by the name: units are removed from a
/// mass-storage function before the function itself, any other function is
/// removed as it is.
pub open spec fn function_cleanup_plan(function: FunctionSnapshot, dir: Seq<char>) -> Seq<
    FsOpView,
> {
    let path = join(dir, function.name@);
    if begins_with(function.name@, GadgetInfo::HID@) {
        FunctionHidOpts::cleanup_plan(path, function.is_dir)
    } else if begins_with(function.name@, GadgetInfo::MASS_STORAGE@) {
        FunctionMsgOpts::cleanup_plan(path, function.is_dir, function.entries@)
    } else {
        FunctionHidOpts::cleanup_plan(path, function.is_dir)
    }
}

/// The operations that remove the configuration `config` from the
/// directory `dir`.
pub open spec fn config_cleanup_plan(config: ConfigSnapshot, dir: Seq<char>) -> Seq<FsOpView> {
    UsbConfiguration::cleanup_plan(
        join(dir, config.name@),
        config.is_dir,
        config.entries@,
        config.strings@,
    )
}

impl Default for GadgetInfo {
    /// A gadget without functions, configurations and strings, bound to no
    /// controller.
    fn default() -> (gadget: Self)
        ensures
            gadget.bcd_device == 0x515,
            gadget.bcd_usb == 0,
            gadget.b_device_class == 0,
            gadget.b_device_protocol == 0,
            gadget.b_device_sub_class == 0,
            gadget.b_max_packet_size0 == 0,
            gadget.configs@.len() == 0,
            gadget.functions@.len() == 0,
            gadget.id_product == 0,
            gadget.id_vendor == 0,
            gadget.max_speed == UsbDeviceSpeed::UsbSpeedSuperPlus,
            !gadget.os_desc.in_use,
            gadget.os_desc.b_vendor_code == 0,
            gadget.os_desc.qw_sign@ == seq!['\n', '\n'],
            gadget.strings@.len() == 0,
            gadget.udc@ == seq!['\n'],
            gadget.well_formed(),
    {
        proof {
            reveal_strlit("\n");
        }
        assert("\n"@ =~= seq!['\n']);
        GadgetInfo {
            bcd_device: 0x515,
            bcd_usb: 0,
            b_device_class: 0,
            b_device_protocol: 0,
            b_device_sub_class: 0,
            b_max_packet_size0: 0,
            configs: Vec::new(),
            functions: Vec::new(),
            id_product: 0,
            id_vendor: 0,
            max_speed: UsbDeviceSpeed::UsbSpeedSuperPlus,
            os_desc: OsDesc::default(),
            strings: Vec::new(),
            udc: String::from_str("\n"),
        }
    }
}

impl Configurable for GadgetInfo {
    /// Creates the gadget and writes, in this order: the device attributes,
    /// the functions, the configurations, the product and vendor ID, the
    /// speed (which an older kernel may not know), the OS descriptor and the
    /// strings. Binding the gadget to its controller comes last.
    open spec fn apply_plan(&self, base_dir: Seq<char>) -> Seq<FsOpView> {
        self.setup_plan(base_dir).push(bind_op(base_dir, self.udc@))
    }

    fn apply_config(&self, base_dir: &str) -> (ops: Vec<FsOp>) {
        let mut ops: Vec<FsOp> = Vec::new();
        emit(&mut ops, FsOp::CreateDir { path: String::from_str(base_dir) });
        emit_write(&mut ops, base_dir, "bcdDevice", decimal_string(self.bcd_device as u64).as_str());
        emit_write(&mut ops, base_dir, "bcdUSB", decimal_string(self.bcd_usb as u64).as_str());
        emit_write(
            &mut ops,
            base_dir,
            "bDeviceClass",
            decimal_string(self.b_device_class as u64).as_str(),
        );
        emit_write(
            &mut ops,
            base_dir,
            "bDeviceProtocol",
            decimal_string(self.b_device_protocol as u64).as_str(),
        );
        emit_write(
            &mut ops,
            base_dir,
            "bDeviceSubClass",
            decimal_string(self.b_device_sub_class as u64).as_str(),
        );
        emit_write(
            &mut ops,
            base_dir,
            "bMaxPacketSize0",
            decimal_string(self.b_max_packet_size0 as u64).as_str(),
        );
        assert(ops.deep_view() =~= self.device_plan(base_dir@));
        emit_all(&mut ops, named_ops(&self.functions, join_path(base_dir, "functions").as_str()));
        emit_all(&mut ops, named_ops(&self.configs, join_path(base_dir, "configs").as_str()));
        emit_write(&mut ops, base_dir, "idProduct", decimal_string(self.id_product as u64).as_str());
        emit_write(&mut ops, base_dir, "idVendor", decimal_string(self.id_vendor as u64).as_str());
        emit(
            &mut ops,
            FsOp::Write {
                path: join_path(base_dir, "max_speed"),
                contents: text_bytes(self.max_speed.as_str()),
                required: false,
            },
        );
        emit_all(&mut ops, self.os_desc.apply_config(join_path(base_dir, "os_desc").as_str()));
        emit_all(&mut ops, language_ops(&self.strings, join_path(base_dir, "strings").as_str()));
        assert(ops.deep_view() =~= self.setup_plan(base_dir@));
        emit_write(&mut ops, base_dir, "UDC", self.udc.as_str());
        ops
    }

    proof fn lemma_apply_plan_within(&self, base_dir: Seq<char>) {
        self.lemma_setup_plan(base_dir);
        lemma_entry_within(base_dir, "UDC"@);
    }
}

impl GadgetInfo {
    /// What the name of a HID function begins with.
    pub const HID: &'static str = "hid";

    /// What the name of a mass-storage function begins with.
    pub const MASS_STORAGE: &'static str = "mass_storage";

    /// The operations that create the gadget in `base_dir` and write its
    /// device attributes.
    pub open spec fn device_plan(&self, base_dir: Seq<char>) -> Seq<FsOpView> {
        seq![
            FsOpView::CreateDir { path: base_dir },
            write_text(base_dir, "bcdDevice"@, decimal(self.bcd_device as nat)),
            write_text(base_dir, "bcdUSB"@, decimal(self.bcd_usb as nat)),
            write_text(base_dir, "bDeviceClass"@, decimal(self.b_device_class as nat)),
            write_text(base_dir, "bDeviceProtocol"@, decimal(self.b_device_protocol as nat)),
            write_text(base_dir, "bDeviceSubClass"@, decimal(self.b_device_sub_class as nat)),
            write_text(base_dir, "bMaxPacketSize0"@, decimal(self.b_max_packet_size0 as nat)),
        ]
    }

    /// The operations that write the product and vendor ID and the speed of
    /// the gadget in `base_dir`.
    pub open spec fn identity_plan(&self, base_dir: Seq<char>) -> Seq<FsOpView> {
        seq![
            write_text(base_dir, "idProduct"@, decimal(self.id_product as nat)),
            write_text(base_dir, "idVendor"@, decimal(self.id_vendor as nat)),
            write_text_optional(base_dir, "max_speed"@, self.max_speed.name()),
        ]
    }

    /// Everything that `apply_plan` does before it binds the gadget.
    pub open spec fn setup_plan(&self, base_dir: Seq<char>) -> Seq<FsOpView> {
        self.device_plan(base_dir) + named_plans(self.functions@, join(base_dir, "functions"@))
            + named_plans(self.configs@, join(base_dir, "configs"@)) + self.identity_plan(base_dir)
            + self.os_desc.apply_plan(join(base_dir, "os_desc"@)) + language_plans(
            self.strings@,
            join(base_dir, "strings"@),
        )
    }

    /// The path of the attribute `dev` of the function `function` of the
    /// gadget in `base_dir`.
    pub open spec fn dev_path(base_dir: Seq<char>, function: Seq<char>) -> Seq<char> {
        join(join(join(base_dir, "functions"@), function), "dev"@)
    }

    /// Whether function `index` is a HID function whose attribute `dev` is
    /// the file `path`, the gadget being in `base_dir`.
    pub open spec fn owns_dev(&self, base_dir: Seq<char>, path: Seq<char>, index: int) -> bool {
        &&& 0 <= index < self.functions@.len()
        &&& self.functions@[index].1 is Hid
        &&& Self::dev_path(base_dir, self.functions@[index].0@) == path
    }

    /// The first function below `limit` that owns the attribute `dev` at
    /// `path`.
    pub open spec fn dev_owner(&self, base_dir: Seq<char>, path: Seq<char>, limit: int) -> Option<
        int,
    >
        decreases limit,
    {
        if limit <= 0 {
            None
        } else {
            match self.dev_owner(base_dir, path, limit - 1) {
                Some(index) => Some(index),
                None => if self.owns_dev(base_dir, path, limit - 1) {
                    Some(limit - 1)
                } else {
                    None
                },
            }
        }
    }

    /// The message of the error that reports `path` as the attribute `dev`
    /// of no HID function.
    pub open spec fn no_owner_message(path: Seq<char>) -> Seq<char> {
        "No HID function has the attribute "@ + path
    }

    /// Hands the content `dev_string` of the file `path`, which a `ReadDev`
    /// operation of the plan for `base_dir` has read, to the HID function it
    /// belongs to: the first one whose attribute `dev` is `path`. That
    /// function takes the device numbers as `FunctionHidOpts::read_dev`
    /// does; nothing else changes. Without such a function nothing changes
    /// at all, and the error says so.
    pub fn read_dev(&mut self, base_dir: &str, path: &str, dev_string: &str) -> (r:
        core::result::Result<(), Error>)
        ensures
            match old(self).dev_owner(base_dir@, path@, old(self).functions@.len() as int) {
                None => r is Err && r->Err_0.is_custom(Self::no_owner_message(path@))
                    && *final(self) == *old(self),
                Some(index) => {
                    &&& old(self).owns_dev(base_dir@, path@, index)
                    &&& r is Ok <==> crate::hid::captured_minor(crate::hid::dev_captures(dev_string@))
                        is Some
                    &&& r is Err ==> r->Err_0.is_deserialized()
                    &&& final(self).functions@.len() == old(self).functions@.len()
                    &&& forall|other: int|
                        0 <= other < old(self).functions@.len() && other != index
                            ==> final(self).functions@[other] == old(self).functions@[other]
                    &&& final(self).functions@[index].0 == old(self).functions@[index].0
                    &&& final(self).functions@[index].1 is Hid
                    &&& crate::hid::took_dev(
                        old(self).functions@[index].1->Hid_0,
                        final(self).functions@[index].1->Hid_0,
                        dev_string@,
                    )
                },
            },
            final(self).bcd_device == old(self).bcd_device,
            final(self).bcd_usb == old(self).bcd_usb,
            final(self).b_device_class == old(self).b_device_class,
            final(self).b_device_protocol == old(self).b_device_protocol,
            final(self).b_device_sub_class == old(self).b_device_sub_class,
            final(self).b_max_packet_size0 == old(self).b_max_packet_size0,
            final(self).configs == old(self).configs,
            final(self).id_product == old(self).id_product,
            final(self).id_vendor == old(self).id_vendor,
            final(self).max_speed == old(self).max_speed,
            final(self).os_desc == old(self).os_desc,
            final(self).strings == old(self).strings,
            final(self).udc == old(self).udc,
    {
        let functions_dir = join_path(base_dir, "functions");
        let mut i: usize = 0;
        while i < self.functions.len()
            invariant
                i <= self.functions.len(),
                *self == *old(self),
                functions_dir@ == join(base_dir@, "functions"@),
                self.dev_owner(base_dir@, path@, i as int) is None,
            decreases self.functions.len() - i,
        {
            let dev = join_path(
                join_path(functions_dir.as_str(), self.functions[i].0.as_str()).as_str(),
                "dev",
            );
            let is_hid = match &self.functions[i].1 {
                FunctionOpts::Hid(_) => true,
                FunctionOpts::Msg(_) => false,
            };
            if is_hid && same_text(dev.as_str(), path) {
                proof {
                    assert(old(self).owns_dev(base_dir@, path@, i as int));
                    old(self).lemma_dev_owner_found(base_dir@, path@, i as int);
                }
                match &mut self.functions[i].1 {
                    FunctionOpts::Hid(opts) => {
                        return opts.read_dev(dev_string);
                    },
                    FunctionOpts::Msg(_) => {},
                }
            }
            i += 1;
        }
        let mut msg = String::from_str("No HID function has the attribute ");
        msg.append(path);
        Err(Error(Box::new(crate::error::ErrorKind::custom(msg))))
    }

    /// Where no function below `index` owns the attribute and function
    /// `index` does, it is the owner whatever comes after it.
    pub proof fn lemma_dev_owner_found(&self, base_dir: Seq<char>, path: Seq<char>, index: int)
        requires
            self.dev_owner(base_dir, path, index) is None,
            self.owns_dev(base_dir, path, index),
        ensures
            forall|limit: int| index < limit ==> self.dev_owner(base_dir, path, limit) == Some(index),
    {
        assert forall|limit: int| index < limit implies self.dev_owner(base_dir, path, limit)
            == Some(index) by {
            self.lemma_dev_owner_stays(base_dir, path, index, limit);
        }
    }

    /// An owner that was found below `low` is the owner below every higher
    /// limit.
    pub proof fn lemma_dev_owner_stays(
        &self,
        base_dir: Seq<char>,
        path: Seq<char>,
        index: int,
        limit: int,
    )
        requires
            self.dev_owner(base_dir, path, index) is None,
            self.owns_dev(base_dir, path, index),
            index < limit,
        ensures
            self.dev_owner(base_dir, path, limit) == Some(index),
        decreases limit,
    {
        if limit > index + 1 {
            self.lemma_dev_owner_stays(base_dir, path, index, limit - 1);
        }
    }

    /// The first function below `limit` with the name `name`.
    pub open spec fn function_index(&self, name: Seq<char>, limit: int) -> Option<int>
        decreases limit,
    {
        if limit <= 0 {
            None
        } else {
            match self.function_index(name, limit - 1) {
                Some(index) => Some(index),
                None => if limit <= self.functions@.len() && self.functions@[limit - 1].0@ == name {
                    Some(limit - 1)
                } else {
                    None
                },
            }
        }
    }

    /// Whether the gadget has a function with the name `name`.
    pub open spec fn has_function(&self, name: Seq<char>) -> bool {
        exists|i: int| 0 <= i < self.functions@.len() && (#[trigger] self.functions@[i]).0@ == name
    }

    /// Whether the function `opts` may have the name `name`: the name of a
    /// function begins with its kind, `hid` or `mass_storage`, and by its
    /// name the function is taken down later.
    pub open spec fn name_tells_kind(name: Seq<char>, opts: FunctionOpts) -> bool {
        match opts {
            FunctionOpts::Hid(_) => begins_with(name, Self::HID@),
            FunctionOpts::Msg(_) => begins_with(name, Self::MASS_STORAGE@),
        }
    }

    /// Whether the gadget can be written as it stands: no two functions and
    /// no two configurations share a name, the name of every function tells
    /// its kind, no language code has two sets of strings, and every
    /// function that a configuration names is a function of the gadget.
    pub open spec fn well_formed(&self) -> bool {
        &&& forall|k: int|
            0 <= k < self.functions@.len() ==> Self::name_tells_kind(
                (#[trigger] self.functions@[k]).0@,
                self.functions@[k].1,
            )
        &&& distinct_names(self.functions@)
        &&& distinct_names(self.configs@)
        &&& forall|i: int, j: int|
            0 <= i < j < self.strings@.len() ==> self.strings@[i].0 != self.strings@[j].0
        &&& forall|c: int, f: int|
            0 <= c < self.configs@.len() && 0 <= f < self.configs@[c].1.functions@.len()
                ==> self.has_function(#[trigger] self.configs@[c].1.functions@[f]@)
    }

    /// Where the function with the name `name` stands among the functions
    /// of the gadget: the first of that name, if there is any.
    pub fn find_function(&self, name: &str) -> (found: Option<usize>)
        ensures
            found is Some <==> self.has_function(name@),
            match found {
                Some(index) => self.function_index(name@, self.functions@.len() as int) == Some(
                    index as int,
                ) && index < self.functions@.len() && self.functions@[index as int].0@ == name@,
                None => self.function_index(name@, self.functions@.len() as int) is None,
            },
    {
        let mut i: usize = 0;
        while i < self.functions.len()
            invariant
                i <= self.functions.len(),
                self.function_index(name@, i as int) is None,
                forall|k: int| 0 <= k < i ==> (#[trigger] self.functions@[k]).0@ != name@,
            decreases self.functions.len() - i,
        {
            if same_text(self.functions[i].0.as_str(), name) {
                proof {
                    self.lemma_function_index_stays(name@, i as int, self.functions@.len() as int);
                }
                return Some(i);
            }
            i += 1;
        }
        None
    }

    /// The options of the HID function with the name `name`: those of the
    /// first function of that name, where it is a HID function.
    pub fn hid_function(&self, name: &str) -> (found: Option<&FunctionHidOpts>)
        ensures
            match self.function_index(name@, self.functions@.len() as int) {
                Some(index) => match self.functions@[index].1 {
                    FunctionOpts::Hid(opts) => found == Some(&opts),
                    FunctionOpts::Msg(_) => found is None,
                },
                None => found is None,
            },
    {
        match self.find_function(name) {
            Some(index) => match &self.functions[index].1 {
                FunctionOpts::Hid(opts) => Some(opts),
                FunctionOpts::Msg(_) => None,
            },
            None => None,
        }
    }

    /// Whether the gadget can be written as it stands.
    pub fn is_well_formed(&self) -> (ok: bool)
        ensures
            ok == self.well_formed(),
    {
        let mut k: usize = 0;
        while k < self.functions.len()
            invariant
                k <= self.functions.len(),
                forall|a: int|
                    0 <= a < k ==> Self::name_tells_kind(
                        (#[trigger] self.functions@[a]).0@,
                        self.functions@[a].1,
                    ),
            decreases self.functions.len() - k,
        {
            let named = match &self.functions[k].1 {
                FunctionOpts::Hid(_) => has_prefix(self.functions[k].0.as_str(), Self::HID),
                FunctionOpts::Msg(_) => has_prefix(self.functions[k].0.as_str(), Self::MASS_STORAGE),
            };
            if !named {
                return false;
            }
            k += 1;
        }
        if !has_distinct_names(&self.functions) || !has_distinct_names(&self.configs) {
            return false;
        }
        let mut i: usize = 0;
        while i < self.strings.len()
            invariant
                i <= self.strings.len(),
                forall|a: int, b: int|
                    0 <= a < b < self.strings@.len() && b < i ==> self.strings@[a].0
                        != self.strings@[b].0,
            decreases self.strings.len() - i,
        {
            let mut k: usize = 0;
            while k < i
                invariant
                    k <= i < self.strings.len(),
                    forall|a: int| 0 <= a < k ==> self.strings@[a].0 != self.strings@[i as int].0,
                decreases i - k,
            {
                if self.strings[k].0 == self.strings[i].0 {
                    return false;
                }
                k += 1;
            }
            i += 1;
        }
        let mut c: usize = 0;
        while c < self.configs.len()
            invariant
                c <= self.configs.len(),
                forall|a: int, f: int|
                    0 <= a < c && 0 <= f < self.configs@[a].1.functions@.len()
                        ==> self.has_function(#[trigger] self.configs@[a].1.functions@[f]@),
            decreases self.configs.len() - c,
        {
            let names = &self.configs[c].1.functions;
            let mut f: usize = 0;
            while f < names.len()
                invariant
                    f <= names.len(),
                    c < self.configs.len(),
                    names == &self.configs@[c as int].1.functions,
                    forall|b: int| 0 <= b < f ==> self.has_function(#[trigger] names@[b]@),
                decreases names.len() - f,
            {
                if self.find_function(names[f].as_str()).is_none() {
                    assert(!self.has_function(self.configs@[c as int].1.functions@[f as int]@));
                    return false;
                }
                f += 1;
            }
            c += 1;
        }
        true
    }

    /// Plans the writing of the gadget to `base_dir` where the gadget is
    /// well formed. A gadget that is not gets no plan: written as it stands
    /// it would make a directory twice or link a function that is not
    /// there.
    pub fn checked_apply_config(&self, base_dir: &str) -> (ops: Option<Vec<FsOp>>)
        ensures
            ops is Some <==> self.well_formed(),
            ops is Some ==> ops->Some_0.deep_view() == self.apply_plan(base_dir@),
    {
        if self.is_well_formed() {
            Some(self.apply_config(base_dir))
        } else {
            None
        }
    }

    /// A function that was found below `index + 1` is the one found below
    /// every higher limit.
    pub proof fn lemma_function_index_stays(&self, name: Seq<char>, index: int, limit: int)
        requires
            self.function_index(name, index) is None,
            0 <= index < self.functions@.len(),
            self.functions@[index].0@ == name,
            index < limit,
        ensures
            self.function_index(name, limit) == Some(index),
        decreases limit,
    {
        if limit > index + 1 {
            self.lemma_function_index_stays(name, index, limit - 1);
        }
    }

    /// The operations that take the gadget in `base_dir` down, given what
    /// was found there: `None` where `base_dir` is no directory, and then
    /// nothing is to be done. Else the gadget is taken off its controller
    /// first, unless it is bound to none. Then the configurations go, the
    /// functions, the OS descriptor is switched off, the strings go, and at
    /// last the gadget itself.
    pub open spec fn cleanup_plan(base_dir: Seq<char>, found: Option<GadgetSnapshot>) -> Seq<
        FsOpView,
    > {
        match found {
            None => Seq::empty(),
            Some(snapshot) => Self::unbind_plan(base_dir, snapshot.udc@) + Self::removal_plan(
                base_dir,
                snapshot,
            ),
        }
    }

    /// The operation that takes the gadget in `base_dir` off its controller,
    /// where the attribute `UDC`, whose content is `udc`, names one.
    pub open spec fn unbind_plan(base_dir: Seq<char>, udc: Seq<u8>) -> Seq<FsOpView> {
        if udc != unbound_udc() {
            seq![unbind_op(base_dir)]
        } else {
            Seq::empty()
        }
    }

    /// The operations that remove what `snapshot` lists from the gadget in
    /// `base_dir`, and then the gadget.
    pub open spec fn removal_plan(base_dir: Seq<char>, snapshot: GadgetSnapshot) -> Seq<FsOpView> {
        concat_plans(
            snapshot.configs@,
            |config: ConfigSnapshot| config_cleanup_plan(config, join(base_dir, "configs"@)),
        ) + concat_plans(
            snapshot.functions@,
            |function: FunctionSnapshot|
                function_cleanup_plan(function, join(base_dir, "functions"@)),
        ) + OsDesc::cleanup_plan(join(base_dir, "os_desc"@)) + remove_dirs_plan(
            snapshot.strings@,
            join(base_dir, "strings"@),
        ) + seq![FsOpView::RemoveDir { path: base_dir }]
    }

    /// Plans the taking down of the gadget in `base_dir`. `found` is what
    /// was found there, `None` where `base_dir` is no directory.
    pub fn cleanup(base_dir: &str, found: Option<&GadgetSnapshot>) -> (ops: Vec<FsOp>)
        ensures
            ops.deep_view() == Self::cleanup_plan(
                base_dir@,
                match found {
                    Some(snapshot) => Some(*snapshot),
                    None => None,
                },
            ),
    {
        let mut ops: Vec<FsOp> = Vec::new();
        let snapshot = match found {
            Some(snapshot) => snapshot,
            None => {
                assert(ops.deep_view() =~= Seq::<FsOpView>::empty());
                return ops;
            },
        };
        if !(snapshot.udc.len() == 1 && snapshot.udc[0] == 0x0a) {
            proof {
                reveal_strlit("\n");
                assert(snapshot.udc@ != unbound_udc()) by {
                    if snapshot.udc@ == unbound_udc() {
                        assert(snapshot.udc@.len() == 1 && snapshot.udc@[0] == 0x0a);
                    }
                }
            }
            assert("\n"@ =~= seq!['\n']);
            emit_write(&mut ops, base_dir, "UDC", "\n");
        } else {
            assert(snapshot.udc@ =~= unbound_udc());
        }
        assert(ops.deep_view() =~= Self::unbind_plan(base_dir@, snapshot.udc@));
        let ghost unbind = ops.deep_view();

        let configs_dir = join_path(base_dir, "configs");
        let ghost config_plan = |config: ConfigSnapshot|
            config_cleanup_plan(config, join(base_dir@, "configs"@));
        let mut i: usize = 0;
        assert(ops.deep_view() =~= unbind + concat_plans(snapshot.configs@.take(0), config_plan));
        while i < snapshot.configs.len()
            invariant
                i <= snapshot.configs.len(),
                configs_dir@ == join(base_dir@, "configs"@),
                config_plan == |config: ConfigSnapshot|
                    config_cleanup_plan(config, join(base_dir@, "configs"@)),
                ops.deep_view() == unbind + concat_plans(
                    snapshot.configs@.take(i as int),
                    config_plan,
                ),
            decreases snapshot.configs.len() - i,
        {
            let config = &snapshot.configs[i];
            proof {
                lemma_concat_plans_step(snapshot.configs@, config_plan, i as int);
            }
            emit_all(
                &mut ops,
                UsbConfiguration::cleanup(
                    join_path(configs_dir.as_str(), config.name.as_str()).as_str(),
                    config.is_dir,
                    &config.entries,
                    &config.strings,
                ),
            );
            assert(ops.deep_view() =~= unbind + concat_plans(
                snapshot.configs@.take(i + 1),
                config_plan,
            ));
            i += 1;
        }
        assert(snapshot.configs@.take(snapshot.configs@.len() as int) =~= snapshot.configs@);
        let ghost configs_done = ops.deep_view();

        let functions_dir = join_path(base_dir, "functions");
        let ghost function_plan = |function: FunctionSnapshot|
            function_cleanup_plan(function, join(base_dir@, "functions"@));
        let mut k: usize = 0;
        assert(ops.deep_view() =~= configs_done + concat_plans(
            snapshot.functions@.take(0),
            function_plan,
        ));
        while k < snapshot.functions.len()
            invariant
                k <= snapshot.functions.len(),
                functions_dir@ == join(base_dir@, "functions"@),
                function_plan == |function: FunctionSnapshot|
                    function_cleanup_plan(function, join(base_dir@, "functions"@)),
                ops.deep_view() == configs_done + concat_plans(
                    snapshot.functions@.take(k as int),
                    function_plan,
                ),
            decreases snapshot.functions.len() - k,
        {
            let function = &snapshot.functions[k];
            let path = join_path(functions_dir.as_str(), function.name.as_str());
            proof {
                lemma_concat_plans_step(snapshot.functions@, function_plan, k as int);
            }
            if has_prefix(function.name.as_str(), Self::HID) {
                emit_all(&mut ops, FunctionHidOpts::cleanup(path.as_str(), function.is_dir));
            } else if has_prefix(function.name.as_str(), Self::MASS_STORAGE) {
                emit_all(
                    &mut ops,
                    FunctionMsgOpts::cleanup(path.as_str(), function.is_dir, &function.entries),
                );
            } else {
                emit_all(&mut ops, FunctionHidOpts::cleanup(path.as_str(), function.is_dir));
            }
            assert(ops.deep_view() =~= configs_done + concat_plans(
                snapshot.functions@.take(k + 1),
                function_plan,
            ));
            k += 1;
        }
        assert(snapshot.functions@.take(snapshot.functions@.len() as int) =~= snapshot.functions@);

        emit_all(&mut ops, OsDesc::cleanup(join_path(base_dir, "os_desc").as_str()));
        emit_all(
            &mut ops,
            remove_dirs_ops(&snapshot.strings, join_path(base_dir, "strings").as_str()),
        );
        emit(&mut ops, FsOp::RemoveDir { path: String::from_str(base_dir) });
        assert(ops.deep_view() =~= Self::unbind_plan(base_dir@, snapshot.udc@) + Self::removal_plan(
            base_dir@,
            *snapshot,
        ));
        ops
    }
}

} // verus!
