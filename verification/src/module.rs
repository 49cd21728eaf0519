//! Loading of plug-in modules and what is read from their factories.

pub mod info;

use crate::error::Error;
use crate::module::info::{
    factory_flags_of, CID, Class, ClassView, FactoryFlags, FactoryInfo, FactoryInfoView, Info,
    InfoView,
};
use crate::util::{
    file_name, file_name_of, split_on, split_text, stem, stem_of, text_of_bytes, ClassId,
    ToRustString,
};
use vstd::prelude::*;
use vstd::string::*;

verus! {

/// What a factory reports about itself, as it crosses the boundary.
pub struct FactoryRecord {
    pub vendor: [u8; 64],
    pub url: [u8; 256],
    pub email: [u8; 128],
    pub flags: i32,
}

/// What a factory reports about one class through its basic query.
pub struct ClassRecord {
    pub cid: ClassId,
    pub cardinality: i32,
    pub category: [u8; 32],
    pub name: [u8; 64],
}

/// What a factory reports about one class through its richer query.
pub struct ClassRecord2 {
    pub cid: ClassId,
    pub cardinality: i32,
    pub category: [u8; 32],
    pub name: [u8; 64],
    pub class_flags: u32,
    pub sub_categories: [u8; 128],
    pub vendor: [u8; 64],
    pub version: [u8; 64],
    pub sdk_version: [u8; 64],
}

/// The class list of a factory, read through the richer query where the
/// factory has it and through the basic one where it has not.
pub enum ClassRecords {
    Basic(Vec<ClassRecord>),
    Extended(Vec<ClassRecord2>),
}

/// The factory description that `record` stands for.
pub open spec fn factory_info_of(record: FactoryRecord) -> FactoryInfoView {
    FactoryInfoView {
        vendor: text_of_bytes(record.vendor@),
        url: text_of_bytes(record.url@),
        email: text_of_bytes(record.email@),
        flags: factory_flags_of(record.flags),
    }
}

/// The class description that a basic record stands for: what the basic
/// query does not report is absent.
pub open spec fn class_of(record: ClassRecord) -> ClassView {
    ClassView {
        cid: record.cid@,
        name: text_of_bytes(record.name@),
        category: text_of_bytes(record.category@),
        cardinality: record.cardinality,
        version: None,
        vendor: None,
        sdk_version: None,
        subcategories: Seq::empty(),
        class_flags: None,
    }
}

/// The class description that a richer record stands for. The
/// subcategories are the parts of their text between commas.
pub open spec fn class_of2(record: ClassRecord2) -> ClassView {
    ClassView {
        cid: record.cid@,
        name: text_of_bytes(record.name@),
        category: text_of_bytes(record.category@),
        cardinality: record.cardinality,
        version: Some(text_of_bytes(record.version@)),
        vendor: Some(text_of_bytes(record.vendor@)),
        sdk_version: Some(text_of_bytes(record.sdk_version@)),
        subcategories: split_text(text_of_bytes(record.sub_categories@), ','),
        class_flags: Some(record.class_flags),
    }
}

/// The class descriptions that a class list stands for, in its order.
pub open spec fn classes_of(records: ClassRecords) -> Seq<ClassView> {
    match records {
        ClassRecords::Basic(list) => list@.map_values(|r: ClassRecord| class_of(r)),
        ClassRecords::Extended(list) => list@.map_values(|r: ClassRecord2| class_of2(r)),
    }
}

/// The module description that a factory's answers stand for. A factory
/// reports neither a module name nor a module version.
pub open spec fn info_of(factory: FactoryRecord, classes: ClassRecords) -> InfoView {
    InfoView {
        classes: classes_of(classes),
        name: None,
        factory_info: factory_info_of(factory),
        version: None,
    }
}

impl FactoryInfo {
    /// Reads a factory description from the record that the factory filled.
    pub fn from_record(record: &FactoryRecord) -> (info: FactoryInfo)
        ensures
            info@ == factory_info_of(*record),
    {
        FactoryInfo {
            vendor: record.vendor.to_rust_string(),
            url: record.url.to_rust_string(),
            email: record.email.to_rust_string(),
            flags: FactoryFlags::from(record.flags),
        }
    }
}

impl Class {
    /// Reads a class description from a record of the basic query.
    pub fn from_record(record: &ClassRecord) -> (class: Class)
        ensures
            class@ == class_of(*record),
    {
        let class = Class {
            cid: CID(record.cid),
            name: record.name.to_rust_string(),
            category: record.category.to_rust_string(),
            cardinality: record.cardinality,
            version: None,
            vendor: None,
            sdk_version: None,
            subcategories: Vec::new(),
            class_flags: None,
        };
        assert(class@.subcategories =~= Seq::<Seq<char>>::empty());
        class
    }

    /// Reads a class description from a record of the richer query.
    pub fn from_record2(record: &ClassRecord2) -> (class: Class)
        ensures
            class@ == class_of2(*record),
    {
        let sub_categories = record.sub_categories.to_rust_string();
        Class {
            cid: CID(record.cid),
            name: record.name.to_rust_string(),
            category: record.category.to_rust_string(),
            cardinality: record.cardinality,
            version: Some(record.version.to_rust_string()),
            vendor: Some(record.vendor.to_rust_string()),
            sdk_version: Some(record.sdk_version.to_rust_string()),
            subcategories: split_on(sub_categories.as_str(), ','),
            class_flags: Some(record.class_flags),
        }
    }
}

impl Info {
    /// Builds the description of a module from what its factory answered:
    /// one class for each record, in the factory's order.
    pub fn from_records(factory: &FactoryRecord, classes: &ClassRecords) -> (info: Info)
        ensures
            info@ == info_of(*factory, *classes),
    {
        let factory_info = FactoryInfo::from_record(factory);
        let mut list: Vec<Class> = Vec::new();
        match classes {
            ClassRecords::Basic(records) => {
                let mut index: usize = 0;
                while index < records.len()
                    invariant
                        index <= records@.len(),
                        list@.len() == index,
                        forall|i: int|
                            0 <= i < index ==> (#[trigger] list@[i])@ == class_of(records@[i]),
                    decreases records@.len() - index,
                {
                    list.push(Class::from_record(&records[index]));
                    index += 1;
                }
                assert(list@.map_values(|c: Class| c@) =~= classes_of(*classes));
            },
            ClassRecords::Extended(records) => {
                let mut index: usize = 0;
                while index < records.len()
                    invariant
                        index <= records@.len(),
                        list@.len() == index,
                        forall|i: int|
                            0 <= i < index ==> (#[trigger] list@[i])@ == class_of2(records@[i]),
                    decreases records@.len() - index,
                {
                    list.push(Class::from_record2(&records[index]));
                    index += 1;
                }
                assert(list@.map_values(|c: Class| c@) =~= classes_of(*classes));
            },
        }
        Info { classes: list, name: None, factory_info, version: None }
    }
}

/// The path made of `base` and the segment `part` below it. A segment that
/// starts at the root stands for itself; otherwise one separator stands
/// between the two unless `base` is empty or already ends in one.
pub open spec fn join_path(base: Seq<char>, part: Seq<char>) -> Seq<char> {
    if part.len() > 0 && part[0] == '/' {
        part
    } else if base.len() == 0 || base.last() == '/' {
        base + part
    } else {
        base + seq!['/'] + part
    }
}

/// The directory of a bundle that holds the binary for the machine
/// `machine`: the machine and the platform.
pub open spec fn machine_segment(machine: Seq<char>) -> Seq<char> {
    machine + "-linux"@
}

/// The file name of the binary of the bundle `bundle`: the bundle's own
/// name without its extension, as a shared object.
pub open spec fn binary_name(bundle: Seq<char>) -> Seq<char> {
    stem_of(file_name_of(bundle)) + ".so"@
}

/// Where the binary of the bundle `bundle` stands for the machine
/// `machine`: in the directory for the machine and the platform, below the
/// directory `Contents` of the bundle.
pub open spec fn bundle_library_path(bundle: Seq<char>, machine: Seq<char>) -> Seq<char> {
    join_path(
        join_path(join_path(bundle, "Contents"@), machine_segment(machine)),
        binary_name(bundle),
    )
}

fn join(base: String, part: &str) -> (path: String)
    ensures
        path@ == join_path(base@, part@),
{
    let part_len = part.unicode_len();
    if part_len > 0 && part.get_char(0) == '/' {
        return String::from_str(part);
    }
    let base_len = base.as_str().unicode_len();
    if base_len == 0 || base.as_str().get_char(base_len - 1) == '/' {
        base.concat(part)
    } else {
        proof {
            reveal_strlit("/");
            assert("/"@ =~= seq!['/']);
        }
        base.concat("/").concat(part)
    }
}

/// The path of the binary to map for a plug-in at `bundle`: the path itself
/// where it is a single file, else the binary for `machine` inside the
/// bundle directory.
pub fn library_path(bundle: &str, is_file: bool, machine: &str) -> (path: String)
    ensures
        is_file ==> path@ == bundle@,
        !is_file ==> path@ == bundle_library_path(bundle@, machine@),
{
    if is_file {
        return String::from_str(bundle);
    }
    let segment = String::from_str(machine).concat("-linux");
    let binary = String::from_str(stem(file_name(bundle))).concat(".so");
    let directory = join(join(String::from_str(bundle), "Contents"), segment.as_str());
    join(directory, binary.as_str())
}

/// Where the description of the bundle `bundle` stands, if it has one.
pub open spec fn bundle_sidecar_path(bundle: Seq<char>) -> Seq<char> {
    join_path(bundle, "Contents/moduleinfo.json"@)
}

/// The path of the description that a bundle may hold beside its binary.
pub fn sidecar_path(bundle: &str) -> (path: String)
    ensures
        path@ == bundle_sidecar_path(bundle@),
{
    join(String::from_str(bundle), "Contents/moduleinfo.json")
}

/// One of the three entry points that a module exports.
#[derive(Copy, Clone, Debug, PartialEq, Eq, Structural)]
pub enum Symbol {
    Entry,
    Exit,
    Factory,
}

/// The name under which a module exports `symbol`.
pub open spec fn symbol_name(symbol: Symbol) -> Seq<char> {
    match symbol {
        Symbol::Entry => "ModuleEntry"@,
        Symbol::Exit => "ModuleExit"@,
        Symbol::Factory => "GetPluginFactory"@,
    }
}

impl Symbol {
    /// The name to bind this entry point by.
    pub fn name(self) -> (name: &'static str)
        ensures
            name@ == symbol_name(self),
    {
        match self {
            Symbol::Entry => "ModuleEntry",
            Symbol::Exit => "ModuleExit",
            Symbol::Factory => "GetPluginFactory",
        }
    }
}

/// How an attempt to open a module ended.
#[derive(Copy, Clone, Debug, PartialEq, Eq, Structural)]
pub enum LoadOutcome {
    /// The module is mapped, entered, and its factory is held.
    Loaded,
    /// The bundle is valid but its entry hook declined to load.
    Declined,
    /// The library could not be mapped, an entry point is missing, or the
    /// module handed out no factory.
    Failed,
}

/// What has to be given back before an attempt to open a module ends.
#[derive(Copy, Clone, Debug, PartialEq, Eq, Structural)]
pub enum Release {
    /// Nothing is held.
    Nothing,
    /// The library is mapped and was not entered: unmap it.
    Unmap,
    /// The library is mapped and entered: call its exit hook, then unmap it.
    ExitThenUnmap,
}

/// The next thing to do while opening a module.
#[derive(Copy, Clone, Debug, PartialEq, Eq, Structural)]
pub enum LoadAction {
    /// Map the library.
    MapLibrary,
    /// Bind an entry point of the mapped library.
    Bind(Symbol),
    /// Call the entry hook.
    Enter,
    /// Ask the factory accessor for the root factory.
    GetFactory,
    /// Release what `release` names and stop with `outcome`.
    Finish { release: Release, outcome: LoadOutcome },
}

/// Where the opening of a module stands: the step whose answer it waits for.
#[derive(Copy, Clone, Debug, PartialEq, Eq, Structural)]
pub enum Loader {
    Mapping,
    Binding(Symbol),
    Entering,
    FetchingFactory,
    Finished(LoadOutcome),
}

/// Whether the library is mapped while the loader is in `state`.
pub open spec fn is_mapped(state: Loader) -> bool {
    match state {
        Loader::Mapping => false,
        Loader::Binding(_) => true,
        Loader::Entering => true,
        Loader::FetchingFactory => true,
        Loader::Finished(outcome) => outcome == LoadOutcome::Loaded,
    }
}

/// The state after the pending step of `state` succeeded or failed, and
/// what to do next.
pub open spec fn load_step(state: Loader, success: bool) -> (Loader, LoadAction) {
    match state {
        Loader::Mapping => if success {
            (Loader::Binding(Symbol::Entry), LoadAction::Bind(Symbol::Entry))
        } else {
            finish(Release::Nothing, LoadOutcome::Failed)
        },
        Loader::Binding(Symbol::Entry) => if success {
            (Loader::Binding(Symbol::Exit), LoadAction::Bind(Symbol::Exit))
        } else {
            finish(Release::Unmap, LoadOutcome::Failed)
        },
        Loader::Binding(Symbol::Exit) => if success {
            (Loader::Binding(Symbol::Factory), LoadAction::Bind(Symbol::Factory))
        } else {
            finish(Release::Unmap, LoadOutcome::Failed)
        },
        Loader::Binding(Symbol::Factory) => if success {
            (Loader::Entering, LoadAction::Enter)
        } else {
            finish(Release::Unmap, LoadOutcome::Failed)
        },
        Loader::Entering => if success {
            (Loader::FetchingFactory, LoadAction::GetFactory)
        } else {
            finish(Release::Unmap, LoadOutcome::Declined)
        },
        Loader::FetchingFactory => if success {
            finish(Release::Nothing, LoadOutcome::Loaded)
        } else {
            finish(Release::ExitThenUnmap, LoadOutcome::Failed)
        },
        Loader::Finished(outcome) => finish(Release::Nothing, outcome),
    }
}

/// The last step: release, and stop with `outcome`.
pub open spec fn finish(release: Release, outcome: LoadOutcome) -> (Loader, LoadAction) {
    (Loader::Finished(outcome), LoadAction::Finish { release, outcome })
}

/// What the caller of an attempt that ended in `outcome` gets: whether a
/// module is held, or the error.
pub open spec fn load_result(outcome: LoadOutcome) -> Result<bool, Error> {
    match outcome {
        LoadOutcome::Loaded => Ok(true),
        LoadOutcome::Declined => Ok(false),
        LoadOutcome::Failed => Err(Error::Internal),
    }
}

impl LoadOutcome {
    /// What to hand to the caller: `Ok(true)` with a module, `Ok(false)`
    /// where the module declined, or the error.
    pub fn result(self) -> (result: Result<bool, Error>)
        ensures
            result == load_result(self),
    {
        match self {
            LoadOutcome::Loaded => Ok(true),
            LoadOutcome::Declined => Ok(false),
            LoadOutcome::Failed => Err(Error::Internal),
        }
    }
}

/// What a caller that needs the module gets from an attempt that ended in
/// `outcome`: a module that declined to load is an internal error too.
pub open spec fn needed_result(outcome: LoadOutcome) -> Result<(), Error> {
    match outcome {
        LoadOutcome::Loaded => Ok(()),
        LoadOutcome::Declined => Err(Error::Internal),
        LoadOutcome::Failed => Err(Error::Internal),
    }
}

impl LoadOutcome {
    /// What to hand to a caller that needs the module: success with a
    /// module, else `Error::Internal`.
    pub fn loaded(self) -> (result: Result<(), Error>)
        ensures
            result == needed_result(self),
    {
        match self {
            LoadOutcome::Loaded => Ok(()),
            LoadOutcome::Declined => Err(Error::Internal),
            LoadOutcome::Failed => Err(Error::Internal),
        }
    }
}

impl Loader {
    /// Starts to open a module: the first thing to do is to map the library.
    pub fn start() -> (begin: (Loader, LoadAction))
        ensures
            begin == (Loader::Mapping, LoadAction::MapLibrary),
    {
        (Loader::Mapping, LoadAction::MapLibrary)
    }

    /// Takes the answer to the pending step and says what to do next.
    pub fn step(&mut self, success: bool) -> (action: LoadAction)
        ensures
            (*final(self), action) == load_step(*old(self), success),
    {
        let (next, action) = match *self {
            Loader::Mapping => if success {
                (Loader::Binding(Symbol::Entry), LoadAction::Bind(Symbol::Entry))
            } else {
                Self::finish(Release::Nothing, LoadOutcome::Failed)
            },
            Loader::Binding(Symbol::Entry) => if success {
                (Loader::Binding(Symbol::Exit), LoadAction::Bind(Symbol::Exit))
            } else {
                Self::finish(Release::Unmap, LoadOutcome::Failed)
            },
            Loader::Binding(Symbol::Exit) => if success {
                (Loader::Binding(Symbol::Factory), LoadAction::Bind(Symbol::Factory))
            } else {
                Self::finish(Release::Unmap, LoadOutcome::Failed)
            },
            Loader::Binding(Symbol::Factory) => if success {
                (Loader::Entering, LoadAction::Enter)
            } else {
                Self::finish(Release::Unmap, LoadOutcome::Failed)
            },
            Loader::Entering => if success {
                (Loader::FetchingFactory, LoadAction::GetFactory)
            } else {
                Self::finish(Release::Unmap, LoadOutcome::Declined)
            },
            Loader::FetchingFactory => if success {
                Self::finish(Release::Nothing, LoadOutcome::Loaded)
            } else {
                Self::finish(Release::ExitThenUnmap, LoadOutcome::Failed)
            },
            Loader::Finished(outcome) => Self::finish(Release::Nothing, outcome),
        };
        *self = next;
        action
    }

    fn finish(release: Release, outcome: LoadOutcome) -> (end: (Loader, LoadAction))
        ensures
            end == self::finish(release, outcome),
    {
        (Loader::Finished(outcome), LoadAction::Finish { release, outcome })
    }
}

/// A loaded module, as far as its release is concerned: whether it still
/// holds its library.
#[derive(Debug)]
pub struct Module {
    open: bool,
}

impl Module {
    /// Whether the module still holds its library.
    pub closed spec fn is_open(&self) -> bool {
        self.open
    }

    /// The module that an attempt with the outcome `Loaded` leaves.
    pub fn opened() -> (module: Module)
        ensures
            module.is_open(),
    {
        Module { open: true }
    }

    /// Gives the library back. The first call on an open module asks for
    /// the exit hook and the unmapping, in that order, after the factory was
    /// released; every later call asks for nothing.
    pub fn close(&mut self) -> (release: Release)
        ensures
            !final(self).is_open(),
            old(self).is_open() ==> release == Release::ExitThenUnmap,
            !old(self).is_open() ==> release == Release::Nothing,
    {
        if self.open {
            self.open = false;
            Release::ExitThenUnmap
        } else {
            Release::Nothing
        }
    }
}

/// An attempt that ends without a loaded module leaves no library mapped:
/// where the library was mapped, the last step asks to unmap it, and to call
/// the exit hook first where the module had been entered.
pub proof fn lemma_failed_load_unmaps(state: Loader, success: bool)
    requires
        !(state is Finished),
    ensures
        ({
            let (next, action) = load_step(state, success);
            action matches LoadAction::Finish { release, outcome } ==> {
                &&& next == Loader::Finished(outcome)
                &&& (outcome != LoadOutcome::Loaded && is_mapped(state)) ==> release
                    != Release::Nothing
                &&& (outcome != LoadOutcome::Loaded && state == Loader::FetchingFactory)
                    ==> release == Release::ExitThenUnmap
                &&& outcome == LoadOutcome::Loaded ==> release == Release::Nothing
                &&& !is_mapped(state) ==> release == Release::Nothing
            }
        }),
{
}

/// No entry point fails silently: a step that binds one and fails ends the
/// attempt with `Error::Internal`.
pub proof fn lemma_missing_symbol_is_internal(symbol: Symbol)
    ensures
        load_step(Loader::Binding(symbol), false).1 == (LoadAction::Finish {
            release: Release::Unmap,
            outcome: LoadOutcome::Failed,
        }),
        load_result(LoadOutcome::Failed) == Err::<bool, Error>(Error::Internal),
{
}

} // verus!
