//! What a module says about itself: its factory and the classes it exposes.

use crate::error::Error;
use crate::util::{class_id_of_text, is_class_id_text, parse_class_id, str_eq, texts, ClassId};
use vstd::prelude::*;
use vstd::std_specs::convert::FromSpecImpl;
use vstd::string::*;

verus! {

/// Bit of the factory flags: the classes may change while the module is loaded.
pub const CLASSES_DISCARDABLE: i32 = 1;

/// Bit of the factory flags: the module asks for a license check.
pub const LICENSE_CHECK: i32 = 2;

/// Bit of the factory flags: components stay alive once created.
pub const COMPONENT_NON_DISCARDABLE: i32 = 8;

/// Bit of the factory flags: the module speaks Unicode.
pub const UNICODE: i32 = 16;

/// The category of the classes that a host can instantiate as plug-ins.
pub open spec fn audio_module_category() -> Seq<char> {
    "Audio Module Class"@
}

/// The category of the classes that are stand-alone controllers.
pub open spec fn component_controller_category() -> Seq<char> {
    "Component Controller Class"@
}

/// The category of service classes.
pub open spec fn service_category() -> Seq<char> {
    "System"@
}

/// The description of a module: its classes and its factory.
#[derive(Debug, Clone)]
pub struct Info {
    pub classes: Vec<Class>,
    pub name: Option<String>,
    pub factory_info: FactoryInfo,
    pub version: Option<String>,
}

/// The description of one class of a module.
#[derive(Debug, Clone)]
pub struct Class {
    pub cid: CID,
    pub name: String,
    pub category: String,
    pub cardinality: i32,
    pub version: Option<String>,
    pub vendor: Option<String>,
    pub sdk_version: Option<String>,
    pub subcategories: Vec<String>,
    pub class_flags: Option<u32>,
}

/// A class identifier.
#[derive(Debug, Copy, Clone, PartialEq, Eq)]
pub struct CID(pub ClassId);

/// What a module's factory says about its vendor.
#[derive(Debug, Clone)]
pub struct FactoryInfo {
    pub vendor: String,
    pub url: String,
    pub email: String,
    pub flags: FactoryFlags,
}

/// The flags of a module's factory.
#[derive(Debug, Copy, Clone)]
pub struct FactoryFlags {
    pub unicode: bool,
    pub classes_discardable: bool,
    pub component_non_discardable: bool,
    pub license_check: bool,
}

/// The kind of a class, as its category names it.
#[derive(Debug, Clone)]
pub enum ControllerClass {
    ComponentController,
    AudioModule,
    Service,
    Other(String),
}

/// The text held by an optional string.
pub open spec fn option_text(text: Option<String>) -> Option<Seq<char>> {
    match text {
        Some(s) => Some(s@),
        None => None,
    }
}

/// A class description as plain values.
pub struct ClassView {
    pub cid: Seq<u8>,
    pub name: Seq<char>,
    pub category: Seq<char>,
    pub cardinality: i32,
    pub version: Option<Seq<char>>,
    pub vendor: Option<Seq<char>>,
    pub sdk_version: Option<Seq<char>>,
    pub subcategories: Seq<Seq<char>>,
    pub class_flags: Option<u32>,
}

/// A factory description as plain values.
pub struct FactoryInfoView {
    pub vendor: Seq<char>,
    pub url: Seq<char>,
    pub email: Seq<char>,
    pub flags: FactoryFlags,
}

/// A module description as plain values.
pub struct InfoView {
    pub classes: Seq<ClassView>,
    pub name: Option<Seq<char>>,
    pub factory_info: FactoryInfoView,
    pub version: Option<Seq<char>>,
}

/// A class kind as plain values.
pub enum ControllerClassView {
    ComponentController,
    AudioModule,
    Service,
    Other(Seq<char>),
}

impl View for CID {
    type V = Seq<u8>;

    open spec fn view(&self) -> Seq<u8> {
        self.0@
    }
}

impl View for Class {
    type V = ClassView;

    open spec fn view(&self) -> ClassView {
        ClassView {
            cid: self.cid@,
            name: self.name@,
            category: self.category@,
            cardinality: self.cardinality,
            version: option_text(self.version),
            vendor: option_text(self.vendor),
            sdk_version: option_text(self.sdk_version),
            subcategories: texts(self.subcategories@),
            class_flags: self.class_flags,
        }
    }
}

impl View for FactoryInfo {
    type V = FactoryInfoView;

    open spec fn view(&self) -> FactoryInfoView {
        FactoryInfoView {
            vendor: self.vendor@,
            url: self.url@,
            email: self.email@,
            flags: self.flags,
        }
    }
}

impl View for Info {
    type V = InfoView;

    open spec fn view(&self) -> InfoView {
        InfoView {
            classes: self.classes@.map_values(|c: Class| c@),
            name: option_text(self.name),
            factory_info: self.factory_info@,
            version: option_text(self.version),
        }
    }
}

impl View for ControllerClass {
    type V = ControllerClassView;

    open spec fn view(&self) -> ControllerClassView {
        match self {
            ControllerClass::ComponentController => ControllerClassView::ComponentController,
            ControllerClass::AudioModule => ControllerClassView::AudioModule,
            ControllerClass::Service => ControllerClassView::Service,
            ControllerClass::Other(other) => ControllerClassView::Other(other@),
        }
    }
}

impl CID {
    /// Reads a class identifier from its text form of 32 hexadecimal digits.
    pub fn from_str(s: &str) -> (result: Result<CID, Error>)
        ensures
            is_class_id_text(s@) ==> (result matches Ok(cid) && cid@ == class_id_of_text(s@)),
            !is_class_id_text(s@) ==> (result matches Err(e) && e == Error::InvalidArg),
    {
        match parse_class_id(s) {
            Ok(cid) => Ok(CID(cid)),
            Err(e) => Err(e),
        }
    }
}

/// The flags that a factory's flag word stands for: a field is set exactly
/// where the bit of its name is set in the word.
pub open spec fn factory_flags_of(value: i32) -> FactoryFlags {
    FactoryFlags {
        unicode: value & UNICODE != 0,
        classes_discardable: value & CLASSES_DISCARDABLE != 0,
        component_non_discardable: value & COMPONENT_NON_DISCARDABLE != 0,
        license_check: value & LICENSE_CHECK != 0,
    }
}

impl From<i32> for FactoryFlags {
    fn from(value: i32) -> (flags: FactoryFlags) {
        let unicode = (value & UNICODE) != 0;
        let classes_discardable = (value & CLASSES_DISCARDABLE) != 0;
        let component_non_discardable = (value & COMPONENT_NON_DISCARDABLE) != 0;
        let license_check = (value & LICENSE_CHECK) != 0;
        FactoryFlags { unicode, classes_discardable, component_non_discardable, license_check }
    }
}

impl FromSpecImpl<i32> for FactoryFlags {
    open spec fn obeys_from_spec() -> bool {
        true
    }

    open spec fn from_spec(value: i32) -> FactoryFlags {
        factory_flags_of(value)
    }
}

/// The kind that the category text `s` names.
pub open spec fn controller_class_of(s: Seq<char>) -> ControllerClassView {
    if s == component_controller_category() {
        ControllerClassView::ComponentController
    } else if s == audio_module_category() {
        ControllerClassView::AudioModule
    } else if s == service_category() {
        ControllerClassView::Service
    } else {
        ControllerClassView::Other(s)
    }
}

/// The category text that names `class`.
pub open spec fn controller_class_text(class: ControllerClassView) -> Seq<char> {
    match class {
        ControllerClassView::ComponentController => component_controller_category(),
        ControllerClassView::AudioModule => audio_module_category(),
        ControllerClassView::Service => service_category(),
        ControllerClassView::Other(other) => other,
    }
}

impl ControllerClass {
    /// Reads the kind of a class from its category text. Every text names a
    /// kind: the ones that are not known are kept as they are.
    pub fn from_str(s: &str) -> (result: Result<ControllerClass, Error>)
        ensures
            result matches Ok(class) && class@ == controller_class_of(s@),
    {
        if str_eq(s, "Component Controller Class") {
            Ok(ControllerClass::ComponentController)
        } else if str_eq(s, "Audio Module Class") {
            Ok(ControllerClass::AudioModule)
        } else if str_eq(s, "System") {
            Ok(ControllerClass::Service)
        } else {
            Ok(ControllerClass::Other(String::from_str(s)))
        }
    }

    /// The category text that names this kind.
    pub fn to_string(&self) -> (text: String)
        ensures
            text@ == controller_class_text(self@),
    {
        match self {
            ControllerClass::ComponentController => String::from_str("Component Controller Class"),
            ControllerClass::AudioModule => String::from_str("Audio Module Class"),
            ControllerClass::Service => String::from_str("System"),
            ControllerClass::Other(other) => other.clone(),
        }
    }
}

/// Reading back the text of a kind gives the kind.
pub proof fn lemma_controller_class_round_trip(s: Seq<char>)
    ensures
        controller_class_text(controller_class_of(s)) == s,
{
}

} // verus!
