//! The plug-ins that a scanned bundle offers, and the steps that turn one of
//! them into a processor and its controller.

use crate::error::{code_result, Error, ToResultExt};
use crate::module::info::{audio_module_category, CID, Class, ClassView, Info};
use crate::util::{stem, stem_of, str_eq, texts};
use vstd::prelude::*;
use vstd::string::*;

verus! {

/// A bundle that was scanned: what it says about itself, and where it is.
#[derive(Debug, Clone)]
pub struct ScannedPlugin {
    pub info: Info,
    pub path: String,
}

/// One plug-in of a scanned bundle, as a host lists it.
#[derive(Debug)]
pub struct Plugin<'a> {
    /// The vendor of the plug-in.
    pub vendor: &'a str,
    /// The name of the plug-in.
    pub name: &'a str,
    /// The version of the plug-in, where it is known.
    pub version: Option<&'a str>,
    /// The category of the plug-in's class.
    pub category: &'a str,
    /// The subcategories that the plug-in is listed under.
    pub subcategories: &'a Vec<String>,
    /// The path of the bundle.
    pub path: &'a str,
    /// The class to instantiate.
    pub cid: CID,
}

/// A listed plug-in as plain values.
pub struct PluginView {
    pub vendor: Seq<char>,
    pub name: Seq<char>,
    pub version: Option<Seq<char>>,
    pub category: Seq<char>,
    pub subcategories: Seq<Seq<char>>,
    pub path: Seq<char>,
    pub cid: Seq<u8>,
}

impl<'a> View for Plugin<'a> {
    type V = PluginView;

    open spec fn view(&self) -> PluginView {
        PluginView {
            vendor: self.vendor@,
            name: self.name@,
            version: match self.version {
                Some(v) => Some(v@),
                None => None,
            },
            category: self.category@,
            subcategories: texts(self.subcategories@),
            path: self.path@,
            cid: self.cid@,
        }
    }
}

/// Whether a class is one that a host lists as a plug-in.
pub open spec fn is_audio_module(class: ClassView) -> bool {
    class.category == audio_module_category()
}

/// The listing of `class`, which belongs to the bundle at `path`. A class
/// that names no vendor is listed under the vendor of its factory.
pub open spec fn plugin_of(class: ClassView, factory_vendor: Seq<char>, path: Seq<char>)
    -> PluginView {
    PluginView {
        vendor: match class.vendor {
            Some(vendor) => vendor,
            None => factory_vendor,
        },
        name: class.name,
        version: class.version,
        category: class.category,
        subcategories: class.subcategories,
        path,
        cid: class.cid,
    }
}

/// The listings of the audio module classes among `classes`, in order.
pub open spec fn plugins_of(classes: Seq<ClassView>, factory_vendor: Seq<char>, path: Seq<char>)
    -> Seq<PluginView>
    decreases classes.len(),
{
    if classes.len() == 0 {
        Seq::empty()
    } else if is_audio_module(classes.last()) {
        plugins_of(classes.drop_last(), factory_vendor, path).push(
            plugin_of(classes.last(), factory_vendor, path),
        )
    } else {
        plugins_of(classes.drop_last(), factory_vendor, path)
    }
}

/// The views of a list of plug-ins.
pub open spec fn plugin_views(plugins: Seq<Plugin<'_>>) -> Seq<PluginView> {
    plugins.map_values(|p: Plugin<'_>| p@)
}

/// What to do to scan a path.
#[derive(Copy, Clone, Debug, PartialEq, Eq, Structural)]
pub enum ScanPlan {
    /// Open the binary and ask its factory.
    Library,
    /// Read the description beside the binary; the binary stays closed.
    Sidecar,
    /// There is nothing to scan.
    Nothing,
}

/// How a path is scanned: a single file through its binary; a directory
/// through the description that it holds, or through its binary where it
/// holds none; anything else not at all.
pub open spec fn scan_plan_of(is_file: bool, is_dir: bool, has_sidecar: bool) -> ScanPlan {
    if is_file {
        ScanPlan::Library
    } else if is_dir {
        if has_sidecar {
            ScanPlan::Sidecar
        } else {
            ScanPlan::Library
        }
    } else {
        ScanPlan::Nothing
    }
}

/// Says how to scan a path that is a file or not, a directory or not, and
/// holds a description or not.
pub fn scan_plan(is_file: bool, is_dir: bool, has_sidecar: bool) -> (plan: ScanPlan)
    ensures
        plan == scan_plan_of(is_file, is_dir, has_sidecar),
{
    if is_file {
        ScanPlan::Library
    } else if is_dir {
        if has_sidecar {
            ScanPlan::Sidecar
        } else {
            ScanPlan::Library
        }
    } else {
        ScanPlan::Nothing
    }
}

/// The name of a bundle: the one that its description gives, else the
/// stem of its file name.
pub open spec fn bundle_name(name: Option<Seq<char>>, file_name: Seq<char>) -> Seq<char> {
    match name {
        Some(name) => name,
        None => stem_of(file_name),
    }
}

impl ScannedPlugin {
    /// The bundle at `path` that describes itself as `info`.
    pub fn new(info: Info, path: String) -> (scanned: ScannedPlugin)
        ensures
            scanned.info == info,
            scanned.path == path,
    {
        ScannedPlugin { info, path }
    }

    /// The name of the bundle, whose path ends in the file name
    /// `file_name`.
    pub fn name(&self, file_name: &str) -> (name: String)
        ensures
            name@ == bundle_name(self.info@.name, file_name@),
    {
        match &self.info.name {
            Some(name) => name.clone(),
            None => String::from_str(stem(file_name)),
        }
    }

    /// The plug-ins of the bundle: one for each class of the category
    /// "Audio Module Class", in the order of the classes.
    pub fn plugins(&self) -> (list: Vec<Plugin<'_>>)
        ensures
            plugin_views(list@) == plugins_of(
                self.info@.classes,
                self.info@.factory_info.vendor,
                self.path@,
            ),
    {
        let mut list: Vec<Plugin<'_>> = Vec::new();
        let mut index: usize = 0;
        let ghost classes = self.info@.classes;
        let ghost vendor = self.info@.factory_info.vendor;
        while index < self.info.classes.len()
            invariant
                index <= self.info.classes@.len(),
                classes == self.info@.classes,
                vendor == self.info@.factory_info.vendor,
                plugin_views(list@) == plugins_of(classes.take(index as int), vendor, self.path@),
            decreases self.info.classes@.len() - index,
        {
            let class = &self.info.classes[index];
            proof {
                let next = classes.take(index + 1);
                assert(next.drop_last() =~= classes.take(index as int));
                assert(next.last() == class@);
            }
            if str_eq(class.category.as_str(), "Audio Module Class") {
                let plugin = Plugin {
                    vendor: match &class.vendor {
                        Some(vendor) => vendor.as_str(),
                        None => self.info.factory_info.vendor.as_str(),
                    },
                    name: class.name.as_str(),
                    version: match &class.version {
                        Some(version) => Some(version.as_str()),
                        None => None,
                    },
                    category: class.category.as_str(),
                    subcategories: &class.subcategories,
                    path: self.path.as_str(),
                    cid: class.cid,
                };
                proof {
                    assert(plugin@ == plugin_of(class@, vendor, self.path@));
                    assert(plugin_views(list@.push(plugin)) =~= plugin_views(list@).push(plugin@));
                }
                list.push(plugin);
            }
            index += 1;
        }
        proof {
            assert(classes.take(index as int) =~= classes);
        }
        list
    }
}

/// A class that names no vendor is listed under the vendor of its factory,
/// whatever that is, and a class that names one is listed under its own.
pub proof fn lemma_listed_vendor(class: ClassView, factory_vendor: Seq<char>, path: Seq<char>)
    ensures
        class.vendor is None ==> plugin_of(class, factory_vendor, path).vendor == factory_vendor,
        class.vendor matches Some(v) ==> plugin_of(class, factory_vendor, path).vendor == v,
{
}

/// How the controller of an instance came to be.
#[derive(Copy, Clone, Debug, PartialEq, Eq, Structural)]
pub enum InstanceKind {
    /// The component is its own controller.
    Combined,
    /// The controller is an object of its own, of the class that the
    /// component names.
    Separate,
}

/// The next thing to do while a plug-in is instantiated.
#[derive(Copy, Clone, Debug, PartialEq, Eq)]
pub enum InstanceAction {
    /// Ask the factory for a component of this class.
    CreateComponent(CID),
    /// Ask the component whether it is an audio processor.
    QueryProcessor,
    /// Ask the component whether it is a controller too.
    QueryController,
    /// Ask the component for the class of its controller.
    ReadControllerClass,
    /// Ask the same factory for a controller of this class.
    CreateController(CID),
    /// Stop. With an error, every object made so far is released and no
    /// instance is handed out.
    Finish(Result<InstanceKind, Error>),
}

/// An action as plain values.
pub enum InstanceActionView {
    CreateComponent(Seq<u8>),
    QueryProcessor,
    QueryController,
    ReadControllerClass,
    CreateController(Seq<u8>),
    Finish(Result<InstanceKind, Error>),
}

impl View for InstanceAction {
    type V = InstanceActionView;

    open spec fn view(&self) -> InstanceActionView {
        match self {
            InstanceAction::CreateComponent(cid) => InstanceActionView::CreateComponent(cid@),
            InstanceAction::QueryProcessor => InstanceActionView::QueryProcessor,
            InstanceAction::QueryController => InstanceActionView::QueryController,
            InstanceAction::ReadControllerClass => InstanceActionView::ReadControllerClass,
            InstanceAction::CreateController(cid) => InstanceActionView::CreateController(cid@),
            InstanceAction::Finish(result) => InstanceActionView::Finish(*result),
        }
    }
}

/// What came back from the last action.
#[derive(Copy, Clone, Debug, PartialEq, Eq)]
pub enum InstanceEvent {
    /// The factory answered a request for an object with `code`, and
    /// handed out an object or none.
    Created { code: i32, object: bool },
    /// The component has the capability that was asked for, or has not.
    Queried(bool),
    /// The component answered the question for its controller's class with
    /// `code` and this class.
    ControllerClass { code: i32, cid: CID },
}

/// An event as plain values.
pub enum InstanceEventView {
    Created { code: i32, object: bool },
    Queried(bool),
    ControllerClass { code: i32, cid: Seq<u8> },
}

impl View for InstanceEvent {
    type V = InstanceEventView;

    open spec fn view(&self) -> InstanceEventView {
        match self {
            InstanceEvent::Created { code, object } => InstanceEventView::Created {
                code: *code,
                object: *object,
            },
            InstanceEvent::Queried(present) => InstanceEventView::Queried(*present),
            InstanceEvent::ControllerClass { code, cid } => InstanceEventView::ControllerClass {
                code: *code,
                cid: cid@,
            },
        }
    }
}

/// Where the instantiation of a plug-in stands: the action whose answer it
/// waits for.
#[derive(Copy, Clone, Debug, PartialEq, Eq)]
pub enum Instantiation {
    CreatingComponent,
    QueryingProcessor,
    QueryingController,
    ReadingControllerClass,
    CreatingController,
    Finished(Result<InstanceKind, Error>),
}

/// The end of an instantiation with `result`.
pub open spec fn finished(result: Result<InstanceKind, Error>) -> (
    Instantiation,
    InstanceActionView,
) {
    (Instantiation::Finished(result), InstanceActionView::Finish(result))
}

/// What a request for an object gave: the error of its code, or
/// `Error::NoInterface` where the code is fine and no object came back.
pub open spec fn created_error(code: i32, object: bool) -> Option<Error> {
    match code_result(code) {
        Err(e) => Some(e),
        Ok(_) => if object {
            None
        } else {
            Some(Error::NoInterface)
        },
    }
}

/// The state after `event` came back in `state`, and what to do next. An
/// event that does not answer the pending action ends the instantiation
/// with `Error::Internal`.
pub open spec fn instance_step(state: Instantiation, event: InstanceEventView) -> (
    Instantiation,
    InstanceActionView,
) {
    match (state, event) {
        (Instantiation::CreatingComponent, InstanceEventView::Created { code, object }) => {
            match created_error(code, object) {
                Some(e) => finished(Err(e)),
                None => (Instantiation::QueryingProcessor, InstanceActionView::QueryProcessor),
            }
        },
        (Instantiation::QueryingProcessor, InstanceEventView::Queried(present)) => {
            if present {
                (Instantiation::QueryingController, InstanceActionView::QueryController)
            } else {
                finished(Err(Error::NoInterface))
            }
        },
        (Instantiation::QueryingController, InstanceEventView::Queried(present)) => {
            if present {
                finished(Ok(InstanceKind::Combined))
            } else {
                (Instantiation::ReadingControllerClass, InstanceActionView::ReadControllerClass)
            }
        },
        (
            Instantiation::ReadingControllerClass,
            InstanceEventView::ControllerClass { code, cid },
        ) => {
            match code_result(code) {
                Err(e) => finished(Err(e)),
                Ok(_) => (
                    Instantiation::CreatingController,
                    InstanceActionView::CreateController(cid),
                ),
            }
        },
        (Instantiation::CreatingController, InstanceEventView::Created { code, object }) => {
            match created_error(code, object) {
                Some(e) => finished(Err(e)),
                None => finished(Ok(InstanceKind::Separate)),
            }
        },
        (Instantiation::Finished(result), _) => finished(result),
        (_, _) => finished(Err(Error::Internal)),
    }
}

fn check_created(code: i32, object: bool) -> (error: Option<Error>)
    ensures
        error == created_error(code, object),
{
    match code.as_result() {
        Err(e) => Some(e),
        Ok(_) => if object {
            None
        } else {
            Some(Error::NoInterface)
        },
    }
}

impl Instantiation {
    /// Starts to instantiate the class `cid`: the first thing to do is to
    /// ask the factory for its component.
    pub fn start(cid: CID) -> (begin: (Instantiation, InstanceAction))
        ensures
            begin.0 == Instantiation::CreatingComponent,
            begin.1@ == InstanceActionView::CreateComponent(cid@),
    {
        (Instantiation::CreatingComponent, InstanceAction::CreateComponent(cid))
    }

    /// Takes what came back from the pending action and says what to do
    /// next.
    pub fn step(&mut self, event: InstanceEvent) -> (action: InstanceAction)
        ensures
            (*final(self), action@) == instance_step(*old(self), event@),
    {
        let (next, action) = match (*self, event) {
            (Instantiation::CreatingComponent, InstanceEvent::Created { code, object }) => {
                match check_created(code, object) {
                    Some(e) => Self::finish(Err(e)),
                    None => (Instantiation::QueryingProcessor, InstanceAction::QueryProcessor),
                }
            },
            (Instantiation::QueryingProcessor, InstanceEvent::Queried(present)) => {
                if present {
                    (Instantiation::QueryingController, InstanceAction::QueryController)
                } else {
                    Self::finish(Err(Error::NoInterface))
                }
            },
            (Instantiation::QueryingController, InstanceEvent::Queried(present)) => {
                if present {
                    Self::finish(Ok(InstanceKind::Combined))
                } else {
                    (Instantiation::ReadingControllerClass, InstanceAction::ReadControllerClass)
                }
            },
            (
                Instantiation::ReadingControllerClass,
                InstanceEvent::ControllerClass { code, cid },
            ) => {
                match code.as_result() {
                    Err(e) => Self::finish(Err(e)),
                    Ok(_) => (
                        Instantiation::CreatingController,
                        InstanceAction::CreateController(cid),
                    ),
                }
            },
            (Instantiation::CreatingController, InstanceEvent::Created { code, object }) => {
                match check_created(code, object) {
                    Some(e) => Self::finish(Err(e)),
                    None => Self::finish(Ok(InstanceKind::Separate)),
                }
            },
            (Instantiation::Finished(result), _) => Self::finish(result),
            (_, _) => Self::finish(Err(Error::Internal)),
        };
        *self = next;
        action
    }

    fn finish(result: Result<InstanceKind, Error>) -> (end: (Instantiation, InstanceAction))
        ensures
            end.0 == Instantiation::Finished(result),
            end.1@ == InstanceActionView::Finish(result),
    {
        (Instantiation::Finished(result), InstanceAction::Finish(result))
    }
}

/// What a class does when it is instantiated: how its factory and its
/// component answer.
pub struct ClassBehavior {
    /// The code of the factory's answer to the request for the component,
    /// and whether a component comes with it.
    pub component: (i32, bool),
    /// Whether the component is an audio processor.
    pub is_processor: bool,
    /// Whether the component is a controller too.
    pub is_controller: bool,
    /// The code of the component's answer to the question for the class of
    /// its controller, and that class.
    pub controller_class: (i32, Seq<u8>),
    /// The code of the factory's answer to the request for the controller,
    /// and whether a controller comes with it.
    pub controller: (i32, bool),
}

/// What comes back from `action` for a class that behaves as `class`. The
/// last action has no answer; it is given one so that the function is
/// total.
pub open spec fn answer_of(class: ClassBehavior, action: InstanceActionView) -> InstanceEventView {
    match action {
        InstanceActionView::CreateComponent(_) => InstanceEventView::Created {
            code: class.component.0,
            object: class.component.1,
        },
        InstanceActionView::QueryProcessor => InstanceEventView::Queried(class.is_processor),
        InstanceActionView::QueryController => InstanceEventView::Queried(class.is_controller),
        InstanceActionView::ReadControllerClass => InstanceEventView::ControllerClass {
            code: class.controller_class.0,
            cid: class.controller_class.1,
        },
        InstanceActionView::CreateController(_) => InstanceEventView::Created {
            code: class.controller.0,
            object: class.controller.1,
        },
        InstanceActionView::Finish(_) => InstanceEventView::Queried(false),
    }
}

/// The actions taken from `action` on, in order and up to the last one,
/// when each is answered as `class` behaves; at most `steps` of them after
/// the first.
pub open spec fn actions_from(
    class: ClassBehavior,
    state: Instantiation,
    action: InstanceActionView,
    steps: nat,
) -> Seq<InstanceActionView>
    decreases steps,
{
    if steps == 0 || action is Finish {
        seq![action]
    } else {
        let (next, then) = instance_step(state, answer_of(class, action));
        seq![action] + actions_from(class, next, then, (steps - 1) as nat)
    }
}

/// The actions that instantiate the class `cid` when it behaves as
/// `class`. Five answers are always enough.
pub open spec fn actions_of(class: ClassBehavior, cid: Seq<u8>) -> Seq<InstanceActionView> {
    actions_from(
        class,
        Instantiation::CreatingComponent,
        InstanceActionView::CreateComponent(cid),
        5,
    )
}

/// Whether the component of a class is made and is an audio processor, so
/// that the question for its controller is reached.
pub open spec fn reaches_controller(class: ClassBehavior) -> bool {
    created_error(class.component.0, class.component.1) is None && class.is_processor
}

/// The combined plug-in wins. Where the component is a controller itself,
/// the class of its controller is never asked for and no second object is
/// made; where it is not, that class is always asked for, and the class that
/// the component names is the one that is made.
pub proof fn lemma_combined_takes_precedence(class: ClassBehavior, cid: Seq<u8>)
    requires
        reaches_controller(class),
    ensures
        actions_of(class, cid).last() is Finish,
        class.is_controller ==> {
            &&& actions_of(class, cid) == seq![
                InstanceActionView::CreateComponent(cid),
                InstanceActionView::QueryProcessor,
                InstanceActionView::QueryController,
                InstanceActionView::Finish(Ok(InstanceKind::Combined)),
            ]
            &&& !actions_of(class, cid).contains(InstanceActionView::ReadControllerClass)
        },
        !class.is_controller ==> {
            &&& actions_of(class, cid).contains(InstanceActionView::ReadControllerClass)
            &&& actions_of(class, cid)[3] == InstanceActionView::ReadControllerClass
            &&& code_result(class.controller_class.0) is Ok ==> actions_of(class, cid)[4]
                == InstanceActionView::CreateController(class.controller_class.1)
            &&& code_result(class.controller_class.0) matches Err(e) ==> actions_of(class, cid)[4]
                == InstanceActionView::Finish(Err(e))
        },
{
    reveal_with_fuel(actions_from, 6);
    let actions = actions_of(class, cid);
    if class.is_controller {
        let expected = seq![
            InstanceActionView::CreateComponent(cid),
            InstanceActionView::QueryProcessor,
            InstanceActionView::QueryController,
            InstanceActionView::Finish(Ok(InstanceKind::Combined)),
        ];
        assert(actions =~= expected);
    } else {
        assert(actions[3] == InstanceActionView::ReadControllerClass);
    }
}

/// No partial instance: an instantiation ends with an instance only after
/// the component was made and is a processor, and either is a controller
/// too or named a controller that was made.
pub proof fn lemma_instance_is_complete(class: ClassBehavior, cid: Seq<u8>)
    ensures
        actions_of(class, cid).last() matches InstanceActionView::Finish(result) && (result
            matches Ok(kind) ==> {
            &&& reaches_controller(class)
            &&& kind == InstanceKind::Combined <==> class.is_controller
            &&& kind == InstanceKind::Separate ==> code_result(class.controller_class.0) is Ok
                && created_error(class.controller.0, class.controller.1) is None
        }),
{
    reveal_with_fuel(actions_from, 6);
}

/// How an instantiation ends for a class that behaves as `class`: with the
/// first error on its way, or with an instance whose controller is the
/// component itself where the component is a controller, and an object of
/// its own where it is not.
pub open spec fn instance_result(class: ClassBehavior) -> Result<InstanceKind, Error> {
    match created_error(class.component.0, class.component.1) {
        Some(e) => Err(e),
        None => if !class.is_processor {
            Err(Error::NoInterface)
        } else if class.is_controller {
            Ok(InstanceKind::Combined)
        } else {
            match code_result(class.controller_class.0) {
                Err(e) => Err(e),
                Ok(_) => match created_error(class.controller.0, class.controller.1) {
                    Some(e) => Err(e),
                    None => Ok(InstanceKind::Separate),
                },
            }
        },
    }
}

/// The actions of an instantiation end with `instance_result`.
pub proof fn lemma_instance_result(class: ClassBehavior, cid: Seq<u8>)
    ensures
        actions_of(class, cid).last() == InstanceActionView::Finish(instance_result(class)),
{
    reveal_with_fuel(actions_from, 6);
}

/// How a class answers when it is instantiated: the codes and objects that
/// its factory and its component hand back.
#[derive(Copy, Clone, Debug, PartialEq, Eq)]
pub struct ClassAnswers {
    /// The code of the factory's answer to the request for the component,
    /// and whether a component comes with it.
    pub component: (i32, bool),
    /// Whether the component is an audio processor.
    pub is_processor: bool,
    /// Whether the component is a controller too.
    pub is_controller: bool,
    /// The code of the component's answer to the question for the class of
    /// its controller, and that class.
    pub controller_class: (i32, CID),
    /// The code of the factory's answer to the request for the controller,
    /// and whether a controller comes with it.
    pub controller: (i32, bool),
}

impl View for ClassAnswers {
    type V = ClassBehavior;

    open spec fn view(&self) -> ClassBehavior {
        ClassBehavior {
            component: self.component,
            is_processor: self.is_processor,
            is_controller: self.is_controller,
            controller_class: (self.controller_class.0, self.controller_class.1@),
            controller: self.controller,
        }
    }
}

/// What an instantiation asked for, in order, and how it ended.
#[derive(Debug, PartialEq, Eq)]
pub struct Instance {
    pub actions: Vec<InstanceAction>,
    pub result: Result<InstanceKind, Error>,
}

/// The views of a list of actions.
pub open spec fn action_views(actions: Seq<InstanceAction>) -> Seq<InstanceActionView> {
    actions.map_values(|a: InstanceAction| a@)
}

fn answer(class: &ClassAnswers, action: InstanceAction) -> (event: InstanceEvent)
    ensures
        event@ == answer_of(class@, action@),
{
    match action {
        InstanceAction::CreateComponent(_) => InstanceEvent::Created {
            code: class.component.0,
            object: class.component.1,
        },
        InstanceAction::QueryProcessor => InstanceEvent::Queried(class.is_processor),
        InstanceAction::QueryController => InstanceEvent::Queried(class.is_controller),
        InstanceAction::ReadControllerClass => InstanceEvent::ControllerClass {
            code: class.controller_class.0,
            cid: class.controller_class.1,
        },
        InstanceAction::CreateController(_) => InstanceEvent::Created {
            code: class.controller.0,
            object: class.controller.1,
        },
        InstanceAction::Finish(_) => InstanceEvent::Queried(false),
    }
}

fn is_finish(action: &InstanceAction) -> (finish: bool)
    ensures
        finish == (action@ is Finish),
{
    match action {
        InstanceAction::Finish(_) => true,
        _ => false,
    }
}

impl<'a> Plugin<'a> {
    /// Instantiates this plug-in from a class that answers as `class`, and
    /// says what was asked for and how it ended.
    ///
    /// The factory is asked for the component once. A component that is a
    /// processor and a controller ends the instantiation: the class of its
    /// controller is never asked for and no second object is made. A
    /// component that is a processor and no controller is asked for the
    /// class of its controller once, and the factory is then asked once for
    /// a controller of exactly that class.
    pub fn create_instance(&self, class: &ClassAnswers) -> (instance: Instance)
        ensures
            action_views(instance.actions@) == actions_of(class@, self.cid@),
            instance.result == instance_result(class@),
            action_views(instance.actions@).last() == InstanceActionView::Finish(instance.result),
            reaches_controller(class@) && class.is_controller ==> {
                &&& instance.result == Ok::<InstanceKind, Error>(InstanceKind::Combined)
                &&& action_views(instance.actions@) == seq![
                    InstanceActionView::CreateComponent(self.cid@),
                    InstanceActionView::QueryProcessor,
                    InstanceActionView::QueryController,
                    InstanceActionView::Finish(Ok(InstanceKind::Combined)),
                ]
            },
            reaches_controller(class@) && !class.is_controller && code_result(
                class.controller_class.0,
            ) is Ok ==> action_views(instance.actions@) == seq![
                InstanceActionView::CreateComponent(self.cid@),
                InstanceActionView::QueryProcessor,
                InstanceActionView::QueryController,
                InstanceActionView::ReadControllerClass,
                InstanceActionView::CreateController(class.controller_class.1@),
                InstanceActionView::Finish(instance.result),
            ],
            reaches_controller(class@) && !class.is_controller && code_result(
                class.controller_class.0,
            ) is Err ==> action_views(instance.actions@) == seq![
                InstanceActionView::CreateComponent(self.cid@),
                InstanceActionView::QueryProcessor,
                InstanceActionView::QueryController,
                InstanceActionView::ReadControllerClass,
                InstanceActionView::Finish(instance.result),
            ],
    {
        let (mut state, mut action) = Instantiation::start(self.cid);
        let mut actions: Vec<InstanceAction> = Vec::new();
        let mut steps: usize = 5;
        proof {
            assert(action_views(actions@) + actions_from(class@, state, action@, 5)
                =~= actions_of(class@, self.cid@));
        }
        while steps > 0 && !is_finish(&action)
            invariant
                steps <= 5,
                action_views(actions@) + actions_from(class@, state, action@, steps as nat)
                    == actions_of(class@, self.cid@),
            decreases steps,
        {
            let ghost before = actions@;
            let ghost pending = action@;
            let ghost rest = actions_from(class@, state, action@, steps as nat);
            let event = answer(class, action);
            actions.push(action);
            action = state.step(event);
            steps -= 1;
            proof {
                assert(rest == seq![pending] + actions_from(class@, state, action@, steps as nat));
                assert(action_views(actions@) =~= action_views(before).push(pending));
                assert(action_views(actions@) + actions_from(class@, state, action@, steps as nat)
                    =~= action_views(before) + rest);
            }
        }
        let ghost before = actions@;
        actions.push(action);
        proof {
            assert(actions_from(class@, state, action@, steps as nat) == seq![action@]);
            assert(action_views(actions@) =~= action_views(before) + seq![action@]);
            lemma_instance_result(class@, self.cid@);
            reveal_with_fuel(actions_from, 6);
        }
        let result = match action {
            InstanceAction::Finish(result) => result,
            _ => Err(Error::Internal),
        };
        Instance { actions, result }
    }
}

} // verus!
