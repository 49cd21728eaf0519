use vst3_host::error::Error;
use vst3_host::module::info::{Class, FactoryFlags, FactoryInfo, Info, CID};
use vst3_host::plugin::{
    ClassAnswers, InstanceAction, InstanceEvent, InstanceKind, Instantiation, ScannedPlugin,
};

fn class(name: &str, category: &str, vendor: Option<&str>) -> Class {
    Class {
        cid: CID([name.len() as u8; 16]),
        name: name.to_string(),
        category: category.to_string(),
        cardinality: 0x7FFF_FFFF,
        version: Some("1.0.0".to_string()),
        vendor: vendor.map(String::from),
        sdk_version: None,
        subcategories: vec!["Fx".to_string()],
        class_flags: None,
    }
}

fn bundle(factory_vendor: &str, classes: Vec<Class>) -> ScannedPlugin {
    ScannedPlugin {
        info: Info {
            classes,
            name: Some("again".to_string()),
            factory_info: FactoryInfo {
                vendor: factory_vendor.to_string(),
                url: "http://example.org".to_string(),
                email: "mailto:info@example.org".to_string(),
                flags: FactoryFlags::from(16),
            },
            version: None,
        },
        path: "/usr/lib/vst3/again.vst3".to_string(),
    }
}

fn run(events: &[InstanceEvent]) -> (Vec<InstanceAction>, Instantiation) {
    let cid = CID([1u8; 16]);
    let (mut state, first) = Instantiation::start(cid);
    let mut actions = vec![first];
    for event in events {
        actions.push(state.step(*event));
    }
    (actions, state)
}

fn created(code: i32, object: bool) -> InstanceEvent {
    InstanceEvent::Created { code, object }
}

#[test]
fn listing_falls_back_to_the_factory_vendor() {
    let scanned = bundle("Steinberg Media Technologies", vec![class("AGain", "Audio Module Class", None)]);
    let plugins = scanned.plugins();
    assert_eq!(plugins.len(), 1);
    assert_eq!(plugins[0].vendor, "Steinberg Media Technologies");
    assert!(!plugins[0].vendor.is_empty());
    assert_eq!(plugins[0].name, "AGain");
    assert_eq!(plugins[0].version, Some("1.0.0"));
    assert_eq!(plugins[0].category, "Audio Module Class");
    assert_eq!(plugins[0].subcategories, &vec!["Fx".to_string()]);
    assert_eq!(plugins[0].path, "/usr/lib/vst3/again.vst3");
    assert_eq!(plugins[0].cid, CID([5u8; 16]));
}

#[test]
fn listing_prefers_the_vendor_of_the_class() {
    let scanned = bundle("Factory", vec![class("AGain", "Audio Module Class", Some("Acme"))]);
    assert_eq!(scanned.plugins()[0].vendor, "Acme");
    let scanned = bundle("Factory", vec![class("AGain", "Audio Module Class", Some(""))]);
    assert_eq!(scanned.plugins()[0].vendor, "");
}

#[test]
fn listing_holds_audio_modules_only() {
    let scanned = bundle(
        "Factory",
        vec![
            class("One", "Audio Module Class", None),
            class("OneController", "Component Controller Class", None),
            class("Three", "Audio Module Class", Some("Acme")),
            class("Svc", "System", None),
            class("Lower", "audio module class", None),
        ],
    );
    let plugins = scanned.plugins();
    assert_eq!(plugins.len(), 2);
    assert_eq!(plugins[0].name, "One");
    assert_eq!(plugins[0].vendor, "Factory");
    assert_eq!(plugins[1].name, "Three");
    assert_eq!(plugins[1].vendor, "Acme");
}

#[test]
fn listing_of_nothing() {
    assert!(bundle("Factory", Vec::new()).plugins().is_empty());
    assert!(bundle("Factory", vec![class("Svc", "System", None)]).plugins().is_empty());
}

#[test]
fn combined_plugin_is_never_asked_for_its_controller_class() {
    let (actions, state) = run(&[created(0, true), InstanceEvent::Queried(true), InstanceEvent::Queried(true)]);
    assert_eq!(
        actions,
        vec![
            InstanceAction::CreateComponent(CID([1u8; 16])),
            InstanceAction::QueryProcessor,
            InstanceAction::QueryController,
            InstanceAction::Finish(Ok(InstanceKind::Combined)),
        ]
    );
    assert!(!actions.contains(&InstanceAction::ReadControllerClass));
    assert_eq!(state, Instantiation::Finished(Ok(InstanceKind::Combined)));
}

#[test]
fn separate_controller_is_made_from_the_named_class() {
    let controller = CID([0xC0; 16]);
    let (actions, state) = run(&[
        created(0, true),
        InstanceEvent::Queried(true),
        InstanceEvent::Queried(false),
        InstanceEvent::ControllerClass { code: 0, cid: controller },
        created(0, true),
    ]);
    assert_eq!(
        actions,
        vec![
            InstanceAction::CreateComponent(CID([1u8; 16])),
            InstanceAction::QueryProcessor,
            InstanceAction::QueryController,
            InstanceAction::ReadControllerClass,
            InstanceAction::CreateController(controller),
            InstanceAction::Finish(Ok(InstanceKind::Separate)),
        ]
    );
    assert_eq!(state, Instantiation::Finished(Ok(InstanceKind::Separate)));
}

#[test]
fn component_that_cannot_be_made_ends_the_instantiation() {
    let (actions, _) = run(&[created(vst3::Steinberg::kNoInterface, false)]);
    assert_eq!(actions.last(), Some(&InstanceAction::Finish(Err(Error::NoInterface))));
    let (actions, _) = run(&[created(vst3::Steinberg::kOutOfMemory, true)]);
    assert_eq!(actions.last(), Some(&InstanceAction::Finish(Err(Error::OutOfMemory))));
    let (actions, _) = run(&[created(0, false)]);
    assert_eq!(actions.last(), Some(&InstanceAction::Finish(Err(Error::NoInterface))));
}

#[test]
fn component_without_a_processor_is_no_plugin() {
    let (actions, state) = run(&[created(0, true), InstanceEvent::Queried(false)]);
    assert_eq!(actions.len(), 3);
    assert_eq!(actions[2], InstanceAction::Finish(Err(Error::NoInterface)));
    assert_eq!(state, Instantiation::Finished(Err(Error::NoInterface)));
}

#[test]
fn controller_class_that_cannot_be_read_ends_the_instantiation() {
    let (actions, _) = run(&[
        created(0, true),
        InstanceEvent::Queried(true),
        InstanceEvent::Queried(false),
        InstanceEvent::ControllerClass { code: vst3::Steinberg::kNotImplemented, cid: CID([0; 16]) },
    ]);
    assert_eq!(actions.last(), Some(&InstanceAction::Finish(Err(Error::NotImplemented))));
    assert!(!actions.iter().any(|a| matches!(a, InstanceAction::CreateController(_))));
}

#[test]
fn controller_that_cannot_be_made_ends_the_instantiation() {
    let begin = [
        created(0, true),
        InstanceEvent::Queried(true),
        InstanceEvent::Queried(false),
        InstanceEvent::ControllerClass { code: 0, cid: CID([2; 16]) },
    ];
    let mut events = begin.to_vec();
    events.push(created(vst3::Steinberg::kInvalidArgument, false));
    assert_eq!(run(&events).0.last(), Some(&InstanceAction::Finish(Err(Error::InvalidArg))));
    let mut events = begin.to_vec();
    events.push(created(0, false));
    assert_eq!(run(&events).0.last(), Some(&InstanceAction::Finish(Err(Error::NoInterface))));
}

#[test]
fn answer_to_another_question_is_an_internal_error() {
    let (actions, _) = run(&[InstanceEvent::Queried(true)]);
    assert_eq!(actions.last(), Some(&InstanceAction::Finish(Err(Error::Internal))));
    let (actions, _) = run(&[created(0, true), created(0, true)]);
    assert_eq!(actions.last(), Some(&InstanceAction::Finish(Err(Error::Internal))));
    let (actions, _) = run(&[
        created(0, true),
        InstanceEvent::Queried(true),
        InstanceEvent::ControllerClass { code: 0, cid: CID([2; 16]) },
    ]);
    assert_eq!(actions.last(), Some(&InstanceAction::Finish(Err(Error::Internal))));
}

#[test]
fn finished_instantiation_stays_finished() {
    let (actions, state) = run(&[
        created(0, true),
        InstanceEvent::Queried(true),
        InstanceEvent::Queried(true),
        InstanceEvent::Queried(false),
        created(4, false),
    ]);
    assert_eq!(actions[4], InstanceAction::Finish(Ok(InstanceKind::Combined)));
    assert_eq!(actions[5], InstanceAction::Finish(Ok(InstanceKind::Combined)));
    assert_eq!(state, Instantiation::Finished(Ok(InstanceKind::Combined)));
}

fn answers(is_controller: bool) -> ClassAnswers {
    ClassAnswers {
        component: (0, true),
        is_processor: true,
        is_controller,
        controller_class: (0, CID([0xC0; 16])),
        controller: (0, true),
    }
}

#[test]
fn combined_class_is_instantiated_with_one_object() {
    let scanned = bundle("Factory", vec![class("AGain", "Audio Module Class", None)]);
    let plugins = scanned.plugins();
    let instance = plugins[0].create_instance(&answers(true));
    assert_eq!(instance.result, Ok(InstanceKind::Combined));
    assert_eq!(
        instance.actions,
        vec![
            InstanceAction::CreateComponent(plugins[0].cid),
            InstanceAction::QueryProcessor,
            InstanceAction::QueryController,
            InstanceAction::Finish(Ok(InstanceKind::Combined)),
        ]
    );
    // Whatever the component would say of its controller, it is not asked.
    let mut unreadable = answers(true);
    unreadable.controller_class = (vst3::Steinberg::kInternalError, CID([0; 16]));
    unreadable.controller = (vst3::Steinberg::kInternalError, false);
    assert_eq!(plugins[0].create_instance(&unreadable), instance);
}

#[test]
fn separate_class_is_instantiated_with_the_named_controller() {
    let scanned = bundle("Factory", vec![class("AGain", "Audio Module Class", None)]);
    let plugins = scanned.plugins();
    let instance = plugins[0].create_instance(&answers(false));
    assert_eq!(instance.result, Ok(InstanceKind::Separate));
    assert_eq!(
        instance.actions,
        vec![
            InstanceAction::CreateComponent(plugins[0].cid),
            InstanceAction::QueryProcessor,
            InstanceAction::QueryController,
            InstanceAction::ReadControllerClass,
            InstanceAction::CreateController(CID([0xC0; 16])),
            InstanceAction::Finish(Ok(InstanceKind::Separate)),
        ]
    );
}

#[test]
fn instantiation_ends_with_the_first_error() {
    let scanned = bundle("Factory", vec![class("AGain", "Audio Module Class", None)]);
    let plugins = scanned.plugins();
    let plugin = &plugins[0];

    let mut class = answers(false);
    class.component = (vst3::Steinberg::kOutOfMemory, false);
    let instance = plugin.create_instance(&class);
    assert_eq!(instance.result, Err(Error::OutOfMemory));
    assert_eq!(instance.actions.len(), 2);

    let mut class = answers(false);
    class.component = (0, false);
    assert_eq!(plugin.create_instance(&class).result, Err(Error::NoInterface));

    let mut class = answers(true);
    class.is_processor = false;
    let instance = plugin.create_instance(&class);
    assert_eq!(instance.result, Err(Error::NoInterface));
    assert_eq!(instance.actions.len(), 3);

    let mut class = answers(false);
    class.controller_class = (vst3::Steinberg::kNotImplemented, CID([0; 16]));
    let instance = plugin.create_instance(&class);
    assert_eq!(instance.result, Err(Error::NotImplemented));
    assert_eq!(instance.actions.len(), 5);
    assert!(!instance.actions.iter().any(|a| matches!(a, InstanceAction::CreateController(_))));

    let mut class = answers(false);
    class.controller = (vst3::Steinberg::kInvalidArgument, false);
    let instance = plugin.create_instance(&class);
    assert_eq!(instance.result, Err(Error::InvalidArg));
    assert_eq!(instance.actions.len(), 6);

    let mut class = answers(false);
    class.controller = (0, false);
    assert_eq!(plugin.create_instance(&class).result, Err(Error::NoInterface));
}
