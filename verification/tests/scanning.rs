use vst3_host::error::Error;
use vst3_host::host::Builder;
use vst3_host::module::info::{Class, FactoryFlags, FactoryInfo, Info, CID};
use vst3_host::module::{sidecar_path, LoadOutcome};
use vst3_host::plugin::{scan_plan, ScanPlan, ScannedPlugin};
use vst3_host::util::stem;
use vst3_host::run_loop::{Handler, RunLoop};

fn bundle(path: &str, name: Option<&str>) -> ScannedPlugin {
    ScannedPlugin::new(
        Info {
            classes: vec![Class {
                cid: CID([0u8; 16]),
                name: path.to_string(),
                category: "Audio Module Class".to_string(),
                cardinality: 0,
                version: None,
                vendor: None,
                sdk_version: None,
                subcategories: Vec::new(),
                class_flags: None,
            }],
            name: name.map(String::from),
            factory_info: FactoryInfo {
                vendor: "Vendor".to_string(),
                url: String::new(),
                email: String::new(),
                flags: FactoryFlags::from(0),
            },
            version: None,
        },
        path.to_string(),
    )
}

fn paths_of(host: &vst3_host::host::Host) -> Vec<String> {
    host.plugins().iter().map(|p| p.path.to_string()).collect()
}

#[test]
fn scan_plan_for_files_and_directories() {
    assert_eq!(scan_plan(true, false, false), ScanPlan::Library);
    assert_eq!(scan_plan(true, false, true), ScanPlan::Library);
    assert_eq!(scan_plan(false, true, true), ScanPlan::Sidecar);
    assert_eq!(scan_plan(false, true, false), ScanPlan::Library);
    assert_eq!(scan_plan(false, false, false), ScanPlan::Nothing);
    assert_eq!(scan_plan(false, false, true), ScanPlan::Nothing);
    assert_eq!(scan_plan(true, true, true), ScanPlan::Library);
}

#[test]
fn sidecar_stands_inside_the_bundle() {
    assert_eq!(
        sidecar_path("/usr/lib/vst3/again.vst3"),
        "/usr/lib/vst3/again.vst3/Contents/moduleinfo.json"
    );
    assert_eq!(sidecar_path("again.vst3/"), "again.vst3/Contents/moduleinfo.json");
    for bundle in ["/a/b.vst3", "b.vst3", "", "/"] {
        let expected = std::path::Path::new(bundle).join("Contents/moduleinfo.json");
        assert_eq!(sidecar_path(bundle), expected.to_str().unwrap());
    }
}

#[test]
fn needed_module_must_be_loaded() {
    assert_eq!(LoadOutcome::Loaded.loaded(), Ok(()));
    assert_eq!(LoadOutcome::Declined.loaded(), Err(Error::Internal));
    assert_eq!(LoadOutcome::Failed.loaded(), Err(Error::Internal));
}

#[test]
fn stem_is_what_stands_before_the_extension() {
    assert_eq!(stem("again.vst3"), "again");
    assert_eq!(stem("again.tar.gz"), "again.tar");
    assert_eq!(stem("again"), "again");
    assert_eq!(stem(".vst3"), ".vst3");
    assert_eq!(stem(".."), "..");
    assert_eq!(stem("again."), "again");
    assert_eq!(stem(""), "");
    for name in ["again.vst3", "again", ".vst3", "a.", "a.b.c", ".a.b", "a..b", "\u{e9}.\u{e8}"] {
        let expected = std::path::Path::new(name).file_stem().unwrap().to_str().unwrap();
        assert_eq!(stem(name), expected, "{}", name);
    }
}

#[test]
fn bundle_is_named_by_its_description_or_its_file() {
    assert_eq!(bundle("/a/again.vst3", Some("AGain")).name("again.vst3"), "AGain");
    assert_eq!(bundle("/a/again.vst3", None).name("again.vst3"), "again");
    assert_eq!(bundle("/a/again", None).name("again"), "again");
    assert_eq!(bundle("/a/again.vst3", Some("")).name("again.vst3"), "");
}

#[test]
fn scan_without_a_bundle_is_false() {
    let mut host = Builder::new().build(Vec::new());
    assert_eq!(host.scan(None), Err(Error::False));
    assert!(host.plugins().is_empty());
    assert_eq!(host.scan(Some(bundle("/b", None))), Ok(()));
    assert_eq!(host.scan(None), Err(Error::False));
    assert_eq!(paths_of(&host), vec!["/b"]);
}

#[test]
fn scan_keeps_the_bundles_in_the_order_of_their_paths() {
    let mut host = Builder::new().build(Vec::new());
    for path in ["/m/one.vst3", "/a/two.vst3", "/z.vst3", "/m/a.vst3", "/a/two.vst3", "/a"] {
        assert_eq!(host.scan(Some(bundle(path, None))), Ok(()));
    }
    assert_eq!(
        paths_of(&host),
        vec!["/a", "/a/two.vst3", "/a/two.vst3", "/m/a.vst3", "/m/one.vst3", "/z.vst3"]
    );
}

#[test]
fn scan_orders_as_strings_do() {
    let names = ["b", "a", "", "ab", "B", "\u{e9}", "a\u{0}", "aa", "z", "\u{1f3b5}", "a"];
    let mut host = Builder::new().build(Vec::new());
    for name in names {
        assert_eq!(host.scan(Some(bundle(name, None))), Ok(()));
    }
    let mut expected: Vec<String> = names.iter().map(|n| n.to_string()).collect();
    expected.sort();
    assert_eq!(paths_of(&host), expected);
}

#[test]
fn scan_sorts_what_a_search_found() {
    let mut host = Builder::new().build(Vec::new());
    let mut walk = host.rescan_plugins();
    walk.add(bundle("/c", None));
    walk.add(bundle("/a", None));
    host.finish_rescan(walk);
    assert_eq!(paths_of(&host), vec!["/c", "/a"]);
    assert_eq!(host.scan(Some(bundle("/b", None))), Ok(()));
    assert_eq!(paths_of(&host), vec!["/a", "/b", "/c"]);
}

#[test]
fn listeners_are_removed_by_descriptor() {
    let mut run_loop = RunLoop::new();
    run_loop.register_event_handler(1, 5);
    run_loop.register_timer(2, 6);
    run_loop.register_event_handler(3, 5);
    run_loop.register_event_handler(4, 7);
    run_loop.remove_listeners(&vec![5, 9, 6]);
    assert_eq!(run_loop.poll_set(), vec![5, 7]);
    assert!(!run_loop.is_registered(Handler::Event(1)));
    assert!(run_loop.is_registered(Handler::Event(3)));
    assert!(!run_loop.is_registered(Handler::Timer(2)));
    run_loop.remove_listeners(&vec![5, 5, 7, 7]);
    assert!(run_loop.poll_set().is_empty());
    run_loop.remove_listeners(&Vec::new());
    assert!(run_loop.poll_set().is_empty());
}

#[test]
fn registered_handlers_are_known() {
    let mut run_loop = RunLoop::new();
    assert!(!run_loop.is_registered(Handler::Event(1)));
    run_loop.register_event_handler(1, 5);
    assert!(run_loop.is_registered(Handler::Event(1)));
    assert!(!run_loop.is_registered(Handler::Timer(1)));
    run_loop.register_timer(1, 6);
    assert!(run_loop.is_registered(Handler::Timer(1)));
    run_loop.unregister_event_handler(1);
    assert!(!run_loop.is_registered(Handler::Event(1)));
    assert!(run_loop.is_registered(Handler::Timer(1)));
}
