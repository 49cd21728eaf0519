use vst3_host::host::{Builder, Host, Platform};
use vst3_host::util::extension;
use vst3_host::module::info::{Class, FactoryFlags, FactoryInfo, Info, CID};
use vst3_host::plugin::ScannedPlugin;

fn bundle(path: &str, names: &[&str]) -> ScannedPlugin {
    ScannedPlugin {
        info: Info {
            classes: names
                .iter()
                .map(|name| Class {
                    cid: CID([0u8; 16]),
                    name: name.to_string(),
                    category: "Audio Module Class".to_string(),
                    cardinality: 0,
                    version: None,
                    vendor: None,
                    sdk_version: None,
                    subcategories: Vec::new(),
                    class_flags: None,
                })
                .collect(),
            name: None,
            factory_info: FactoryInfo {
                vendor: "Vendor".to_string(),
                url: String::new(),
                email: String::new(),
                flags: FactoryFlags::from(0),
            },
            version: None,
        },
        path: path.to_string(),
    }
}

fn strings(paths: &[&str]) -> Vec<String> {
    paths.iter().map(|p| p.to_string()).collect()
}

#[test]
fn builder_defaults() {
    let host = Builder::new().build(strings(&["/usr/lib/vst3"]));
    assert_eq!(host.name(), "");
    assert_eq!(host.search_paths(), &strings(&["/usr/lib/vst3"]));
    assert!(host.plugins().is_empty());
    let host = Builder::default().build(Vec::new());
    assert_eq!(host.name(), "");
    assert!(host.search_paths().is_empty());
    let host = Host::builder().build(strings(&["/a"]));
    assert_eq!(host.search_paths(), &strings(&["/a"]));
}

#[test]
fn builder_sets_the_name() {
    let host = Builder::new().with_name("my VST3 host").build(Vec::new());
    assert_eq!(host.name(), "my VST3 host");
    let host = Builder::new().with_name("first").with_name("second").build(Vec::new());
    assert_eq!(host.name(), "second");
}

#[test]
fn builder_appends_search_paths_after_the_defaults() {
    let host = Builder::new()
        .with_search_path("/opt/vst3")
        .with_search_paths(strings(&["/a", "/b"]))
        .with_search_path("/c")
        .build(strings(&["/home/me/.vst3", "/usr/lib/vst3"]));
    assert_eq!(
        host.search_paths(),
        &strings(&["/home/me/.vst3", "/usr/lib/vst3", "/opt/vst3", "/a", "/b", "/c"])
    );
}

#[test]
fn builder_can_switch_the_defaults_off() {
    let host = Builder::new()
        .with_default_search_paths(false)
        .with_search_path("/opt/vst3")
        .build(strings(&["/usr/lib/vst3"]));
    assert_eq!(host.search_paths(), &strings(&["/opt/vst3"]));
    let host = Builder::new()
        .with_default_search_paths(false)
        .with_default_search_paths(true)
        .build(strings(&["/usr/lib/vst3"]));
    assert_eq!(host.search_paths(), &strings(&["/usr/lib/vst3"]));
}

#[test]
fn default_search_paths_on_linux() {
    assert_eq!(
        Host::default_search_paths(Platform::Linux, Some("/home/me")),
        strings(&["/home/me/.vst3", "/usr/lib/vst3", "/usr/local/lib/vst3"])
    );
    assert_eq!(
        Host::default_search_paths(Platform::Linux, Some("/home/me/")),
        strings(&["/home/me/.vst3", "/usr/lib/vst3", "/usr/local/lib/vst3"])
    );
    assert_eq!(
        Host::default_search_paths(Platform::Linux, None),
        strings(&["/usr/lib/vst3", "/usr/local/lib/vst3"])
    );
}

#[test]
fn default_search_paths_on_other_platforms() {
    assert_eq!(
        Host::default_search_paths(Platform::MacOs, Some("me")),
        strings(&[
            "/Users/me/Library/Audio/Plug-ins/VST3",
            "/Library/Audio/Plug-ins/VST3",
            "/Network/Library/Audio/Plug-ins/VST3"
        ])
    );
    assert_eq!(
        Host::default_search_paths(Platform::Windows, Some("C:\\Users\\me\\AppData\\Local")),
        strings(&[
            "C:\\Users\\me\\AppData\\Local\\Programs/Common/VST3",
            "/Program Files/Common Files/VST3",
            "/Program Files (x86)/Common Files/VST3"
        ])
    );
    assert_eq!(Host::default_search_paths(Platform::Windows, None).len(), 2);
    assert!(Host::default_search_paths(Platform::Other, Some("/home/me")).is_empty());
}

#[test]
fn default_search_paths_agree_with_std() {
    for home in ["/home/me", "/home/me/", "/", "relative"] {
        let expected = std::path::PathBuf::from(home).join(".vst3");
        assert_eq!(
            Host::default_search_paths(Platform::Linux, Some(home))[0],
            expected.to_str().unwrap()
        );
    }
}

#[test]
fn extension_is_what_follows_the_last_dot() {
    assert_eq!(extension("again.vst3"), Some("vst3"));
    assert_eq!(extension("again.tar.gz"), Some("gz"));
    assert_eq!(extension("again"), None);
    assert_eq!(extension(""), None);
    assert_eq!(extension(".vst3"), None);
    assert_eq!(extension(".."), None);
    assert_eq!(extension("..."), Some(""));
    assert_eq!(extension("..vst3"), Some("vst3"));
    assert_eq!(extension("again."), Some(""));
    assert_eq!(extension(".hidden.vst3"), Some("vst3"));
}

#[test]
fn extension_agrees_with_std() {
    for name in [
        "again.vst3", "again", ".vst3", "..", "...", "..a", "a.", "a.b.c", ".a.b", "a..b", "\u{e9}.\u{e8}",
    ] {
        let expected = std::path::Path::new(name).extension().map(|e| e.to_str().unwrap());
        assert_eq!(extension(name), expected, "{}", name);
    }
}

#[test]
fn walk_reads_the_last_directory_first() {
    let host = Builder::new()
        .with_default_search_paths(false)
        .with_search_paths(strings(&["/a", "/b"]))
        .build(Vec::new());
    let mut walk = host.rescan_plugins();
    assert_eq!(walk.next_directory().as_deref(), Some("/b"));
    assert_eq!(walk.next_directory().as_deref(), Some("/a"));
    assert_eq!(walk.next_directory(), None);
    assert_eq!(walk.next_directory(), None);
}

#[test]
fn walk_scans_bundles_and_descends_into_directories() {
    let host = Builder::new().with_default_search_paths(false).with_search_path("/a").build(Vec::new());
    let mut walk = host.rescan_plugins();
    assert_eq!(walk.next_directory().as_deref(), Some("/a"));
    // A bundle directory is scanned and read later.
    assert!(walk.visit("/a/again.vst3", Some("vst3"), true));
    // A legacy single file is scanned and not read.
    assert!(walk.visit("/a/legacy.vst3", Some("vst3"), false));
    // Other entries are not scanned.
    assert!(!walk.visit("/a/readme.txt", Some("txt"), false));
    assert!(!walk.visit("/a/UPPER.VST3", Some("VST3"), false));
    assert!(!walk.visit("/a/sub", None, true));
    assert!(!walk.visit("/a/file", None, false));
    assert_eq!(walk.next_directory().as_deref(), Some("/a/sub"));
    assert_eq!(walk.next_directory().as_deref(), Some("/a/again.vst3"));
    assert_eq!(walk.next_directory(), None);
}

#[test]
fn rescan_replaces_what_was_found() {
    let mut host = Builder::new().with_search_path("/a").build(Vec::new());
    let mut walk = host.rescan_plugins();
    walk.add(bundle("/a/one.vst3", &["One"]));
    walk.add(bundle("/a/two.vst3", &["TwoA", "TwoB"]));
    host.finish_rescan(walk);
    let names: Vec<String> = host.plugins().iter().map(|p| p.name.to_string()).collect();
    assert_eq!(names, vec!["One", "TwoA", "TwoB"]);
    let paths: Vec<String> = host.plugins().iter().map(|p| p.path.to_string()).collect();
    assert_eq!(paths, vec!["/a/one.vst3", "/a/two.vst3", "/a/two.vst3"]);

    let mut walk = host.rescan_plugins();
    walk.add(bundle("/a/three.vst3", &["Three"]));
    host.finish_rescan(walk);
    let names: Vec<String> = host.plugins().iter().map(|p| p.name.to_string()).collect();
    assert_eq!(names, vec!["Three"]);
}

#[test]
fn reset_search_paths_keeps_what_was_found() {
    let mut host = Builder::new().with_name("host").with_search_path("/a").build(Vec::new());
    let mut walk = host.rescan_plugins();
    walk.add(bundle("/a/one.vst3", &["One"]));
    host.finish_rescan(walk);
    host.reset_search_paths(strings(&["/x", "/y"]));
    assert_eq!(host.search_paths(), &strings(&["/x", "/y"]));
    assert_eq!(host.name(), "host");
    assert_eq!(host.plugins().len(), 1);
}
