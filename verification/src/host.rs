//! The host: its name, where it looks for plug-ins, and what it found.

use crate::error::Error;
use crate::module::info::option_text;
use crate::plugin::{plugin_views, plugins_of, Plugin, PluginView, ScannedPlugin};
use crate::util::{str_eq, texts};
use vstd::prelude::*;
use vstd::string::*;

verus! {

/// The platform that a host runs on, as far as its search paths go.
#[derive(Copy, Clone, Debug, PartialEq, Eq, Structural)]
pub enum Platform {
    MacOs,
    Linux,
    Windows,
    Other,
}

/// Collects the settings of a host before it is made.
#[derive(Debug)]
pub struct Builder {
    name: Option<String>,
    default_search_paths: bool,
    search_paths: Vec<String>,
}

/// The settings of a builder as plain values.
pub struct BuilderView {
    pub name: Option<Seq<char>>,
    pub default_search_paths: bool,
    pub search_paths: Seq<Seq<char>>,
}

impl View for Builder {
    type V = BuilderView;

    closed spec fn view(&self) -> BuilderView {
        BuilderView {
            name: option_text(self.name),
            default_search_paths: self.default_search_paths,
            search_paths: texts(self.search_paths@),
        }
    }
}

impl Default for Builder {
    /// No name, the default search paths switched on, no further path.
    fn default() -> (builder: Builder)
        ensures
            builder@ == (BuilderView {
                name: None,
                default_search_paths: true,
                search_paths: Seq::empty(),
            }),
    {
        let builder = Builder { name: None, default_search_paths: true, search_paths: Vec::new() };
        assert(builder@.search_paths =~= Seq::<Seq<char>>::empty());
        builder
    }
}

/// A host: the name that it reports to its plug-ins, the directories that
/// it searches, and the bundles that it found.
#[derive(Debug)]
pub struct Host {
    name: String,
    search_paths: Vec<String>,
    scanned: Vec<ScannedPlugin>,
}

/// The name that a host without a name reports: the empty one.
pub open spec fn host_name(name: Option<Seq<char>>) -> Seq<char> {
    match name {
        Some(name) => name,
        None => Seq::empty(),
    }
}

/// The directories that a host searches: the default ones first where they
/// are switched on, then those that were added, in their order.
pub open spec fn host_search_paths(builder: BuilderView, defaults: Seq<Seq<char>>) -> Seq<
    Seq<char>,
> {
    if builder.default_search_paths {
        defaults + builder.search_paths
    } else {
        builder.search_paths
    }
}

impl Builder {
    /// A builder with the default settings.
    pub fn new() -> (builder: Builder)
        ensures
            builder@ == (BuilderView {
                name: None,
                default_search_paths: true,
                search_paths: Seq::empty(),
            }),
    {
        Builder::default()
    }

    /// Sets the name that the host reports to its plug-ins.
    pub fn with_name(self, name: &str) -> (builder: Builder)
        ensures
            builder@ == (BuilderView { name: Some(name@), ..self@ }),
    {
        let mut builder = self;
        builder.name = Some(String::from_str(name));
        builder
    }

    /// Switches the default search paths on or off.
    pub fn with_default_search_paths(self, enable: bool) -> (builder: Builder)
        ensures
            builder@ == (BuilderView { default_search_paths: enable, ..self@ }),
    {
        let mut builder = self;
        builder.default_search_paths = enable;
        builder
    }

    /// Adds one directory after those that were added before.
    pub fn with_search_path(self, path: &str) -> (builder: Builder)
        ensures
            builder@ == (BuilderView { search_paths: self@.search_paths.push(path@), ..self@ }),
    {
        let ghost before = self.search_paths@;
        let mut builder = self;
        let path = String::from_str(path);
        builder.search_paths.push(path);
        assert(texts(before.push(path)) =~= texts(before).push(path@));
        builder
    }

    /// Adds the directories of `paths`, in their order, after those that
    /// were added before.
    pub fn with_search_paths(self, paths: Vec<String>) -> (builder: Builder)
        ensures
            builder@ == (BuilderView {
                search_paths: self@.search_paths + texts(paths@),
                ..self@
            }),
    {
        let ghost before = self.search_paths@;
        let ghost added = paths@;
        let mut builder = self;
        let mut paths = paths;
        builder.search_paths.append(&mut paths);
        assert(texts(before + added) =~= texts(before) + texts(added));
        builder
    }

    /// Makes the host. `defaults` are the default search paths of the
    /// platform. Nothing is scanned yet.
    pub fn build(self, defaults: Vec<String>) -> (host: Host)
        ensures
            host.spec_name() == host_name(self@.name),
            host.spec_search_paths() == host_search_paths(self@, texts(defaults@)),
            host.scanned() == Seq::<ScannedPlugin>::empty(),
    {
        let name = match self.name {
            Some(name) => name,
            None => String::new(),
        };
        let mut search_paths = if self.default_search_paths {
            defaults
        } else {
            Vec::new()
        };
        let ghost first = search_paths@;
        let mut added = self.search_paths;
        let ghost second = added@;
        search_paths.append(&mut added);
        assert(texts(first + second) =~= texts(first) + texts(second));
        assert(Seq::<Seq<char>>::empty() + texts(second) =~= texts(second));
        assert(texts(Seq::<String>::empty()) =~= Seq::<Seq<char>>::empty());
        Host { name, search_paths, scanned: Vec::new() }
    }
}

/// The path made of `base` and the relative segment `part` below it, with
/// the separator `sep` between them unless `base` is empty or ends in a
/// separator already.
pub open spec fn join_with(base: Seq<char>, part: Seq<char>, sep: char) -> Seq<char> {
    if base.len() == 0 || base.last() == sep || base.last() == '/' {
        base + part
    } else {
        base + seq![sep] + part
    }
}

/// The directories in which plug-ins are installed by convention: the one
/// of the user first, where the user's directory `user_dir` is known, then
/// those of the system. On macOS `user_dir` is the user's name, on Linux
/// the home directory, on Windows the directory of local application data.
pub open spec fn default_paths(platform: Platform, user_dir: Option<Seq<char>>) -> Seq<Seq<char>> {
    match platform {
        Platform::MacOs => user_paths(
            user_dir,
            "/Users"@,
            "Library/Audio/Plug-ins/VST3"@,
            '/',
        ) + seq!["/Library/Audio/Plug-ins/VST3"@, "/Network/Library/Audio/Plug-ins/VST3"@],
        Platform::Linux => user_paths(user_dir, Seq::empty(), ".vst3"@, '/') + seq![
            "/usr/lib/vst3"@,
            "/usr/local/lib/vst3"@,
        ],
        Platform::Windows => user_paths(
            user_dir,
            Seq::empty(),
            "Programs/Common/VST3"@,
            '\\',
        ) + seq![
            "/Program Files/Common Files/VST3"@,
            "/Program Files (x86)/Common Files/VST3"@,
        ],
        Platform::Other => Seq::empty(),
    }
}

/// The user's plug-in directory as a list: `root`, the user's directory and
/// `part` joined, or nothing where the user's directory is not known.
pub open spec fn user_paths(
    user_dir: Option<Seq<char>>,
    root: Seq<char>,
    part: Seq<char>,
    sep: char,
) -> Seq<Seq<char>> {
    match user_dir {
        Some(dir) => seq![join_with(join_with(root, dir, sep), part, sep)],
        None => Seq::empty(),
    }
}

fn join(base: String, part: &str, sep: char) -> (path: String)
    requires
        sep == '/' || sep == '\\',
    ensures
        path@ == join_with(base@, part@, sep),
{
    let base_len = base.as_str().unicode_len();
    if base_len == 0 {
        return base.concat(part);
    }
    let last = base.as_str().get_char(base_len - 1);
    if last == sep || last == '/' {
        base.concat(part)
    } else {
        proof {
            reveal_strlit("/");
            reveal_strlit("\\");
            assert("/"@ =~= seq!['/']);
            assert("\\"@ =~= seq!['\\']);
        }
        if sep == '/' {
            base.concat("/").concat(part)
        } else {
            base.concat("\\").concat(part)
        }
    }
}

fn push_user_path(
    paths: &mut Vec<String>,
    user_dir: Option<&str>,
    root: &str,
    part: &str,
    sep: char,
)
    requires
        sep == '/' || sep == '\\',
    ensures
        texts(final(paths)@) == texts(old(paths)@) + user_paths(
            match user_dir {
                Some(dir) => Some(dir@),
                None => None,
            },
            root@,
            part@,
            sep,
        ),
{
    let ghost before = paths@;
    match user_dir {
        Some(dir) => {
            let path = join(join(String::from_str(root), dir, sep), part, sep);
            paths.push(path);
            assert(texts(before.push(path)) =~= texts(before) + seq![path@]);
        },
        None => {
            assert(texts(before) + Seq::<Seq<char>>::empty() =~= texts(before));
        },
    }
}

fn push_path(paths: &mut Vec<String>, path: &str)
    ensures
        texts(final(paths)@) == texts(old(paths)@).push(path@),
{
    let ghost before = paths@;
    let path = String::from_str(path);
    paths.push(path);
    assert(texts(before.push(path)) =~= texts(before).push(path@));
}

/// Whether an entry of a searched directory is scanned as a plug-in: the
/// ones whose extension is `vst3`.
pub open spec fn is_plugin_entry(extension: Option<Seq<char>>) -> bool {
    extension == Some("vst3"@)
}

/// The search for plug-ins below the search paths: the directories that are
/// still to be read, the one read next being the last, and the bundles
/// found so far.
pub struct Walk {
    stack: Vec<String>,
    found: Vec<ScannedPlugin>,
}

impl Walk {
    /// The directories that are still to be read. The last one is read
    /// next.
    pub closed spec fn pending(&self) -> Seq<Seq<char>> {
        texts(self.stack@)
    }

    /// The bundles found so far, in the order in which they were found.
    pub closed spec fn found(&self) -> Seq<ScannedPlugin> {
        self.found@
    }

    /// The next directory to read, if one is left; it is no longer pending.
    pub fn next_directory(&mut self) -> (directory: Option<String>)
        ensures
            final(self).found() == old(self).found(),
            old(self).pending().len() == 0 ==> (directory is None && final(self).pending() == old(
                self).pending()),
            old(self).pending().len() > 0 ==> (directory matches Some(d) && d@ == old(
                self).pending().last() && final(self).pending() == old(self).pending().drop_last()),
    {
        let ghost before = self.stack@;
        let directory = self.stack.pop();
        proof {
            if before.len() > 0 {
                assert(texts(before.drop_last()) =~= texts(before).drop_last());
            }
        }
        directory
    }

    /// Takes note of an entry of a directory that was read, and answers
    /// whether the entry is to be scanned as a plug-in. An entry that is a
    /// directory is read later, also where it is scanned.
    pub fn visit(&mut self, path: &str, extension: Option<&str>, is_dir: bool) -> (scan: bool)
        ensures
            final(self).found() == old(self).found(),
            scan == is_plugin_entry(
                match extension {
                    Some(e) => Some(e@),
                    None => None,
                },
            ),
            is_dir ==> final(self).pending() == old(self).pending().push(path@),
            !is_dir ==> final(self).pending() == old(self).pending(),
    {
        let scan = match extension {
            Some(ext) => str_eq(ext, "vst3"),
            None => false,
        };
        if is_dir {
            let ghost before = self.stack@;
            let path = String::from_str(path);
            self.stack.push(path);
            assert(texts(before.push(path)) =~= texts(before).push(path@));
        }
        scan
    }

    /// Adds a bundle that a scan found.
    pub fn add(&mut self, plugin: ScannedPlugin)
        ensures
            final(self).found() == old(self).found().push(plugin),
            final(self).pending() == old(self).pending(),
    {
        self.found.push(plugin);
    }
}

/// The plug-ins of the bundles `scanned`, bundle by bundle.
pub open spec fn all_plugins(scanned: Seq<ScannedPlugin>) -> Seq<PluginView>
    decreases scanned.len(),
{
    if scanned.len() == 0 {
        Seq::empty()
    } else {
        all_plugins(scanned.drop_last()) + plugins_of(
            scanned.last().info@.classes,
            scanned.last().info@.factory_info.vendor,
            scanned.last().path@,
        )
    }
}

impl Host {
    /// The name that the host reports to its plug-ins.
    pub closed spec fn spec_name(&self) -> Seq<char> {
        self.name@
    }

    /// The directories that the host searches.
    pub closed spec fn spec_search_paths(&self) -> Seq<Seq<char>> {
        texts(self.search_paths@)
    }

    /// The bundles that the host found.
    pub closed spec fn scanned(&self) -> Seq<ScannedPlugin> {
        self.scanned@
    }

    /// A builder with the default settings.
    pub fn builder() -> (builder: Builder)
        ensures
            builder@ == (BuilderView {
                name: None,
                default_search_paths: true,
                search_paths: Seq::empty(),
            }),
    {
        Builder::new()
    }

    /// The name that the host reports to its plug-ins.
    pub fn name(&self) -> (name: &str)
        ensures
            name@ == self.spec_name(),
    {
        self.name.as_str()
    }

    /// The directories that the host searches.
    pub fn search_paths(&self) -> (paths: &Vec<String>)
        ensures
            texts(paths@) == self.spec_search_paths(),
    {
        &self.search_paths
    }

    /// The directories in which plug-ins are installed by convention on
    /// `platform`, for the user whose directory is `user_dir`.
    pub fn default_search_paths(platform: Platform, user_dir: Option<&str>) -> (paths: Vec<String>)
        ensures
            texts(paths@) == default_paths(
                platform,
                match user_dir {
                    Some(dir) => Some(dir@),
                    None => None,
                },
            ),
    {
        let mut paths: Vec<String> = Vec::new();
        assert(texts(paths@) =~= Seq::<Seq<char>>::empty());
        match platform {
            Platform::MacOs => {
                push_user_path(&mut paths, user_dir, "/Users", "Library/Audio/Plug-ins/VST3", '/');
                push_path(&mut paths, "/Library/Audio/Plug-ins/VST3");
                push_path(&mut paths, "/Network/Library/Audio/Plug-ins/VST3");
            },
            Platform::Linux => {
                proof {
                    reveal_strlit("");
                    assert(""@ =~= Seq::<char>::empty());
                }
                push_user_path(&mut paths, user_dir, "", ".vst3", '/');
                push_path(&mut paths, "/usr/lib/vst3");
                push_path(&mut paths, "/usr/local/lib/vst3");
            },
            Platform::Windows => {
                proof {
                    reveal_strlit("");
                    assert(""@ =~= Seq::<char>::empty());
                }
                push_user_path(&mut paths, user_dir, "", "Programs/Common/VST3", '\\');
                push_path(&mut paths, "/Program Files/Common Files/VST3");
                push_path(&mut paths, "/Program Files (x86)/Common Files/VST3");
            },
            Platform::Other => {},
        }
        assert(texts(paths@) =~= default_paths(
            platform,
            match user_dir {
                Some(dir) => Some(dir@),
                None => None,
            },
        ));
        paths
    }

    /// Replaces the directories that the host searches. What was found
    /// stays.
    pub fn reset_search_paths(&mut self, paths: Vec<String>)
        ensures
            final(self).spec_search_paths() == texts(paths@),
            final(self).spec_name() == old(self).spec_name(),
            final(self).scanned() == old(self).scanned(),
    {
        self.search_paths = paths;
    }

    /// Starts a new search below the search paths: they are all pending,
    /// and nothing is found yet.
    pub fn rescan_plugins(&self) -> (walk: Walk)
        ensures
            walk.pending() == self.spec_search_paths(),
            walk.found() == Seq::<ScannedPlugin>::empty(),
    {
        Walk { stack: self.search_paths.clone(), found: Vec::new() }
    }

    /// Ends a search: what it found replaces what the host had found
    /// before.
    pub fn finish_rescan(&mut self, walk: Walk)
        ensures
            final(self).scanned() == walk.found(),
            final(self).spec_name() == old(self).spec_name(),
            final(self).spec_search_paths() == old(self).spec_search_paths(),
    {
        self.scanned = walk.found;
    }

    /// The plug-ins of all bundles that the host found, bundle by bundle.
    pub fn plugins(&self) -> (list: Vec<Plugin<'_>>)
        ensures
            plugin_views(list@) == all_plugins(self.scanned()),
    {
        let mut list: Vec<Plugin<'_>> = Vec::new();
        let mut index: usize = 0;
        assert(plugin_views(list@) =~= all_plugins(self.scanned@.take(0)));
        while index < self.scanned.len()
            invariant
                index <= self.scanned@.len(),
                plugin_views(list@) == all_plugins(self.scanned@.take(index as int)),
            decreases self.scanned@.len() - index,
        {
            let ghost before = list@;
            let mut more = self.scanned[index].plugins();
            let ghost added = more@;
            list.append(&mut more);
            proof {
                let next = self.scanned@.take(index + 1);
                assert(next.drop_last() =~= self.scanned@.take(index as int));
                assert(next.last() == self.scanned@[index as int]);
                assert(plugin_views(before + added) =~= plugin_views(before) + plugin_views(added));
            }
            index += 1;
        }
        proof {
            assert(self.scanned@.take(index as int) =~= self.scanned@);
        }
        list
    }
}

/// Whether the bytes `a` stand before the bytes `b` in the order of a
/// dictionary, or are the same.
pub open spec fn bytes_le(a: Seq<u8>, b: Seq<u8>) -> bool
    decreases a.len(),
{
    if a.len() == 0 {
        true
    } else if b.len() == 0 {
        false
    } else if a[0] != b[0] {
        a[0] < b[0]
    } else {
        bytes_le(a.drop_first(), b.drop_first())
    }
}

/// What bundles are ordered by: the bytes of their path.
pub open spec fn path_key(plugin: ScannedPlugin) -> Seq<u8> {
    vstd::utf8::encode_utf8(plugin.path@)
}

/// Whether the bundles of `list` stand in the order of their paths.
pub open spec fn sorted_by_path(list: Seq<ScannedPlugin>) -> bool {
    forall|i: int, j: int|
        0 <= i < j < list.len() ==> bytes_le(
            path_key(#[trigger] list[i]),
            path_key(#[trigger] list[j]),
        )
}

/// Of two byte strings one stands before the other, or they are the same.
pub proof fn lemma_bytes_le_total(a: Seq<u8>, b: Seq<u8>)
    ensures
        bytes_le(a, b) || bytes_le(b, a),
    decreases a.len(),
{
    if a.len() > 0 && b.len() > 0 && a[0] == b[0] {
        lemma_bytes_le_total(a.drop_first(), b.drop_first());
    }
}

/// The order of byte strings is transitive.
pub proof fn lemma_bytes_le_transitive(a: Seq<u8>, b: Seq<u8>, c: Seq<u8>)
    requires
        bytes_le(a, b),
        bytes_le(b, c),
    ensures
        bytes_le(a, c),
    decreases a.len(),
{
    if a.len() > 0 && b.len() > 0 && c.len() > 0 && a[0] == b[0] && b[0] == c[0] {
        lemma_bytes_le_transitive(a.drop_first(), b.drop_first(), c.drop_first());
    }
}

fn le_bytes(a: &[u8], b: &[u8]) -> (le: bool)
    ensures
        le == bytes_le(a@, b@),
{
    let mut i: usize = 0;
    proof {
        assert(a@.skip(0) =~= a@);
        assert(b@.skip(0) =~= b@);
    }
    while i < a.len() && i < b.len() && a[i] == b[i]
        invariant
            i <= a@.len(),
            i <= b@.len(),
            bytes_le(a@, b@) == bytes_le(a@.skip(i as int), b@.skip(i as int)),
        decreases a@.len() - i,
    {
        proof {
            assert(a@.skip(i as int).drop_first() =~= a@.skip(i + 1));
            assert(b@.skip(i as int).drop_first() =~= b@.skip(i + 1));
        }
        i += 1;
    }
    if i >= a.len() {
        true
    } else if i >= b.len() {
        false
    } else {
        a[i] < b[i]
    }
}

fn insert_sorted(sorted: &mut Vec<ScannedPlugin>, plugin: ScannedPlugin)
    requires
        sorted_by_path(old(sorted)@),
    ensures
        sorted_by_path(final(sorted)@),
        final(sorted)@.to_multiset() == old(sorted)@.to_multiset().insert(plugin),
{
    let mut index: usize = 0;
    while index < sorted.len() && le_bytes(
        sorted[index].path.as_str().as_bytes(),
        plugin.path.as_str().as_bytes(),
    )
        invariant
            index <= sorted@.len(),
            sorted@ == old(sorted)@,
            forall|i: int|
                0 <= i < index ==> bytes_le(path_key(#[trigger] sorted@[i]), path_key(plugin)),
        decreases sorted@.len() - index,
    {
        index += 1;
    }
    proof {
        let before = sorted@;
        let after = before.insert(index as int, plugin);
        vstd::seq_lib::to_multiset_insert(before, index as int, plugin);
        assert forall|i: int, j: int| 0 <= i < j < after.len() implies bytes_le(
            path_key(#[trigger] after[i]),
            path_key(#[trigger] after[j]),
        ) by {
            if j < index {
                assert(after[i] == before[i] && after[j] == before[j]);
            } else if j == index {
                assert(after[i] == before[i]);
            } else if i == index {
                assert(after[j] == before[j - 1]);
                lemma_bytes_le_total(path_key(before[index as int]), path_key(plugin));
                if j - 1 > index {
                    lemma_bytes_le_transitive(
                        path_key(plugin),
                        path_key(before[index as int]),
                        path_key(before[j - 1]),
                    );
                }
            } else if i < index {
                assert(after[i] == before[i] && after[j] == before[j - 1]);
            } else {
                assert(after[i] == before[i - 1] && after[j] == before[j - 1]);
            }
        }
    }
    sorted.insert(index, plugin);
}

fn sort_by_path(list: Vec<ScannedPlugin>) -> (sorted: Vec<ScannedPlugin>)
    ensures
        sorted_by_path(sorted@),
        sorted@.to_multiset() == list@.to_multiset(),
{
    let mut rest = list;
    let mut sorted: Vec<ScannedPlugin> = Vec::new();
    proof {
        assert(sorted@.to_multiset().add(rest@.to_multiset()) =~= list@.to_multiset()) by {
            broadcast use vstd::seq_lib::group_to_multiset_ensures;

        }
    }
    while rest.len() > 0
        invariant
            sorted_by_path(sorted@),
            sorted@.to_multiset().add(rest@.to_multiset()) == list@.to_multiset(),
        decreases rest@.len(),
    {
        let ghost before = rest@;
        let ghost done = sorted@;
        let plugin = rest.pop().unwrap();
        insert_sorted(&mut sorted, plugin);
        proof {
            assert(before =~= rest@.push(plugin));
            vstd::seq_lib::to_multiset_build(rest@, plugin);
            assert(sorted@.to_multiset().add(rest@.to_multiset()) =~= done.to_multiset().add(
                before.to_multiset(),
            ));
        }
    }
    proof {
        assert(rest@.to_multiset() =~= vstd::multiset::Multiset::<ScannedPlugin>::empty()) by {
            broadcast use vstd::seq_lib::group_to_multiset_ensures;

        }
        assert(sorted@.to_multiset().add(rest@.to_multiset()) =~= sorted@.to_multiset());
    }
    sorted
}

impl Host {
    /// Takes up the outcome of the scan of a single path. A scan that found
    /// no bundle is answered with `Error::False` and changes nothing. A
    /// bundle that was found is added, and all bundles are put into the
    /// order of their paths.
    pub fn scan(&mut self, scanned: Option<ScannedPlugin>) -> (result: Result<(), Error>)
        ensures
            final(self).spec_name() == old(self).spec_name(),
            final(self).spec_search_paths() == old(self).spec_search_paths(),
            scanned is None ==> result == Err::<(), Error>(Error::False) && final(self).scanned()
                == old(self).scanned(),
            scanned matches Some(plugin) ==> {
                &&& result is Ok
                &&& sorted_by_path(final(self).scanned())
                &&& final(self).scanned().to_multiset() == old(self).scanned().to_multiset().insert(
                    plugin,
                )
            },
    {
        let plugin = match scanned {
            Some(plugin) => plugin,
            None => {
                return Err(Error::False);
            },
        };
        let mut list: Vec<ScannedPlugin> = Vec::new();
        core::mem::swap(&mut self.scanned, &mut list);
        let ghost before = list@;
        list.push(plugin);
        proof {
            vstd::seq_lib::to_multiset_build(before, plugin);
        }
        self.scanned = sort_by_path(list);
        Ok(())
    }
}

} // verus!
