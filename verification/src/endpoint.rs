//! Where the Discord client may be listening: the candidate socket paths,
//! computed from the process environment without touching the filesystem.

use vstd::prelude::*;
use vstd::string::StringExecFns;
use vstd::string::StrSliceExecFns;

verus! {

/// The number of socket indices that are probed under each directory layout.
pub const ENDPOINT_INDICES: usize = 10;

/// The number of directory layouts under the base directory.
pub const ENDPOINT_LAYOUTS: usize = 4;

/// The number of candidate paths of one scan.
pub const ENDPOINT_CANDIDATES: usize = 40;

/// The environment variables of a process, as far as they are valid Unicode:
/// a mapping from name to value.
pub struct Environment {
    bindings: Vec<(String, String)>,
}

/// The mapping that a list of bindings stands for; a later binding of a name
/// replaces an earlier one.
pub open spec fn bindings_map(bindings: Seq<(String, String)>) -> Map<Seq<char>, Seq<char>>
    decreases bindings.len(),
{
    if bindings.len() == 0 {
        Map::empty()
    } else {
        bindings_map(bindings.drop_last()).insert(bindings.last().0@, bindings.last().1@)
    }
}

impl View for Environment {
    type V = Map<Seq<char>, Seq<char>>;

    closed spec fn view(&self) -> Map<Seq<char>, Seq<char>> {
        bindings_map(self.bindings@)
    }
}

impl Environment {
    /// An environment without variables.
    pub fn new() -> (env: Environment)
        ensures
            env@ == Map::<Seq<char>, Seq<char>>::empty(),
    {
        Environment { bindings: Vec::new() }
    }

    /// Binds `name` to `value`, replacing what it was bound to.
    pub fn set(&mut self, name: &str, value: &str)
        ensures
            final(self)@ == old(self)@.insert(name@, value@),
    {
        let ghost before = self.bindings@;
        self.bindings.push((name.to_owned(), value.to_owned()));
        assert(self.bindings@.drop_last() == before);
    }

    /// The value of the variable `name`, if it is set.
    pub fn get(&self, name: &str) -> (value: Option<String>)
        ensures
            match value {
                Some(v) => self@.contains_key(name@) && v@ == self@[name@],
                None => !self@.contains_key(name@),
            },
    {
        let key = name.to_owned();
        let mut found: Option<String> = None;
        let mut i: usize = 0;
        while i < self.bindings.len()
            invariant
                i <= self.bindings.len(),
                key@ == name@,
                match found {
                    Some(v) => bindings_map(self.bindings@.take(i as int)).contains_key(name@)
                        && v@ == bindings_map(self.bindings@.take(i as int))[name@],
                    None => !bindings_map(self.bindings@.take(i as int)).contains_key(name@),
                },
            decreases self.bindings.len() - i,
        {
            assert(self.bindings@.take(i + 1).drop_last() == self.bindings@.take(i as int));
            if self.bindings[i].0 == key {
                found = Some(self.bindings[i].1.clone());
            }
            i += 1;
        }
        assert(self.bindings@.take(i as int) == self.bindings@);
        found
    }

    /// Whether the variable `name` is set.
    pub fn contains(&self, name: &str) -> (present: bool)
        ensures
            present == self@.contains_key(name@),
    {
        self.get(name).is_some()
    }
}

/// The directory that holds `path`: what stands before its last `/`, and
/// nothing where it has none.
pub open spec fn parent_dir(path: Seq<char>) -> Seq<char>
    decreases path.len(),
{
    if path.len() == 0 {
        Seq::empty()
    } else if path.last() == '/' {
        path.drop_last()
    } else {
        parent_dir(path.drop_last())
    }
}

/// The directory under which the socket is looked for.
///
/// It is the value of the first variable that is set among `XDG_RUNTIME_DIR`,
/// `TMPDIR`, `TMP` and `TEMP`, and empty where none is. Inside a snap
/// (`SNAP` is set) the runtime directory is private to the snap, and the
/// socket of the host lies in its parent.
pub open spec fn base_dir(env: Map<Seq<char>, Seq<char>>) -> Seq<char> {
    if env.contains_key("XDG_RUNTIME_DIR"@) {
        if env.contains_key("SNAP"@) {
            parent_dir(env["XDG_RUNTIME_DIR"@])
        } else {
            env["XDG_RUNTIME_DIR"@]
        }
    } else if env.contains_key("TMPDIR"@) {
        env["TMPDIR"@]
    } else if env.contains_key("TMP"@) {
        env["TMP"@]
    } else if env.contains_key("TEMP"@) {
        env["TEMP"@]
    } else {
        Seq::empty()
    }
}

/// The directory layouts of the known ways to install Discord, relative to
/// the base directory: a plain install, Flatpak, and the two snaps.
pub open spec fn layout_dir(layout: int) -> Seq<char> {
    if layout == 0 {
        ""@
    } else if layout == 1 {
        "app/com.discordapp.Discord/"@
    } else if layout == 2 {
        "snap.discord-canary/"@
    } else {
        "snap.discord/"@
    }
}

/// `dir`, ended by a `/` where a file name can not follow it directly.
pub open spec fn dir_prefix(dir: Seq<char>) -> Seq<char> {
    if dir.len() == 0 || dir.last() == '/' {
        dir
    } else {
        dir.push('/')
    }
}

/// The decimal digit for `index`, which is below ten.
pub open spec fn digit_char(index: int) -> char {
    (('0' as u8) + index) as u8 as char
}

/// The path of the socket number `index` under the directory layout `layout`.
pub open spec fn endpoint_path(base: Seq<char>, layout: int, index: int) -> Seq<char> {
    dir_prefix(base) + layout_dir(layout) + "discord-ipc-"@ + seq![digit_char(index)]
}

/// The candidate paths in the order in which they are tried: all layouts of
/// socket 0, then all layouts of socket 1, and so on to socket 9.
pub open spec fn endpoint_paths(env: Map<Seq<char>, Seq<char>>) -> Seq<Seq<char>> {
    Seq::new(
        ENDPOINT_CANDIDATES as nat,
        |k: int| endpoint_path(base_dir(env), k % 4, k / 4),
    )
}

/// What stands before the last `/` of `path`.
pub fn parent_of(path: &str) -> (parent: String)
    ensures
        parent@ == parent_dir(path@),
{
    let mut end: usize = path.unicode_len();
    assert(path@.take(end as int) == path@);
    while end > 0
        invariant
            end <= path@.len(),
            parent_dir(path@) == parent_dir(path@.take(end as int)),
        decreases end,
    {
        end -= 1;
        assert(path@.take(end + 1).drop_last() == path@.take(end as int));
        if path.get_char(end) == '/' {
            return path.substring_char(0, end).to_owned();
        }
    }
    String::new()
}

/// The base directory for the environment `env`.
pub fn base_path(env: &Environment) -> (base: String)
    ensures
        base@ == base_dir(env@),
{
    match env.get("XDG_RUNTIME_DIR") {
        Some(runtime_dir) => {
            if env.contains("SNAP") {
                parent_of(runtime_dir.as_str())
            } else {
                runtime_dir
            }
        },
        None => match env.get("TMPDIR") {
            Some(dir) => dir,
            None => match env.get("TMP") {
                Some(dir) => dir,
                None => match env.get("TEMP") {
                    Some(dir) => dir,
                    None => String::new(),
                },
            },
        },
    }
}

fn layout_name(layout: usize) -> (name: &'static str)
    ensures
        name@ == layout_dir(layout as int),
{
    if layout == 0 {
        ""
    } else if layout == 1 {
        "app/com.discordapp.Discord/"
    } else if layout == 2 {
        "snap.discord-canary/"
    } else {
        "snap.discord/"
    }
}

fn digit_name(index: usize) -> (name: &'static str)
    requires
        index < 10,
    ensures
        name@ == seq![digit_char(index as int)],
{
    proof {
        reveal_strlit("0");
        reveal_strlit("1");
        reveal_strlit("2");
        reveal_strlit("3");
        reveal_strlit("4");
        reveal_strlit("5");
        reveal_strlit("6");
        reveal_strlit("7");
        reveal_strlit("8");
        reveal_strlit("9");
    }
    let name = if index == 0 {
        "0"
    } else if index == 1 {
        "1"
    } else if index == 2 {
        "2"
    } else if index == 3 {
        "3"
    } else if index == 4 {
        "4"
    } else if index == 5 {
        "5"
    } else if index == 6 {
        "6"
    } else if index == 7 {
        "7"
    } else if index == 8 {
        "8"
    } else {
        "9"
    };
    assert(name@ =~= seq![digit_char(index as int)]);
    name
}

/// The socket path for `base`, the directory layout `layout` and the socket
/// number `index`.
fn endpoint(base: &str, layout: usize, index: usize) -> (path: String)
    requires
        index < 10,
    ensures
        path@ == endpoint_path(base@, layout as int, index as int),
{
    let mut path = base.to_owned();
    let len: usize = base.unicode_len();
    if len > 0 && base.get_char(len - 1) != '/' {
        path.append("/");
        proof {
            reveal_strlit("/");
            assert(path@ =~= base@.push('/'));
        }
    }
    path.append(layout_name(layout));
    path.append("discord-ipc-");
    path.append(digit_name(index));
    path
}

/// The candidate socket paths for the environment `env`, in the order in
/// which they are to be tried.
pub fn candidate_paths(env: &Environment) -> (paths: Vec<String>)
    ensures
        paths.deep_view() == endpoint_paths(env@),
{
    let base = base_path(env);
    let mut paths: Vec<String> = Vec::new();
    let mut index: usize = 0;
    while index < ENDPOINT_INDICES
        invariant
            index <= ENDPOINT_INDICES,
            base@ == base_dir(env@),
            paths@.len() == 4 * index,
            forall|k: int|
                0 <= k < paths@.len() ==> (#[trigger] paths@[k])@ == endpoint_path(
                    base@,
                    k % 4,
                    k / 4,
                ),
        decreases ENDPOINT_INDICES - index,
    {
        let mut layout: usize = 0;
        while layout < ENDPOINT_LAYOUTS
            invariant
                index < ENDPOINT_INDICES,
                layout <= ENDPOINT_LAYOUTS,
                paths@.len() == 4 * index + layout,
                forall|k: int|
                    0 <= k < paths@.len() ==> (#[trigger] paths@[k])@ == endpoint_path(
                        base@,
                        k % 4,
                        k / 4,
                    ),
            decreases ENDPOINT_LAYOUTS - layout,
        {
            paths.push(endpoint(base.as_str(), layout, index));
            layout += 1;
        }
        index += 1;
    }
    assert(paths.deep_view() =~= endpoint_paths(env@));
    paths
}

/// The parent directory is the part of the path before its last `/`.
pub proof fn lemma_parent_dir_cuts_at_last_slash(path: Seq<char>, cut: int)
    requires
        0 <= cut < path.len(),
        path[cut] == '/',
        forall|j: int| cut < j < path.len() ==> path[j] != '/',
    ensures
        parent_dir(path) == path.take(cut),
    decreases path.len(),
{
    if path.last() == '/' {
        assert(cut == path.len() - 1);
        assert(path.drop_last() == path.take(cut));
    } else {
        lemma_parent_dir_cuts_at_last_slash(path.drop_last(), cut);
        assert(path.drop_last().take(cut) == path.take(cut));
    }
}

/// A path without `/` has an empty parent directory.
pub proof fn lemma_parent_dir_without_slash(path: Seq<char>)
    requires
        forall|j: int| 0 <= j < path.len() ==> path[j] != '/',
    ensures
        parent_dir(path) == Seq::<char>::empty(),
    decreases path.len(),
{
    if path.len() > 0 {
        lemma_parent_dir_without_slash(path.drop_last());
    }
}

} // verus!
