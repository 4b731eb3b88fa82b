//! The permission model: which host paths a task may read and write, and
//! whether it may use the network.

use vstd::prelude::*;
use vstd::string::StringExecFns;
use crate::error::{Error, ErrorView};
use crate::path::{within, HostPath};

verus! {

/// The components of a path.
pub type PathView = Seq<Seq<char>>;

/// Represents whether permission is granted or denied.
#[derive(Copy, Clone, Debug, PartialEq, Eq, Structural)]
pub enum PermissionState {
    Granted,
    Denied,
}

impl Default for PermissionState {
    fn default() -> (r: Self)
        ensures
            r == PermissionState::Denied,
    {
        PermissionState::Denied
    }
}

/// What an optional piece of text holds.
pub open spec fn text_of(info: Option<&str>) -> Option<Seq<char>> {
    match info {
        Some(s) => Some(s@),
        None => None,
    }
}

/// The words for an access: the kind, ` access`, and where it is known what
/// was to be accessed, ` to ` and that.
pub open spec fn access_text(name: Seq<char>, info: Option<Seq<char>>) -> Seq<char> {
    name + " access"@ + match info {
        Some(what) => " to "@ + what,
        None => Seq::empty(),
    }
}

/// The message of a denial: which access is required, and the flag that
/// allows it.
pub open spec fn denial_text(name: Seq<char>, info: Option<Seq<char>>) -> Seq<char> {
    "Requires "@ + access_text(name, info) + ", run again with --allow-"@ + name + " flag"@
}

impl PermissionState {
    /// The words for an access of kind `name`, to `info` where that is
    /// given.
    pub fn fmt_access(name: &str, info: Option<&str>) -> (r: String)
        ensures
            r@ == access_text(name@, text_of(info)),
    {
        let mut out = String::from_str(name);
        out.append(" access");
        match info {
            Some(what) => {
                out.append(" to ");
                out.append(what);
                assert(out@ =~= access_text(name@, text_of(info)));
            },
            None => {
                assert(out@ =~= access_text(name@, text_of(info)));
            },
        }
        out
    }

    /// The error for a denied access of kind `name`.
    pub fn error(name: &str, info: Option<&str>) -> (r: Error)
        ensures
            r@ == ErrorView::PermissionDenied(denial_text(name@, text_of(info))),
    {
        let mut out = String::from_str("Requires ");
        let access = Self::fmt_access(name, info);
        out.append(access.as_str());
        out.append(", run again with --allow-");
        out.append(name);
        out.append(" flag");
        Error::PermissionDeniedError(out)
    }

    /// Succeeds where the state is `Granted`; fails with the denial for an
    /// access of kind `name` otherwise.
    pub fn check(self, name: &str, info: Option<&str>) -> (r: Result<(), Error>)
        ensures
            self == PermissionState::Granted <==> r is Ok,
            r matches Err(e) ==> e@ == ErrorView::PermissionDenied(
                denial_text(name@, text_of(info)),
            ),
    {
        match self {
            PermissionState::Granted => Ok(()),
            _ => Err(Self::error(name, info)),
        }
    }
}

/// A permission that is granted or denied as a whole.
#[derive(Clone, Debug)]
pub struct UnitPermission {
    pub name: &'static str,
    pub state: PermissionState,
}

impl UnitPermission {
    /// Succeeds where the permission is granted.
    pub fn check(&self) -> (r: Result<(), Error>)
        ensures
            self.state == PermissionState::Granted <==> r is Ok,
            r matches Err(e) ==> e@ == ErrorView::PermissionDenied(denial_text(self.name@, None)),
    {
        self.state.check(self.name, None)
    }
}

/// What a permission over paths lists: a host path.
pub trait Descriptor: Sized {
    /// The components of the listed path.
    spec fn path(&self) -> PathView;

    /// The listed path.
    fn host_path(&self) -> (r: &HostPath)
        ensures
            r.components() == self.path(),
    ;

    /// The descriptor that lists `path`.
    fn from_path(path: HostPath) -> (r: Self)
        ensures
            r.path() == path.components(),
    ;
}

/// A path that may be read.
#[derive(Debug)]
pub struct ReadDescriptor(pub HostPath);

/// A path that may be written.
#[derive(Debug)]
pub struct WriteDescriptor(pub HostPath);

impl Descriptor for ReadDescriptor {
    open spec fn path(&self) -> PathView {
        self.0.components()
    }

    fn host_path(&self) -> (r: &HostPath) {
        &self.0
    }

    fn from_path(path: HostPath) -> (r: Self) {
        ReadDescriptor(path)
    }
}

impl Descriptor for WriteDescriptor {
    open spec fn path(&self) -> PathView {
        self.0.components()
    }

    fn host_path(&self) -> (r: &HostPath) {
        &self.0
    }

    fn from_path(path: HostPath) -> (r: Self) {
        WriteDescriptor(path)
    }
}

impl Clone for ReadDescriptor {
    fn clone(&self) -> (r: Self)
        ensures
            r.path() == self.path(),
    {
        ReadDescriptor(self.0.clone())
    }
}

impl Clone for WriteDescriptor {
    fn clone(&self) -> (r: Self)
        ensures
            r.path() == self.path(),
    {
        WriteDescriptor(self.0.clone())
    }
}

/// The paths that the descriptors of `list` list, in order.
pub open spec fn paths_of<T: Descriptor>(list: Seq<T>) -> Seq<PathView> {
    Seq::new(list.len(), |i: int| list[i].path())
}

/// Whether a check on `path` succeeds under the global state `state`, the
/// granted paths `granted` and the denied paths `denied`.
///
/// Under `Granted`, it succeeds unless a denied path is `path` or lies
/// below it. Under `Denied`, it succeeds where `path` is a granted path or
/// lies below one.
pub open spec fn permits(
    state: PermissionState,
    granted: Set<PathView>,
    denied: Set<PathView>,
    path: PathView,
) -> bool {
    match state {
        PermissionState::Granted => forall|d: PathView| #[trigger]
            denied.contains(d) ==> !within(d, path),
        PermissionState::Denied => exists|a: PathView| #[trigger]
            granted.contains(a) && within(path, a),
    }
}

/// A permission over paths: a global state, with the paths that are granted
/// and those that are denied. No path is listed twice in either list.
#[derive(Clone, Debug)]
pub struct UnaryPermission<T> {
    pub name: &'static str,
    pub global_state: PermissionState,
    pub granted_list: Vec<T>,
    pub denied_list: Vec<T>,
}

impl<T: Descriptor> UnaryPermission<T> {
    /// The granted paths.
    pub open spec fn granted(&self) -> Set<PathView> {
        paths_of(self.granted_list@).to_set()
    }

    /// The denied paths.
    pub open spec fn denied(&self) -> Set<PathView> {
        paths_of(self.denied_list@).to_set()
    }

    /// No path is listed twice.
    pub open spec fn wf(&self) -> bool {
        &&& paths_of(self.granted_list@).no_duplicates()
        &&& paths_of(self.denied_list@).no_duplicates()
    }

    /// Whether a check on the path with components `path` succeeds.
    pub open spec fn allows(&self, path: PathView) -> bool {
        permits(self.global_state, self.granted(), self.denied(), path)
    }

    /// Succeeds where `path` is permitted; fails with the denial for an
    /// access to `path` otherwise.
    pub fn check(&self, path: &HostPath) -> (r: Result<(), Error>)
        ensures
            r is Ok <==> self.allows(path.components()),
            r matches Err(e) ==> e@ == ErrorView::PermissionDenied(
                denial_text(self.name@, Some(path.text())),
            ),
    {
        let decision = match self.global_state {
            PermissionState::Granted => {
                if any_within(&self.denied_list, path) {
                    PermissionState::Denied
                } else {
                    PermissionState::Granted
                }
            },
            PermissionState::Denied => {
                if any_around(&self.granted_list, path) {
                    PermissionState::Granted
                } else {
                    PermissionState::Denied
                }
            },
        };
        decision.check(self.name, Some(path.as_str()))
    }
}

/// Whether a path of `list` is `path` or lies below it.
fn any_within<T: Descriptor>(list: &Vec<T>, path: &HostPath) -> (r: bool)
    ensures
        r == exists|d: PathView| #[trigger]
            paths_of(list@).to_set().contains(d) && within(d, path.components()),
{
    let mut i: usize = 0;
    while i < list.len()
        invariant
            i <= list.len(),
            forall|j: int| 0 <= j < i ==> !within(#[trigger] paths_of(list@)[j], path.components()),
        decreases list.len() - i,
    {
        if list[i].host_path().starts_with(path) {
            assert(paths_of(list@)[i as int] == list[i as int].path());
            assert(paths_of(list@).to_set().contains(paths_of(list@)[i as int]));
            return true;
        }
        assert(paths_of(list@)[i as int] == list[i as int].path());
        i += 1;
    }
    assert forall|d: PathView| #[trigger]
        paths_of(list@).to_set().contains(d) implies !within(d, path.components()) by {
        let j = choose|j: int| 0 <= j < paths_of(list@).len() && paths_of(list@)[j] == d;
        assert(!within(paths_of(list@)[j], path.components()));
    }
    false
}

/// Whether `path` is a path of `list` or lies below one.
fn any_around<T: Descriptor>(list: &Vec<T>, path: &HostPath) -> (r: bool)
    ensures
        r == exists|a: PathView| #[trigger]
            paths_of(list@).to_set().contains(a) && within(path.components(), a),
{
    let mut i: usize = 0;
    while i < list.len()
        invariant
            i <= list.len(),
            forall|j: int| 0 <= j < i ==> !within(path.components(), #[trigger] paths_of(list@)[j]),
        decreases list.len() - i,
    {
        if path.starts_with(list[i].host_path()) {
            assert(paths_of(list@)[i as int] == list[i as int].path());
            assert(paths_of(list@).to_set().contains(paths_of(list@)[i as int]));
            return true;
        }
        assert(paths_of(list@)[i as int] == list[i as int].path());
        i += 1;
    }
    assert forall|a: PathView| #[trigger]
        paths_of(list@).to_set().contains(a) implies !within(path.components(), a) by {
        let j = choose|j: int| 0 <= j < paths_of(list@).len() && paths_of(list@)[j] == a;
        assert(!within(path.components(), paths_of(list@)[j]));
    }
    false
}

impl Default for UnaryPermission<ReadDescriptor> {
    fn default() -> (r: Self)
        ensures
            r.name@ == "read"@,
            r.global_state == PermissionState::Denied,
            r.granted_list@.len() == 0,
            r.denied_list@.len() == 0,
            r.wf(),
    {
        UnaryPermission {
            name: "read",
            global_state: PermissionState::Denied,
            granted_list: Vec::new(),
            denied_list: Vec::new(),
        }
    }
}

impl Default for UnaryPermission<WriteDescriptor> {
    fn default() -> (r: Self)
        ensures
            r.name@ == "write"@,
            r.global_state == PermissionState::Denied,
            r.granted_list@.len() == 0,
            r.denied_list@.len() == 0,
            r.wf(),
    {
        UnaryPermission {
            name: "write",
            global_state: PermissionState::Denied,
            granted_list: Vec::new(),
            denied_list: Vec::new(),
        }
    }
}

/// A simple permission manager.
#[derive(Clone, Debug)]
pub struct Permissions {
    pub read: UnaryPermission<ReadDescriptor>,
    pub write: UnaryPermission<WriteDescriptor>,
    pub net: UnitPermission,
}

impl Permissions {
    /// The names are `read`, `write` and `net`, and no path is listed twice.
    pub open spec fn wf(&self) -> bool {
        &&& self.read.name@ == "read"@
        &&& self.write.name@ == "write"@
        &&& self.net.name@ == "net"@
        &&& self.read.wf()
        &&& self.write.wf()
    }

    /// Reading is granted everywhere, writing nowhere, the network is
    /// granted, and no path is listed.
    pub open spec fn is_default(&self) -> bool {
        &&& self.wf()
        &&& self.read.global_state == PermissionState::Granted
        &&& self.read.granted_list@.len() == 0
        &&& self.read.denied_list@.len() == 0
        &&& self.write.global_state == PermissionState::Denied
        &&& self.write.granted_list@.len() == 0
        &&& self.write.denied_list@.len() == 0
        &&& self.net.state == PermissionState::Granted
    }
}

impl Default for Permissions {
    /// Reading is granted everywhere, writing nowhere, and the network is
    /// granted.
    fn default() -> (r: Self)
        ensures
            r.is_default(),
    {
        Permissions {
            read: UnaryPermission {
                name: "read",
                global_state: PermissionState::Granted,
                granted_list: Vec::new(),
                denied_list: Vec::new(),
            },
            write: UnaryPermission {
                name: "write",
                global_state: PermissionState::Denied,
                granted_list: Vec::new(),
                denied_list: Vec::new(),
            },
            net: UnitPermission { name: "net", state: PermissionState::Granted },
        }
    }
}

/// What was asked for on the command line: for reading and for writing,
/// nothing, everything (an empty list) or the listed roots; for the network,
/// a flag.
#[derive(Clone, Debug)]
pub struct PermissionsOptions {
    pub allow_read: Option<Vec<HostPath>>,
    pub allow_write: Option<Vec<HostPath>>,
    pub allow_net: bool,
}

impl Default for PermissionsOptions {
    fn default() -> (r: Self)
        ensures
            r.allow_read is None,
            r.allow_write is None,
            !r.allow_net,
    {
        PermissionsOptions { allow_read: None, allow_write: None, allow_net: false }
    }
}

/// The paths that an option lists, in order: none where it is absent.
pub open spec fn listed(allow: Option<Vec<HostPath>>) -> Seq<PathView> {
    match allow {
        Some(v) => Seq::new(v@.len(), |i: int| v@[i].components()),
        None => Seq::empty(),
    }
}

/// The global state that an option asks for: `Granted` where it is present
/// and lists nothing, `Denied` otherwise.
pub open spec fn state_of<T>(flag: Option<Vec<T>>) -> PermissionState {
    match flag {
        Some(v) => if v@.len() == 0 {
            PermissionState::Granted
        } else {
            PermissionState::Denied
        },
        None => PermissionState::Denied,
    }
}

/// `s` without the paths that occur earlier in it.
pub open spec fn distinct(s: Seq<PathView>) -> Seq<PathView>
    decreases s.len(),
{
    if s.len() == 0 {
        s
    } else {
        let before = distinct(s.drop_last());
        if before.contains(s.last()) {
            before
        } else {
            before.push(s.last())
        }
    }
}

/// `distinct` lists every path of `s`, no other, and none twice.
pub proof fn lemma_distinct(s: Seq<PathView>)
    ensures
        distinct(s).no_duplicates(),
        distinct(s).to_set() == s.to_set(),
    decreases s.len(),
{
    if s.len() > 0 {
        let front = s.drop_last();
        let before = distinct(front);
        lemma_distinct(front);
        assert forall|p: PathView| distinct(s).to_set().contains(p) == s.to_set().contains(
            p,
        ) by {
            assert(before.to_set().contains(p) == front.to_set().contains(p));
            if s.contains(p) {
                let i = choose|i: int| 0 <= i < s.len() && s[i] == p;
                if i < front.len() {
                    assert(front[i] == p);
                    assert(front.contains(p));
                    let j = choose|j: int| 0 <= j < before.len() && before[j] == p;
                    if !before.contains(s.last()) {
                        assert(before.push(s.last())[j] == p);
                    }
                } else if !before.contains(s.last()) {
                    assert(before.push(s.last())[before.len() as int] == p);
                }
            }
            if distinct(s).contains(p) {
                let j = choose|j: int| 0 <= j < distinct(s).len() && distinct(s)[j] == p;
                if j < before.len() {
                    assert(before[j] == p);
                    assert(before.contains(p));
                    let i = choose|i: int| 0 <= i < front.len() && front[i] == p;
                    assert(s[i] == p);
                } else {
                    assert(s[s.len() - 1] == p);
                }
            }
        }
        assert(distinct(s).to_set() =~= s.to_set());
    } else {
        assert(distinct(s).to_set() =~= s.to_set());
    }
}

/// Whether `list` lists the path `path`.
fn lists<T: Descriptor>(list: &Vec<T>, path: &HostPath) -> (r: bool)
    ensures
        r == paths_of(list@).contains(path.components()),
{
    let mut i: usize = 0;
    while i < list.len()
        invariant
            i <= list.len(),
            forall|j: int| 0 <= j < i ==> paths_of(list@)[j] != path.components(),
        decreases list.len() - i,
    {
        if list[i].host_path().same(path) {
            assert(paths_of(list@)[i as int] == path.components());
            return true;
        }
        i += 1;
    }
    false
}

/// The descriptors for the paths that `allow` lists, each path once, in the
/// order in which they first occur.
fn resolve_allowlist<T: Descriptor>(allow: &Option<Vec<HostPath>>) -> (r: Vec<T>)
    ensures
        paths_of(r@) == distinct(listed(*allow)),
{
    let mut out: Vec<T> = Vec::new();
    match allow {
        Some(v) => {
            let ghost all = listed(*allow);
            let mut i: usize = 0;
            assert(all.take(0) =~= Seq::<PathView>::empty());
            assert(paths_of(out@) =~= distinct(all.take(0)));
            while i < v.len()
                invariant
                    i <= v.len(),
                    all == listed(*allow),
                    *allow == Some(*v),
                    paths_of(out@) == distinct(all.take(i as int)),
                decreases v.len() - i,
            {
                let ghost before = paths_of(out@);
                assert(all.take(i + 1).drop_last() =~= all.take(i as int));
                assert(all.take(i + 1).last() == v@[i as int].components());
                if !lists(&out, &v[i]) {
                    out.push(T::from_path(v[i].clone()));
                    assert(paths_of(out@) =~= before.push(v@[i as int].components()));
                }
                i += 1;
            }
            assert(all.take(i as int) =~= all);
        },
        None => {
            assert(paths_of(out@) =~= distinct(listed(*allow)));
        },
    }
    out
}

/// The global state that `flag` asks for: `Granted` where it is present and
/// lists nothing, `Denied` otherwise.
pub fn global_state_from_option<T>(flag: &Option<Vec<T>>) -> (r: PermissionState)
    ensures
        r == state_of(*flag),
{
    match flag {
        Some(v) => if v.len() == 0 {
            PermissionState::Granted
        } else {
            PermissionState::Denied
        },
        None => PermissionState::Denied,
    }
}

/// The read descriptors for the roots that `allow` lists: each path once,
/// in the order in which they first occur; none where `allow` is absent.
pub fn resolve_read_allowlist(allow: &Option<Vec<HostPath>>) -> (r: Vec<ReadDescriptor>)
    ensures
        paths_of(r@) == distinct(listed(*allow)),
        paths_of(r@).no_duplicates(),
        paths_of(r@).to_set() == listed(*allow).to_set(),
{
    proof {
        lemma_distinct(listed(*allow));
    }
    resolve_allowlist(allow)
}

/// The write descriptors for the roots that `allow` lists: each path once,
/// in the order in which they first occur; none where `allow` is absent.
pub fn resolve_write_allowlist(allow: &Option<Vec<HostPath>>) -> (r: Vec<WriteDescriptor>)
    ensures
        paths_of(r@) == distinct(listed(*allow)),
        paths_of(r@).no_duplicates(),
        paths_of(r@).to_set() == listed(*allow).to_set(),
{
    proof {
        lemma_distinct(listed(*allow));
    }
    resolve_allowlist(allow)
}

impl Permissions {
    /// Succeeds where `path` may be read.
    pub fn check_read(&self, path: &HostPath) -> (r: Result<(), Error>)
        ensures
            r is Ok <==> self.read.allows(path.components()),
            r matches Err(e) ==> e@ == ErrorView::PermissionDenied(
                denial_text(self.read.name@, Some(path.text())),
            ),
    {
        self.read.check(path)
    }

    /// Succeeds where `path` may be written.
    pub fn check_write(&self, path: &HostPath) -> (r: Result<(), Error>)
        ensures
            r is Ok <==> self.write.allows(path.components()),
            r matches Err(e) ==> e@ == ErrorView::PermissionDenied(
                denial_text(self.write.name@, Some(path.text())),
            ),
    {
        self.write.check(path)
    }

    /// Succeeds where the network is granted.
    pub fn check_net(&self) -> (r: Result<(), Error>)
        ensures
            r is Ok <==> self.net.state == PermissionState::Granted,
            r matches Err(e) ==> e@ == ErrorView::PermissionDenied(
                denial_text(self.net.name@, None),
            ),
    {
        self.net.check()
    }

    /// The permissions that the options ask for. An access is granted
    /// everywhere where its option is present and lists nothing, below the
    /// listed roots where it lists some, and nowhere where it is absent.
    /// Nothing is denied by name.
    pub fn from_options(opts: &PermissionsOptions) -> (r: Self)
        ensures
            r.wf(),
            r.read.global_state == state_of(opts.allow_read),
            paths_of(r.read.granted_list@) == distinct(listed(opts.allow_read)),
            r.read.granted() == listed(opts.allow_read).to_set(),
            r.read.denied_list@.len() == 0,
            r.write.global_state == state_of(opts.allow_write),
            paths_of(r.write.granted_list@) == distinct(listed(opts.allow_write)),
            r.write.granted() == listed(opts.allow_write).to_set(),
            r.write.denied_list@.len() == 0,
            r.net.state == if opts.allow_net {
                PermissionState::Granted
            } else {
                PermissionState::Denied
            },
    {
        Permissions {
            read: UnaryPermission {
                name: "read",
                global_state: global_state_from_option(&opts.allow_read),
                granted_list: resolve_read_allowlist(&opts.allow_read),
                denied_list: Vec::new(),
            },
            write: UnaryPermission {
                name: "write",
                global_state: global_state_from_option(&opts.allow_write),
                granted_list: resolve_write_allowlist(&opts.allow_write),
                denied_list: Vec::new(),
            },
            net: UnitPermission {
                name: "net",
                state: if opts.allow_net {
                    PermissionState::Granted
                } else {
                    PermissionState::Denied
                },
            },
        }
    }
}

/// Granting more roots never turns a permitted path into a refused one.
pub proof fn lemma_granting_keeps_permitted(
    state: PermissionState,
    granted: Set<PathView>,
    more: Set<PathView>,
    denied: Set<PathView>,
    path: PathView,
)
    requires
        granted.subset_of(more),
        permits(state, granted, denied, path),
    ensures
        permits(state, more, denied, path),
{
    if state == PermissionState::Denied {
        let a = choose|a: PathView| #[trigger] granted.contains(a) && within(path, a);
        assert(more.contains(a));
    }
}

/// Denying more paths never turns a refused path into a permitted one.
pub proof fn lemma_denying_keeps_refused(
    state: PermissionState,
    granted: Set<PathView>,
    denied: Set<PathView>,
    more: Set<PathView>,
    path: PathView,
)
    requires
        denied.subset_of(more),
        !permits(state, granted, denied, path),
    ensures
        !permits(state, granted, more, path),
{
    if state == PermissionState::Granted {
        let d = choose|d: PathView| #[trigger] denied.contains(d) && within(d, path);
        assert(more.contains(d));
    }
}

/// What lies within a permitted path is permitted.
pub proof fn lemma_permitted_within(
    state: PermissionState,
    granted: Set<PathView>,
    denied: Set<PathView>,
    path: PathView,
    inner: PathView,
)
    requires
        permits(state, granted, denied, path),
        within(inner, path),
    ensures
        permits(state, granted, denied, inner),
{
    match state {
        PermissionState::Granted => {
            assert forall|d: PathView| #[trigger] denied.contains(d) implies !within(d, inner) by {
                if within(d, inner) {
                    assert(path =~= d.subrange(0, path.len() as int)) by {
                        assert(inner =~= d.subrange(0, inner.len() as int));
                        assert(path =~= inner.subrange(0, path.len() as int));
                    }
                    assert(within(d, path));
                }
            }
        },
        PermissionState::Denied => {
            let a = choose|a: PathView| #[trigger] granted.contains(a) && within(path, a);
            assert(a =~= inner.subrange(0, a.len() as int)) by {
                assert(a =~= path.subrange(0, a.len() as int));
                assert(path =~= inner.subrange(0, path.len() as int));
            }
            assert(granted.contains(a) && within(inner, a));
        },
    }
}

/// Whether `path` lies below `root` without being it: it has more
/// components than `root`, and begins with those of `root`.
pub open spec fn below(path: PathView, root: PathView) -> bool {
    root.len() < path.len() && path.take(root.len() as int) == root
}

/// A path lies within a root exactly where it is the root or lies below
/// it.
pub proof fn lemma_within_is_equal_or_below(path: PathView, root: PathView)
    ensures
        within(path, root) <==> (path == root || below(path, root)),
        within(path, path),
{
    assert(path.subrange(0, path.len() as int) =~= path);
    if within(path, root) {
        assert(path.take(root.len() as int) =~= root);
        if root.len() == path.len() {
            assert(path.take(root.len() as int) =~= path);
        }
    }
    if below(path, root) {
        assert(root =~= path.subrange(0, root.len() as int));
    }
}

/// Where nothing is granted globally, a path is permitted exactly where it
/// is a granted path or lies below one. Where everything is granted
/// globally, it is permitted exactly where no denied path is the path or
/// lies below it.
pub proof fn lemma_prefix_law<T: Descriptor>(permission: UnaryPermission<T>, path: PathView)
    ensures
        permission.global_state == PermissionState::Denied ==> (permission.allows(path)
            <==> exists|a: PathView| #[trigger]
            permission.granted().contains(a) && (path == a || below(path, a))),
        permission.global_state == PermissionState::Granted ==> (permission.allows(path)
            <==> forall|d: PathView| #[trigger]
            permission.denied().contains(d) ==> !(d == path || below(d, path))),
{
    assert forall|a: PathView| within(path, a) == (path == a || below(path, a)) by {
        lemma_within_is_equal_or_below(path, a);
    }
    assert forall|d: PathView| within(d, path) == (d == path || below(d, path)) by {
        lemma_within_is_equal_or_below(d, path);
    }
    if permission.global_state == PermissionState::Denied {
        if permission.allows(path) {
            let a = choose|a: PathView| #[trigger]
                permission.granted().contains(a) && within(path, a);
            assert(permission.granted().contains(a) && (path == a || below(path, a)));
        }
        if exists|a: PathView| #[trigger]
            permission.granted().contains(a) && (path == a || below(path, a)) {
            let a = choose|a: PathView| #[trigger]
                permission.granted().contains(a) && (path == a || below(path, a));
            assert(permission.granted().contains(a) && within(path, a));
        }
    }
}

} // verus!
