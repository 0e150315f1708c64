//! The resource namespace: a registry of discovered devices and other
//! resources, keyed by slash-separated paths.
//!
//! Enumeration's output is registered here so that later collaborators can
//! look a device up by name.  A path is a sequence of non-empty segments;
//! the string form writes `/` before every segment.

use vstd::prelude::*;

use crate::header::PCIFunction;

verus! {

/// What kind of resource a registered entry is.
pub enum ResourceType {
    Device,
    FileSystem,
    Other,
}

/// A resource that can be registered in the namespace.  Implementors
/// state their registration path; the namespace stores them under it.
pub trait Resource: Sized {
    /// The registration path, as a mathematical value.
    spec fn spec_resource_path(&self) -> Seq<Seq<char>>;

    /// Which kind of resource this is.
    fn unwrap(&mut self) -> ResourceType;

    /// The registration path of this resource.
    fn resource_path(&self) -> (r: Vec<String>)
        ensures
            path_views(r@) == self.spec_resource_path(),
    ;

    /// The path in string form: `/` before every segment.
    fn resource_path_string(&self) -> (r: String)
        ensures
            r@ == spec_concat_path(self.spec_resource_path()),
    {
        concat_resource_path(self.resource_path())
    }
}

/// The views of a sequence of path segments.
pub open spec fn path_views(p: Seq<String>) -> Seq<Seq<char>> {
    p.map_values(|s: String| s@)
}

/// Splitting a character sequence at `/`, dropping empty segments:
/// `cur` is the segment collected so far.
pub open spec fn spec_split_acc(s: Seq<char>, cur: Seq<char>) -> Seq<Seq<char>>
    decreases s.len(),
{
    if s.len() == 0 {
        if cur.len() == 0 {
            Seq::empty()
        } else {
            seq![cur]
        }
    } else if s[0] == '/' {
        (if cur.len() == 0 {
            Seq::<Seq<char>>::empty()
        } else {
            seq![cur]
        }) + spec_split_acc(s.skip(1), Seq::empty())
    } else {
        spec_split_acc(s.skip(1), cur.push(s[0]))
    }
}

/// The segments of a slash-separated path string.
pub open spec fn spec_split_path(s: Seq<char>) -> Seq<Seq<char>> {
    spec_split_acc(s, Seq::empty())
}

/// The string form of a segment sequence: `/` before every segment.
pub open spec fn spec_concat_path(p: Seq<Seq<char>>) -> Seq<char>
    decreases p.len(),
{
    if p.len() == 0 {
        Seq::empty()
    } else {
        seq!['/'] + p[0] + spec_concat_path(p.skip(1))
    }
}

/// Splits a path string at `/` into its non-empty segments.
pub fn split_resource_path(path: String) -> (r: Vec<String>)
    ensures
        path_views(r@) == spec_split_path(path@),
{
    let s: &str = path.as_str();
    let n: usize = s.unicode_len();
    let mut result: Vec<String> = Vec::new();
    let mut start: usize = 0;
    let mut i: usize = 0;
    proof {
        assert(s@.skip(0) =~= s@);
        assert(s@.subrange(0, 0) =~= Seq::<char>::empty());
        assert(path_views(result@) + spec_split_acc(s@, Seq::empty()) =~= spec_split_acc(
            s@,
            Seq::empty(),
        ));
    }
    while i < n
        invariant
            s@ == path@,
            n == s@.len(),
            start <= i <= n,
            path_views(result@) + spec_split_acc(s@.skip(i as int), s@.subrange(start as int, i as int))
                == spec_split_path(path@),
        decreases n - i,
    {
        let ghost cur = s@.subrange(start as int, i as int);
        proof {
            assert(s@.skip(i as int)[0] == s@[i as int]);
            assert(s@.skip(i as int).skip(1) =~= s@.skip(i + 1));
        }
        let c = s.get_char(i);
        if c == '/' {
            if i > start {
                let segment = String::from_str(s.substring_char(start, i));
                proof {
                    assert(path_views(result@.push(segment)) =~= path_views(result@) + seq![cur]);
                    assert((path_views(result@) + seq![cur]) + spec_split_acc(
                        s@.skip(i + 1),
                        Seq::empty(),
                    ) =~= path_views(result@) + (seq![cur] + spec_split_acc(
                        s@.skip(i + 1),
                        Seq::empty(),
                    )));
                }
                result.push(segment);
            } else {
                proof {
                    assert(path_views(result@) + spec_split_acc(s@.skip(i + 1), Seq::empty())
                        =~= path_views(result@) + (Seq::<Seq<char>>::empty() + spec_split_acc(
                        s@.skip(i + 1),
                        Seq::empty(),
                    )));
                }
            }
            proof {
                assert(s@.subrange(i + 1, i + 1) =~= Seq::<char>::empty());
            }
            start = i + 1;
        } else {
            proof {
                assert(cur.push(s@[i as int]) =~= s@.subrange(start as int, i + 1));
            }
        }
        i = i + 1;
    }
    proof {
        assert(s@.skip(n as int) =~= Seq::<char>::empty());
    }
    if n > start {
        let segment = String::from_str(s.substring_char(start, n));
        proof {
            let cur = s@.subrange(start as int, n as int);
            assert(path_views(result@.push(segment)) =~= path_views(result@) + seq![cur]);
        }
        result.push(segment);
    }
    proof {
        assert(path_views(result@) + Seq::<Seq<char>>::empty() =~= path_views(result@));
    }
    result
}

/// Joins path segments into the string form, `/` before every segment.
pub fn concat_resource_path(path: Vec<String>) -> (r: String)
    ensures
        r@ == spec_concat_path(path_views(path@)),
{
    let mut r = String::new();
    let mut i: usize = 0;
    proof {
        assert(path_views(path@).skip(0) =~= path_views(path@));
        assert(Seq::<char>::empty() + spec_concat_path(path_views(path@)) =~= spec_concat_path(
            path_views(path@),
        ));
    }
    while i < path.len()
        invariant
            i <= path@.len(),
            r@ + spec_concat_path(path_views(path@).skip(i as int)) == spec_concat_path(
                path_views(path@),
            ),
        decreases path@.len() - i,
    {
        proof {
            reveal_strlit("/");
            assert(path_views(path@).skip(i as int)[0] == path@[i as int]@);
            assert(path_views(path@).skip(i as int).skip(1) =~= path_views(path@).skip(i + 1));
            assert("/"@ =~= seq!['/']);
        }
        let ghost before = r@;
        r.append("/");
        r.append(path[i].as_str());
        proof {
            assert(r@ =~= before + (seq!['/'] + path@[i as int]@));
            assert((before + (seq!['/'] + path@[i as int]@)) + spec_concat_path(
                path_views(path@).skip(i + 1),
            ) =~= before + ((seq!['/'] + path@[i as int]@) + spec_concat_path(
                path_views(path@).skip(i + 1),
            )));
        }
        i = i + 1;
    }
    proof {
        assert(r@ + Seq::<char>::empty() =~= r@);
    }
    r
}

/// One namespace entry: a path and, for leaf resources, a value.
pub struct NamespaceNode<R> {
    pub path: Vec<String>,
    pub value: Option<R>,
}

/// The namespace: a registry of nodes with pairwise distinct paths.
pub struct Namespace<R> {
    pub nodes: Vec<NamespaceNode<R>>,
}

impl<R> Namespace<R> {
    /// Every registered path occurs once.
    pub open spec fn wf(self) -> bool {
        forall|i: int, j: int|
            0 <= i < j < self.nodes@.len() ==> path_views(self.nodes@[i].path@) != path_views(
                self.nodes@[j].path@,
            )
    }

    /// Whether a node is registered under path `p`.
    pub open spec fn is_node(self, p: Seq<Seq<char>>) -> bool {
        exists|i: int| 0 <= i < self.nodes@.len() && path_views(self.nodes@[i].path@) == p
    }

    /// The value registered under path `p`, when the node exists and
    /// carries one.
    pub open spec fn value_at(self, p: Seq<Seq<char>>) -> Option<R> {
        if self.is_node(p) {
            let i = choose|i: int|
                0 <= i < self.nodes@.len() && path_views(self.nodes@[i].path@) == p;
            self.nodes@[i].value
        } else {
            None
        }
    }

    /// Index of the node registered under `path`, if any.
    fn find_node(&self, path: &Vec<String>) -> (r: Option<usize>)
        ensures
            match r {
                Some(i) => i < self.nodes@.len() && path_views(self.nodes@[i as int].path@)
                    == path_views(path@),
                None => !self.is_node(path_views(path@)),
            },
    {
        let mut i: usize = 0;
        while i < self.nodes.len()
            invariant
                i <= self.nodes@.len(),
                forall|j: int|
                    0 <= j < i ==> path_views(self.nodes@[j].path@) != path_views(path@),
            decreases self.nodes@.len() - i,
        {
            if path_eq(&self.nodes[i].path, path) {
                return Some(i);
            }
            i = i + 1;
        }
        None
    }
}

/// Whether two segment vectors name the same path.
fn path_eq(a: &Vec<String>, b: &Vec<String>) -> (r: bool)
    ensures
        r == (path_views(a@) == path_views(b@)),
{
    if a.len() != b.len() {
        assert(path_views(a@).len() != path_views(b@).len());
        return false;
    }
    let mut i: usize = 0;
    while i < a.len()
        invariant
            a@.len() == b@.len(),
            i <= a@.len(),
            forall|j: int| 0 <= j < i ==> a@[j]@ == b@[j]@,
        decreases a@.len() - i,
    {
        if !(a[i] == b[i]) {
            assert(path_views(a@)[i as int] != path_views(b@)[i as int]);
            return false;
        }
        i = i + 1;
    }
    proof {
        assert(path_views(a@) =~= path_views(b@));
    }
    true
}

/// A fresh namespace holding the two customary root subtrees,
/// `Devices` and `Files`, both without a value.
pub fn init_namespace<R>() -> (r: Namespace<R>)
    ensures
        r.wf(),
        r.is_node(seq!["Devices"@]),
        r.is_node(seq!["Files"@]),
        r.value_at(seq!["Devices"@]) == None::<R>,
        r.value_at(seq!["Files"@]) == None::<R>,
        forall|q: Seq<Seq<char>>|
            q != seq!["Devices"@] && q != seq!["Files"@] ==> !r.is_node(q),
{
    proof {
        reveal_strlit("Devices");
        reveal_strlit("Files");
    }
    let mut devices: Vec<String> = Vec::new();
    devices.push(String::from_str("Devices"));
    let mut files: Vec<String> = Vec::new();
    files.push(String::from_str("Files"));
    let mut nodes: Vec<NamespaceNode<R>> = Vec::new();
    proof {
        assert(path_views(devices@) =~= seq!["Devices"@]);
        assert(path_views(files@) =~= seq!["Files"@]);
    }
    nodes.push(NamespaceNode { path: devices, value: None });
    nodes.push(NamespaceNode { path: files, value: None });
    let r = Namespace { nodes };
    proof {
        reveal_strlit("Devices");
        reveal_strlit("Files");
        assert(path_views(r.nodes@[0].path@) == seq!["Devices"@]);
        assert(path_views(r.nodes@[1].path@) == seq!["Files"@]);
        assert("Devices"@.len() != "Files"@.len());
        assert(seq!["Devices"@][0] == "Devices"@);
        assert(seq!["Files"@][0] == "Files"@);
        assert(seq!["Devices"@] != seq!["Files"@]);
    }
    r
}

/// The node registered under the given path segments, if any; its value
/// is the registered resource.
pub fn subtree_parts<'a, R>(namespace: &'a Namespace<R>, path: Vec<String>) -> (r: Option<
    &'a NamespaceNode<R>,
>)
    requires
        namespace.wf(),
    ensures
        match r {
            Some(node) => {
                &&& namespace.is_node(path_views(path@))
                &&& path_views(node.path@) == path_views(path@)
                &&& node.value == namespace.value_at(path_views(path@))
            },
            None => !namespace.is_node(path_views(path@)),
        },
{
    match namespace.find_node(&path) {
        Some(i) => Some(&namespace.nodes[i]),
        None => None,
    }
}

/// The node registered under a path string, if any.
pub fn subtree<'a, R>(namespace: &'a Namespace<R>, path: String) -> (r: Option<
    &'a NamespaceNode<R>,
>)
    requires
        namespace.wf(),
    ensures
        match r {
            Some(node) => {
                &&& namespace.is_node(spec_split_path(path@))
                &&& path_views(node.path@) == spec_split_path(path@)
                &&& node.value == namespace.value_at(spec_split_path(path@))
            },
            None => !namespace.is_node(spec_split_path(path@)),
        },
{
    subtree_parts(namespace, split_resource_path(path))
}

/// The resource registered under the given path segments.  A path that
/// names no node at all is answered with `None` too — the design treats
/// looking it up as fatal, so the contract keeps the two outcomes
/// apart through `is_node` — and a node without a value yields `None`.
pub fn get_resource_non_generic_parts<'a, R>(
    namespace: &'a Namespace<R>,
    path: Vec<String>,
) -> (r: Option<&'a R>)
    requires
        namespace.wf(),
    ensures
        !namespace.is_node(path_views(path@)) ==> r is None,
        namespace.is_node(path_views(path@)) ==> match r {
            Some(v) => namespace.value_at(path_views(path@)) == Some(*v),
            None => namespace.value_at(path_views(path@)) is None,
        },
{
    match namespace.find_node(&path) {
        Some(i) => {
            match &namespace.nodes[i].value {
                Some(v) => Some(v),
                None => None,
            }
        },
        None => None,
    }
}

/// The resource registered under a path string.
pub fn get_resource_non_generic<'a, R>(namespace: &'a Namespace<R>, path: String) -> (r: Option<
    &'a R,
>)
    requires
        namespace.wf(),
    ensures
        !namespace.is_node(spec_split_path(path@)) ==> r is None,
        namespace.is_node(spec_split_path(path@)) ==> match r {
            Some(v) => namespace.value_at(spec_split_path(path@)) == Some(*v),
            None => namespace.value_at(spec_split_path(path@)) is None,
        },
{
    get_resource_non_generic_parts(namespace, split_resource_path(path))
}

/// The resource registered under the given path segments.
pub fn get_resource_parts<'a, R>(namespace: &'a Namespace<R>, path: Vec<String>) -> (r: Option<
    &'a R,
>)
    requires
        namespace.wf(),
    ensures
        !namespace.is_node(path_views(path@)) ==> r is None,
        namespace.is_node(path_views(path@)) ==> match r {
            Some(v) => namespace.value_at(path_views(path@)) == Some(*v),
            None => namespace.value_at(path_views(path@)) is None,
        },
{
    get_resource_non_generic_parts(namespace, path)
}

/// The resource registered under a path string.
pub fn get_resource<'a, R>(namespace: &'a Namespace<R>, path: String) -> (r: Option<&'a R>)
    requires
        namespace.wf(),
    ensures
        !namespace.is_node(spec_split_path(path@)) ==> r is None,
        namespace.is_node(spec_split_path(path@)) ==> match r {
            Some(v) => namespace.value_at(spec_split_path(path@)) == Some(*v),
            None => namespace.value_at(spec_split_path(path@)) is None,
        },
{
    get_resource_parts(namespace, split_resource_path(path))
}

/// Registers `resource` under the given path segments, creating the node
/// or replacing the value of an existing one.  Every other node is left
/// as it was.
pub fn register_resource_path<R>(namespace: &mut Namespace<R>, path: Vec<String>, resource: R)
    requires
        old(namespace).wf(),
    ensures
        final(namespace).wf(),
        final(namespace).is_node(path_views(path@)),
        final(namespace).value_at(path_views(path@)) == Some(resource),
        forall|q: Seq<Seq<char>>|
            q != path_views(path@) ==> final(namespace).is_node(q) == old(namespace).is_node(q)
                && #[trigger] final(namespace).value_at(q) == old(namespace).value_at(q),
{
    let ghost pv = path_views(path@);
    match namespace.find_node(&path) {
        Some(i) => {
            let node = &mut namespace.nodes[i];
            node.path = path;
            node.value = Some(resource);
            proof {
                let ns = *namespace;
                assert(path_views(ns.nodes@[i as int].path@) == pv);
                assert forall|q: Seq<Seq<char>>| q != pv implies ns.is_node(q) == old(
                    namespace,
                ).is_node(q) && ns.value_at(q) == old(namespace).value_at(q) by {
                    if old(namespace).is_node(q) {
                        let w = choose|w: int|
                            0 <= w < old(namespace).nodes@.len() && path_views(
                                old(namespace).nodes@[w].path@,
                            ) == q;
                        assert(w != i);
                        assert(path_views(ns.nodes@[w].path@) == q);
                    }
                    if ns.is_node(q) {
                        let w = choose|w: int|
                            0 <= w < ns.nodes@.len() && path_views(ns.nodes@[w].path@) == q;
                        assert(w != i);
                        assert(path_views(old(namespace).nodes@[w].path@) == q);
                    }
                }
            }
        },
        None => {
            namespace.nodes.push(NamespaceNode { path, value: Some(resource) });
            proof {
                let ns = *namespace;
                let last = ns.nodes@.len() - 1;
                assert(path_views(ns.nodes@[last].path@) == pv);
                assert forall|q: Seq<Seq<char>>| q != pv implies ns.is_node(q) == old(
                    namespace,
                ).is_node(q) && ns.value_at(q) == old(namespace).value_at(q) by {
                    if old(namespace).is_node(q) {
                        let w = choose|w: int|
                            0 <= w < old(namespace).nodes@.len() && path_views(
                                old(namespace).nodes@[w].path@,
                            ) == q;
                        assert(path_views(ns.nodes@[w].path@) == q);
                    }
                    if ns.is_node(q) {
                        let w = choose|w: int|
                            0 <= w < ns.nodes@.len() && path_views(ns.nodes@[w].path@) == q;
                        assert(w != last);
                        assert(path_views(old(namespace).nodes@[w].path@) == q);
                    }
                }
            }
        },
    }
}

impl Resource for PCIFunction {
    /// Enumerated PCI functions are registered under the PCI device
    /// class path.
    open spec fn spec_resource_path(&self) -> Seq<Seq<char>> {
        seq!["Devices"@, "PCI"@]
    }

    fn unwrap(&mut self) -> ResourceType {
        ResourceType::Device
    }

    fn resource_path(&self) -> (r: Vec<String>) {
        let mut r: Vec<String> = Vec::new();
        r.push(String::from_str("Devices"));
        r.push(String::from_str("PCI"));
        proof {
            assert(path_views(r@) =~= seq!["Devices"@, "PCI"@]);
        }
        r
    }
}

/// Registers `resource` under its own registration path.
pub fn register_resource<R: Resource>(namespace: &mut Namespace<R>, resource: R)
    requires
        old(namespace).wf(),
    ensures
        final(namespace).wf(),
        final(namespace).is_node(resource.spec_resource_path()),
        final(namespace).value_at(resource.spec_resource_path()) == Some(resource),
        forall|q: Seq<Seq<char>>|
            q != resource.spec_resource_path() ==> final(namespace).is_node(q) == old(
                namespace,
            ).is_node(q) && #[trigger] final(namespace).value_at(q) == old(namespace).value_at(q),
{
    let path = resource.resource_path();
    register_resource_path(namespace, path, resource);
}

} // verus!
