//! Scene-graph traversal over nodes and scenes: wrapper types resolving
//! index references on demand, and a depth-first walk from a scene's root
//! node list. The format disallows cycles, but the walk carries a visited
//! set as a defensive guard, so it terminates on any input.

use vstd::prelude::*;

use crate::schema;
use crate::schema::{Vec3Bits, Vec4Bits};
use crate::mesh::Mesh;
use crate::{Error, Gltf};

verus! {

/// A transform plus optional mesh/camera/skin references and child nodes.
#[derive(Clone, Copy)]
pub struct Node<'a> {
    /// The owning decoding session.
    pub gltf: &'a Gltf,
    /// Index of this node in the schema tree.
    pub index: usize,
}

/// The root node list of one scene.
#[derive(Clone, Copy)]
pub struct Scene<'a> {
    /// The owning decoding session.
    pub gltf: &'a Gltf,
    /// Index of this scene in the schema tree.
    pub index: usize,
}

impl Gltf {
    /// Number of nodes in the schema tree.
    pub fn node_count(&self) -> (r: usize)
        ensures
            r == self.nodes@.len(),
    {
        self.nodes.len()
    }

    /// Resolve node `index`; an index at or beyond the node array is an
    /// index-resolution error.
    pub fn node<'a>(&'a self, index: usize) -> (r: Result<Node<'a>, Error>)
        ensures
            r is Ok <==> index < self.nodes@.len(),
            r matches Ok(n) ==> n.gltf == self && n.index == index && n.wf(),
            r matches Err(e) ==> e == (Error::IndexOutOfRange { index }),
    {
        if index < self.nodes.len() {
            Ok(Node { gltf: self, index })
        } else {
            Err(Error::IndexOutOfRange { index })
        }
    }

    /// Resolve scene `index`; an index at or beyond the scene array is an
    /// index-resolution error.
    pub fn scene<'a>(&'a self, index: usize) -> (r: Result<Scene<'a>, Error>)
        ensures
            r is Ok <==> index < self.scenes@.len(),
            r matches Ok(s) ==> s.gltf == self && s.index == index && s.wf(),
            r matches Err(e) ==> e == (Error::IndexOutOfRange { index }),
    {
        if index < self.scenes.len() {
            Ok(Scene { gltf: self, index })
        } else {
            Err(Error::IndexOutOfRange { index })
        }
    }
}

impl<'a> Node<'a> {
    /// Whether this wrapper indexes an existing node record.
    pub open spec fn wf(self) -> bool {
        self.index < self.gltf.nodes@.len()
    }

    /// The schema record this wrapper stands for.
    pub open spec fn json_spec(self) -> schema::Node {
        self.gltf.nodes@[self.index as int]
    }

    /// Returns the internal index of this node.
    pub fn index(&self) -> (r: usize)
        ensures
            r == self.index,
    {
        self.index
    }

    /// Returns the internal schema record.
    pub fn as_json(&self) -> (r: &'a schema::Node)
        requires
            self.wf(),
        ensures
            *r == self.json_spec(),
    {
        &self.gltf.nodes[self.index]
    }

    /// Translation of the node's transform, as float bit patterns.
    pub fn translation(&self) -> (r: Vec3Bits)
        requires
            self.wf(),
        ensures
            r == self.json_spec().translation,
    {
        self.as_json().translation
    }

    /// Unit quaternion rotation of the node's transform, as float bit
    /// patterns.
    pub fn rotation(&self) -> (r: Vec4Bits)
        requires
            self.wf(),
        ensures
            r == self.json_spec().rotation,
    {
        self.as_json().rotation
    }

    /// Scale of the node's transform, as float bit patterns.
    pub fn scale(&self) -> (r: Vec3Bits)
        requires
            self.wf(),
        ensures
            r == self.json_spec().scale,
    {
        self.as_json().scale
    }

    /// The full 4-by-4 column-major transform, as float bit patterns, when
    /// the node declares one.
    pub fn matrix(&self) -> (r: Option<&'a Vec<u32>>)
        requires
            self.wf(),
        ensures
            r is Some <==> self.json_spec().matrix is Some,
            r matches Some(m) ==> m@ == self.json_spec().matrix->Some_0@,
    {
        self.gltf.nodes[self.index].matrix.as_ref()
    }

    /// The camera index referenced by this node, if any.
    pub fn camera(&self) -> (r: Option<usize>)
        requires
            self.wf(),
        ensures
            r == self.json_spec().camera,
    {
        self.as_json().camera
    }

    /// The skin index referenced by this node, if any.
    pub fn skin(&self) -> (r: Option<usize>)
        requires
            self.wf(),
        ensures
            r == self.json_spec().skin,
    {
        self.as_json().skin
    }

    /// Morph-target weights overriding the mesh defaults, as float bit
    /// patterns.
    pub fn weights(&self) -> (r: Option<&'a Vec<u32>>)
        requires
            self.wf(),
        ensures
            r is Some <==> self.json_spec().weights is Some,
            r matches Some(w) ==> w@ == self.json_spec().weights->Some_0@,
    {
        self.gltf.nodes[self.index].weights.as_ref()
    }

    /// Optional user-defined name for this object.
    pub fn name(&self) -> (r: Option<&'a String>)
        requires
            self.wf(),
        ensures
            r is Some <==> self.json_spec().name is Some,
            r matches Some(n) ==> *n == self.json_spec().name->Some_0,
    {
        self.gltf.nodes[self.index].name.as_ref()
    }

    /// Resolve the mesh this node carries, if any; a present mesh index at
    /// or beyond the mesh array is an index-resolution error.
    pub fn mesh(&self) -> (r: Result<Option<Mesh<'a>>, Error>)
        requires
            self.wf(),
        ensures
            r is Ok <==> (match self.json_spec().mesh {
                None => true,
                Some(mi) => mi < self.gltf.meshes@.len(),
            }),
            r matches Ok(o) ==> match self.json_spec().mesh {
                None => o is None,
                Some(mi) => o matches Some(m) && m.gltf == self.gltf && m.index == mi && m.wf(),
            },
            r matches Err(e) ==> self.json_spec().mesh matches Some(mi)
                && mi >= self.gltf.meshes@.len()
                && e == (Error::IndexOutOfRange { index: mi }),
    {
        match self.as_json().mesh {
            None => Ok(None),
            Some(mi) => match self.gltf.mesh(mi) {
                Ok(m) => Ok(Some(m)),
                Err(e) => Err(e),
            },
        }
    }

    /// Number of children of this node.
    pub fn child_count(&self) -> (r: usize)
        requires
            self.wf(),
        ensures
            r == self.json_spec().children@.len(),
    {
        self.as_json().children.len()
    }

    /// Resolve child `k` of this node; a child index at or beyond the node
    /// array is an index-resolution error.
    pub fn child(&self, k: usize) -> (r: Result<Node<'a>, Error>)
        requires
            self.wf(),
            k < self.json_spec().children@.len(),
        ensures
            r is Ok <==> (self.json_spec().children@[k as int] as int) < self.gltf.nodes@.len(),
            r matches Ok(n) ==> n.gltf == self.gltf
                && n.index == self.json_spec().children@[k as int] && n.wf(),
            r matches Err(e) ==> e == (Error::IndexOutOfRange {
                index: self.json_spec().children@[k as int],
            }),
    {
        let ci: usize = self.as_json().children[k];
        self.gltf.node(ci)
    }
}

impl<'a> Scene<'a> {
    /// Whether this wrapper indexes an existing scene record.
    pub open spec fn wf(self) -> bool {
        self.index < self.gltf.scenes@.len()
    }

    /// The schema record this wrapper stands for.
    pub open spec fn json_spec(self) -> schema::Scene {
        self.gltf.scenes@[self.index as int]
    }

    /// Returns the internal schema record.
    pub fn as_json(&self) -> (r: &'a schema::Scene)
        requires
            self.wf(),
        ensures
            *r == self.json_spec(),
    {
        &self.gltf.scenes[self.index]
    }

    /// The indices of every node reachable from this scene's roots, in
    /// depth-first order, under the same contract as `Gltf::descendants`.
    pub fn nodes_depth_first(&self) -> (r: Result<Vec<usize>, Error>)
        requires
            self.wf(),
        ensures
            descendants_outcome(*self.gltf, self.json_spec().nodes@, r),
    {
        self.gltf.descendants(&self.as_json().nodes)
    }
}

/// Whether `p` is a child path of the scene tree: it starts at one of the
/// roots and every step goes from a node to one of its children. Every
/// position but the last must be a valid node index; the last may be the
/// dangling index that makes a traversal fail.
pub open spec fn is_path(doc: Gltf, roots: Seq<usize>, p: Seq<usize>) -> bool {
    &&& p.len() > 0
    &&& roots.contains(p[0])
    &&& forall|k: int| 0 <= k < p.len() - 1 ==> (p[k] as int) < doc.nodes@.len()
        && doc.nodes@[p[k] as int].children@.contains(p[k + 1])
}

/// Whether node index `i` is reachable from the roots along child edges.
pub open spec fn reachable_from(doc: Gltf, roots: Seq<usize>, i: usize) -> bool {
    exists|p: Seq<usize>| is_path(doc, roots, p) && p.last() == i
}

/// Every root is reachable.
pub proof fn lemma_root_reachable(doc: Gltf, roots: Seq<usize>, i: usize)
    requires
        roots.contains(i),
    ensures
        reachable_from(doc, roots, i),
{
    let p = seq![i];
    assert(is_path(doc, roots, p));
    assert(p.last() == i);
}

/// A child of a reachable valid node is reachable.
pub proof fn lemma_step_reachable(doc: Gltf, roots: Seq<usize>, a: usize, b: usize)
    requires
        reachable_from(doc, roots, a),
        (a as int) < doc.nodes@.len(),
        doc.nodes@[a as int].children@.contains(b),
    ensures
        reachable_from(doc, roots, b),
{
    let p = choose|p: Seq<usize>| is_path(doc, roots, p) && p.last() == a;
    let q = p.push(b);
    assert(q[p.len() - 1] == a);
    assert forall|k: int| 0 <= k < q.len() - 1 implies (q[k] as int) < doc.nodes@.len()
        && doc.nodes@[q[k] as int].children@.contains(q[k + 1]) by {
        if k < p.len() - 1 {
            assert(q[k] == p[k] && q[k + 1] == p[k + 1]);
        }
    }
    assert(is_path(doc, roots, q));
    assert(q.last() == b);
}

/// Whether a sequence of indices holds no index twice.
pub open spec fn distinct(s: Seq<usize>) -> bool {
    forall|j: int, k: int| 0 <= j < k < s.len() ==> s[j] != s[k]
}

/// Number of entries of a visited map still false.
pub open spec fn unvisited_count(s: Seq<bool>) -> nat
    decreases s.len(),
{
    if s.len() == 0 {
        0
    } else {
        unvisited_count(s.drop_last()) + (if s.last() { 0nat } else { 1nat })
    }
}

/// Marking an unvisited entry strictly shrinks the unvisited count.
proof fn lemma_unvisited_update(s: Seq<bool>, i: int)
    requires
        0 <= i < s.len(),
        !s[i],
    ensures
        unvisited_count(s.update(i, true)) < unvisited_count(s),
    decreases s.len(),
{
    if i == s.len() - 1 {
        assert(s.update(i, true).drop_last() =~= s.drop_last());
        assert(s.update(i, true).last());
    } else {
        assert(s.update(i, true).drop_last() =~= s.drop_last().update(i, true));
        lemma_unvisited_update(s.drop_last(), i);
        assert(s.update(i, true).last() == s.last());
    }
}

/// The guarantees of a finished depth-first walk: on success, the returned
/// indices are valid, pairwise distinct, contain every root, and are closed
/// under the child relation; a failure names a reachable index that falls
/// outside the node array, so on a document whose reachable indices are all
/// valid, success is owed.
pub open spec fn descendants_outcome(doc: Gltf, roots: Seq<usize>, r: Result<Vec<usize>, Error>) -> bool {
    match r {
        Ok(out) => {
            &&& forall|j: int| 0 <= j < out@.len() ==> (out@[j] as int) < doc.nodes@.len()
            &&& distinct(out@)
            &&& forall|j: int| 0 <= j < roots.len() ==> out@.contains(roots[j])
            &&& forall|j: int, c: int| 0 <= j < out@.len()
                && 0 <= c < doc.nodes@[out@[j] as int].children@.len()
                ==> out@.contains(doc.nodes@[out@[j] as int].children@[c])
        },
        Err(e) => exists|i: usize| reachable_from(doc, roots, i)
            && (i as int) >= doc.nodes@.len() && e == (Error::IndexOutOfRange { index: i }),
    }
}

/// Append every entry of `children` to the walk stack.
fn push_all(stack: &mut Vec<usize>, children: &Vec<usize>)
    ensures
        final(stack)@ == old(stack)@ + children@,
{
    let n: usize = children.len();
    let mut c: usize = 0;
    while c < n
        invariant
            c <= n,
            n == children@.len(),
            stack@ == old(stack)@ + children@.take(c as int),
        decreases n - c,
    {
        stack.push(children[c]);
        proof {
            assert(stack@ =~= old(stack)@ + children@.take(c as int + 1));
        }
        c = c + 1;
    }
    proof {
        assert(old(stack)@ + children@.take(n as int) =~= old(stack)@ + children@);
    }
}

/// A vector of `n` entries, all false: the fresh visited map.
fn make_false(n: usize) -> (r: Vec<bool>)
    ensures
        r@.len() == n,
        forall|i: int| 0 <= i < n ==> !r@[i],
{
    let mut out: Vec<bool> = Vec::new();
    let mut j: usize = 0;
    while j < n
        invariant
            j <= n,
            out@.len() == j,
            forall|i: int| 0 <= i < j ==> !out@[i],
        decreases n - j,
    {
        out.push(false);
        j = j + 1;
    }
    out
}

impl Gltf {
    /// Walk the scene tree depth first from the given roots, guarding
    /// against revisits, and return the indices of every node seen, each
    /// once. A root or child index at or beyond the node array stops the
    /// walk with an index-resolution error; on a document whose reachable
    /// indices are all valid the walk always succeeds.
    pub fn descendants(&self, roots: &Vec<usize>) -> (r: Result<Vec<usize>, Error>)
        ensures
            descendants_outcome(*self, roots@, r),
    {
        let n: usize = self.nodes.len();
        let mut visited: Vec<bool> = make_false(n);
        let mut stack: Vec<usize> = Vec::new();
        push_all(&mut stack, roots);
        proof {
            assert forall|j: int| 0 <= j < stack@.len()
                implies reachable_from(*self, roots@, stack@[j]) by {
                assert(roots@.contains(stack@[j]));
                lemma_root_reachable(*self, roots@, stack@[j]);
            }
        }
        let mut out: Vec<usize> = Vec::new();
        while stack.len() > 0
            invariant
                n == self.nodes@.len(),
                visited@.len() == n,
                forall|j: int| 0 <= j < stack@.len()
                    ==> reachable_from(*self, roots@, stack@[j]),
                forall|j: int| 0 <= j < out@.len() ==> (out@[j] as int) < n,
                distinct(out@),
                forall|i: int| 0 <= i < n ==> (visited@[i] <==> out@.contains(i as usize)),
                forall|j: int| 0 <= j < roots@.len()
                    ==> out@.contains(roots@[j]) || stack@.contains(roots@[j]),
                forall|j: int, c: int| 0 <= j < out@.len()
                    && 0 <= c < self.nodes@[out@[j] as int].children@.len()
                    ==> out@.contains(self.nodes@[out@[j] as int].children@[c])
                        || stack@.contains(self.nodes@[out@[j] as int].children@[c]),
            decreases unvisited_count(visited@), stack@.len(),
        {
            let ghost old_stack = stack@;
            let node_i: usize = match stack.pop() {
                Some(x) => x,
                None => { return Ok(out); },  // not reached: the stack is non-empty
            };
            proof {
                assert(old_stack.contains(node_i));
                assert forall|v: usize| stack@.contains(v) implies old_stack.contains(v) by {
                    let j = choose|j: int| 0 <= j < stack@.len() && stack@[j] == v;
                    assert(old_stack[j] == v);
                }
            }
            if node_i >= n {
                proof {
                    assert(reachable_from(*self, roots@, node_i));
                }
                return Err(Error::IndexOutOfRange { index: node_i });
            }
            if !visited[node_i] {
                let ghost old_visited = visited@;
                let ghost old_out = out@;
                visited.set(node_i, true);
                out.push(node_i);
                proof {
                    lemma_unvisited_update(old_visited, node_i as int);
                    assert forall|i: int| 0 <= i < n
                        implies (visited@[i] <==> out@.contains(i as usize)) by {
                        if i == node_i {
                            assert(out@[out@.len() - 1] == node_i);
                        } else {
                            if old_out.contains(i as usize) {
                                let j = choose|j: int| 0 <= j < old_out.len()
                                    && old_out[j] == i as usize;
                                assert(out@[j] == i as usize);
                            }
                            if out@.contains(i as usize) {
                                let j = choose|j: int| 0 <= j < out@.len()
                                    && out@[j] == i as usize;
                                assert(old_out[j] == i as usize);
                            }
                        }
                    }
                }
                let ghost mid_stack = stack@;
                push_all(&mut stack, &self.nodes[node_i].children);
                proof {
                    let ch = self.nodes@[node_i as int].children@;
                    assert forall|j: int| 0 <= j < stack@.len()
                        implies reachable_from(*self, roots@, stack@[j]) by {
                        if j < mid_stack.len() {
                            assert(stack@[j] == mid_stack[j]);
                        } else {
                            assert(stack@[j] == ch[j - mid_stack.len()]);
                            assert(ch.contains(stack@[j]));
                            lemma_step_reachable(*self, roots@, node_i, stack@[j]);
                        }
                    }
                    assert forall|v: usize| mid_stack.contains(v)
                        implies stack@.contains(v) by {
                        let j = choose|j: int| 0 <= j < mid_stack.len() && mid_stack[j] == v;
                        assert(stack@[j] == v);
                    }
                    assert forall|c: int| 0 <= c < ch.len()
                        implies stack@.contains(ch[c]) by {
                        assert(stack@[mid_stack.len() + c] == ch[c]);
                    }
                    assert forall|j: int, c: int| 0 <= j < out@.len()
                        && 0 <= c < self.nodes@[out@[j] as int].children@.len()
                        implies out@.contains(self.nodes@[out@[j] as int].children@[c])
                            || stack@.contains(self.nodes@[out@[j] as int].children@[c]) by {
                        let w = self.nodes@[out@[j] as int].children@[c];
                        if j < old_out.len() {
                            assert(out@[j] == old_out[j]);
                            assert(old_out.contains(w) || old_stack.contains(w));
                            if old_out.contains(w) {
                                let x = choose|x: int| 0 <= x < old_out.len() && old_out[x] == w;
                                assert(out@[x] == w);
                                assert(out@.contains(w));
                            } else if w == node_i {
                                assert(out@[out@.len() - 1] == w);
                                assert(out@.contains(w));
                            } else {
                                let x = choose|x: int| 0 <= x < old_stack.len()
                                    && old_stack[x] == w;
                                assert(x < old_stack.len() - 1);
                                assert(mid_stack[x] == w);
                                assert(mid_stack.contains(w));
                                assert(stack@.contains(w));
                            }
                        } else {
                            assert(out@[j] == node_i);
                            assert(ch.contains(w));
                            assert(stack@.contains(w));
                        }
                    }
                    assert forall|j: int| 0 <= j < roots@.len()
                        implies out@.contains(roots@[j]) || stack@.contains(roots@[j]) by {
                        let w = roots@[j];
                        assert(old_out.contains(w) || old_stack.contains(w));
                        if old_out.contains(w) {
                            let x = choose|x: int| 0 <= x < old_out.len() && old_out[x] == w;
                            assert(out@[x] == w);
                            assert(out@.contains(w));
                        } else if w == node_i {
                            assert(out@[out@.len() - 1] == w);
                            assert(out@.contains(w));
                        } else {
                            let x = choose|x: int| 0 <= x < old_stack.len()
                                && old_stack[x] == w;
                            assert(x < old_stack.len() - 1);
                            assert(mid_stack[x] == w);
                            assert(mid_stack.contains(w));
                            assert(stack@.contains(w));
                        }
                    }
                }
            } else {
                proof {
                    assert forall|j: int| 0 <= j < roots@.len()
                        implies out@.contains(roots@[j]) || stack@.contains(roots@[j]) by {
                        let w = roots@[j];
                        if !out@.contains(w) && old_stack.contains(w) {
                            if w == node_i {
                                assert(visited@[node_i as int]);
                            } else {
                                let x = choose|x: int| 0 <= x < old_stack.len()
                                    && old_stack[x] == w;
                                assert(x < old_stack.len() - 1);
                                assert(stack@[x] == w);
                            }
                        }
                    }
                    assert forall|j: int, c: int| 0 <= j < out@.len()
                        && 0 <= c < self.nodes@[out@[j] as int].children@.len()
                        implies out@.contains(self.nodes@[out@[j] as int].children@[c])
                            || stack@.contains(self.nodes@[out@[j] as int].children@[c]) by {
                        let w = self.nodes@[out@[j] as int].children@[c];
                        if !out@.contains(w) && old_stack.contains(w) {
                            if w == node_i {
                                assert(visited@[node_i as int]);
                            } else {
                                let x = choose|x: int| 0 <= x < old_stack.len()
                                    && old_stack[x] == w;
                                assert(x < old_stack.len() - 1);
                                assert(stack@[x] == w);
                            }
                        }
                    }
                }
            }
        }
        Ok(out)
    }
}

} // verus!
