//! The model loader: walks every scene's node tree and loads each primitive of
//! each mesh it meets into one flat list of meshes.

use vstd::prelude::*;
use crate::error::LoadError;
use crate::mesh::{
    MeshData, PrimitiveDesc, load_primitive, mesh_matches, primitive_error, primitive_ok,
};

verus! {

/// A mesh of the document: a name and its primitives.
pub struct MeshDesc {
    pub name: Option<String>,
    pub primitives: Vec<PrimitiveDesc>,
}

/// A node of a scene, with the mesh it carries, if any, and its children.
pub struct Node {
    pub mesh: Option<MeshDesc>,
    pub children: Vec<Node>,
}

/// A scene: its root nodes.
pub struct Scene {
    pub nodes: Vec<Node>,
}

/// A parsed scene document with its binary buffers resolved.
pub struct Document {
    pub scenes: Vec<Scene>,
    pub buffers: Vec<Vec<u8>>,
}

/// Loads scene documents into models.
pub struct GLTFLoader {}

/// The loaded meshes, in traversal order.
pub struct Model {
    pub meshes: Vec<MeshData>,
}

/// A primitive together with the name of the mesh it belongs to.
pub type NamedPrimitive = (Option<String>, PrimitiveDesc);

pub open spec fn mesh_primitive_seq(mesh: Option<MeshDesc>) -> Seq<NamedPrimitive> {
    match mesh {
        None => Seq::empty(),
        Some(m) => m.primitives@.map_values(|p: PrimitiveDesc| (m.name, p)),
    }
}

/// The primitives met below a node, its own first, then each child's in turn.
pub open spec fn node_primitive_seq(n: Node) -> Seq<NamedPrimitive>
    decreases n, n.children@.len() + 1,
{
    mesh_primitive_seq(n.mesh) + children_primitive_seq(n, n.children@.len() as int)
}

/// The primitives met below the first `k` children of a node.
pub open spec fn children_primitive_seq(n: Node, k: int) -> Seq<NamedPrimitive>
    decreases n, k,
{
    if k <= 0 || k > n.children@.len() {
        Seq::empty()
    } else {
        children_primitive_seq(n, k - 1) + node_primitive_seq(n.children[k - 1])
    }
}

/// The primitives met below the first `k` roots of a scene.
pub open spec fn roots_primitive_seq(nodes: Seq<Node>, k: int) -> Seq<NamedPrimitive>
    decreases k,
{
    if k <= 0 || k > nodes.len() {
        Seq::empty()
    } else {
        roots_primitive_seq(nodes, k - 1) + node_primitive_seq(nodes[k - 1])
    }
}

/// The primitives met in the first `k` scenes of a document.
pub open spec fn scenes_primitive_seq(scenes: Seq<Scene>, k: int) -> Seq<NamedPrimitive>
    decreases k,
{
    if k <= 0 || k > scenes.len() {
        Seq::empty()
    } else {
        scenes_primitive_seq(scenes, k - 1) + roots_primitive_seq(
            scenes[k - 1].nodes@,
            scenes[k - 1].nodes@.len() as int,
        )
    }
}

/// Every primitive of the document, in traversal order.
pub open spec fn document_primitives(doc: Document) -> Seq<NamedPrimitive> {
    scenes_primitive_seq(doc.scenes@, doc.scenes@.len() as int)
}

/// The error of the first primitive that fails to load, if one does.
pub open spec fn first_error(prims: Seq<NamedPrimitive>, buffers: Seq<Vec<u8>>) -> Option<
    LoadError,
>
    decreases prims.len(),
{
    if prims.len() == 0 {
        None
    } else if !primitive_ok(prims[0].1, buffers) {
        Some(primitive_error(prims[0].1, buffers))
    } else {
        first_error(prims.drop_first(), buffers)
    }
}

/// Each mesh is the loaded form of the primitive at its place.
pub open spec fn meshes_match(
    meshes: Seq<MeshData>,
    prims: Seq<NamedPrimitive>,
    buffers: Seq<Vec<u8>>,
    frames: nat,
) -> bool {
    &&& meshes.len() == prims.len()
    &&& forall|i: int|
        0 <= i < prims.len() ==> mesh_matches(
            #[trigger] meshes[i],
            prims[i].0,
            prims[i].1,
            buffers,
            frames,
        )
}

/// The outcome of loading a sequence of primitives after `before`: the meshes
/// grow by one per primitive, or the first failure is reported.
pub open spec fn load_step_ok(
    before: Seq<MeshData>,
    after: Seq<MeshData>,
    r: Result<(), LoadError>,
    prims: Seq<NamedPrimitive>,
    buffers: Seq<Vec<u8>>,
    frames: nat,
) -> bool {
    &&& (r is Ok <==> first_error(prims, buffers) is None)
    &&& (r matches Err(e) ==> first_error(prims, buffers) == Some(e))
    &&& (r is Ok ==> {
        &&& after.len() == before.len() + prims.len()
        &&& after.subrange(0, before.len() as int) == before
        &&& meshes_match(after.subrange(before.len() as int, after.len() as int), prims, buffers, frames)
    })
}

pub proof fn lemma_first_error_append(a: Seq<NamedPrimitive>, b: Seq<NamedPrimitive>, buffers: Seq<Vec<u8>>)
    ensures
        first_error(a + b, buffers) == (if first_error(a, buffers) is Some {
            first_error(a, buffers)
        } else {
            first_error(b, buffers)
        }),
    decreases a.len(),
{
    if a.len() == 0 {
        assert(a + b =~= b);
    } else {
        assert((a + b).drop_first() =~= a.drop_first() + b);
        lemma_first_error_append(a.drop_first(), b, buffers);
    }
}

proof fn lemma_step_compose(
    m0: Seq<MeshData>,
    m1: Seq<MeshData>,
    m2: Seq<MeshData>,
    r1: Result<(), LoadError>,
    r2: Result<(), LoadError>,
    a: Seq<NamedPrimitive>,
    b: Seq<NamedPrimitive>,
    buffers: Seq<Vec<u8>>,
    frames: nat,
)
    requires
        load_step_ok(m0, m1, r1, a, buffers, frames),
        r1 is Ok,
        load_step_ok(m1, m2, r2, b, buffers, frames),
    ensures
        load_step_ok(m0, m2, r2, a + b, buffers, frames),
{
    lemma_first_error_append(a, b, buffers);
    if r2 is Ok {
        let s1 = m1.subrange(m0.len() as int, m1.len() as int);
        let s2 = m2.subrange(m1.len() as int, m2.len() as int);
        assert(m2.subrange(0, m0.len() as int) =~= m0) by {
            assert forall|j: int| 0 <= j < m0.len() implies m2[j] == m0[j] by {
                assert(m2.subrange(0, m1.len() as int)[j] == m1[j]);
                assert(m1.subrange(0, m0.len() as int)[j] == m0[j]);
            }
        }
        let s = m2.subrange(m0.len() as int, m2.len() as int);
        assert(s =~= s1 + s2) by {
            assert forall|j: int| 0 <= j < s1.len() implies s[j] == s1[j] by {
                assert(m2.subrange(0, m1.len() as int)[m0.len() + j] == m1[m0.len() + j]);
            }
        }
        assert forall|i: int| 0 <= i < (a + b).len() implies mesh_matches(
            #[trigger] s[i],
            (a + b)[i].0,
            (a + b)[i].1,
            buffers,
            frames,
        ) by {
            if i < a.len() {
                assert(s[i] == s1[i]);
            } else {
                assert(s[i] == s2[i - a.len()]);
            }
        }
    }
}

proof fn lemma_step_empty(m: Seq<MeshData>, buffers: Seq<Vec<u8>>, frames: nat)
    ensures
        load_step_ok(m, m, Ok(()), Seq::empty(), buffers, frames),
{
    assert(m.subrange(0, m.len() as int) =~= m);
    assert(m.subrange(m.len() as int, m.len() as int) =~= Seq::<MeshData>::empty());
}

/// Loads every primitive of one mesh, one after the other.
pub fn load_mesh(
    mesh: &MeshDesc,
    buffers: &Vec<Vec<u8>>,
    frames: usize,
    meshes: &mut Vec<MeshData>,
) -> (r: Result<(), LoadError>)
    requires
        4 * frames <= usize::MAX,
    ensures
        load_step_ok(
            old(meshes)@,
            final(meshes)@,
            r,
            mesh_primitive_seq(Some(*mesh)),
            buffers@,
            frames as nat,
        ),
{
    let ghost start = meshes@;
    let ghost all = mesh_primitive_seq(Some(*mesh));
    proof {
        lemma_step_empty(start, buffers@, frames as nat);
        assert(all.subrange(0, 0) =~= Seq::<NamedPrimitive>::empty());
    }
    let mut i: usize = 0;
    while i < mesh.primitives.len()
        invariant
            4 * frames <= usize::MAX,
            i <= mesh.primitives@.len(),
            all == mesh_primitive_seq(Some(*mesh)),
            all.len() == mesh.primitives@.len(),
            load_step_ok(start, meshes@, Ok(()), all.subrange(0, i as int), buffers@, frames as nat),
        decreases mesh.primitives@.len() - i,
    {
        let ghost before = meshes@;
        let one = load_primitive(&mesh.primitives[i], &mesh.name, buffers, frames);
        let ghost item = seq![all[i as int]];
        assert(item[0] == (mesh.name, mesh.primitives@[i as int]));
        proof {
            assert(item.drop_first() =~= Seq::<NamedPrimitive>::empty());
            assert(all.subrange(0, i + 1) =~= all.subrange(0, i as int) + item);
        }
        match one {
            Err(e) => {
                proof {
                    lemma_first_error_append(all.subrange(0, i as int), item, buffers@);
                    lemma_first_error_append(
                        all.subrange(0, i + 1),
                        all.subrange(i + 1, all.len() as int),
                        buffers@,
                    );
                    assert(all =~= all.subrange(0, i + 1) + all.subrange(i + 1, all.len() as int));
                }
                return Err(e);
            },
            Ok(m) => {
                meshes.push(m);
                proof {
                    assert(meshes@.subrange(before.len() as int, meshes@.len() as int) =~= seq![m]);
                    assert(meshes@.subrange(0, before.len() as int) =~= before);
                    assert(meshes@.subrange(before.len() as int, meshes@.len() as int)[0] == m);
                    assert(primitive_ok(item[0].1, buffers@));
                    assert(first_error(item.drop_first(), buffers@) is None);
                    assert(first_error(item, buffers@) is None);
                    assert(mesh_matches(m, item[0].0, item[0].1, buffers@, frames as nat));
                    assert(load_step_ok(before, meshes@, Ok(()), item, buffers@, frames as nat));
                    lemma_step_compose(
                        start,
                        before,
                        meshes@,
                        Ok(()),
                        Ok(()),
                        all.subrange(0, i as int),
                        item,
                        buffers@,
                        frames as nat,
                    );
                }
            },
        }
        i = i + 1;
    }
    proof {
        assert(all.subrange(0, i as int) =~= all);
    }
    Ok(())
}


proof fn lemma_first_error_prefix(a: Seq<NamedPrimitive>, b: Seq<NamedPrimitive>, buffers: Seq<Vec<u8>>)
    requires
        first_error(a, buffers) is Some,
    ensures
        first_error(a + b, buffers) == first_error(a, buffers),
{
    lemma_first_error_append(a, b, buffers);
}

proof fn lemma_children_error_extends(n: Node, k: int, j: int, buffers: Seq<Vec<u8>>)
    requires
        0 <= k <= j <= n.children@.len(),
        first_error(children_primitive_seq(n, k), buffers) is Some,
    ensures
        first_error(children_primitive_seq(n, j), buffers) == first_error(
            children_primitive_seq(n, k),
            buffers,
        ),
    decreases j - k,
{
    if j > k {
        lemma_children_error_extends(n, k, j - 1, buffers);
        lemma_first_error_prefix(
            children_primitive_seq(n, j - 1),
            node_primitive_seq(n.children[j - 1]),
            buffers,
        );
    }
}

proof fn lemma_roots_error_extends(nodes: Seq<Node>, k: int, j: int, buffers: Seq<Vec<u8>>)
    requires
        0 <= k <= j <= nodes.len(),
        first_error(roots_primitive_seq(nodes, k), buffers) is Some,
    ensures
        first_error(roots_primitive_seq(nodes, j), buffers) == first_error(
            roots_primitive_seq(nodes, k),
            buffers,
        ),
    decreases j - k,
{
    if j > k {
        lemma_roots_error_extends(nodes, k, j - 1, buffers);
        lemma_first_error_prefix(
            roots_primitive_seq(nodes, j - 1),
            node_primitive_seq(nodes[j - 1]),
            buffers,
        );
    }
}

proof fn lemma_scenes_error_extends(scenes: Seq<Scene>, k: int, j: int, buffers: Seq<Vec<u8>>)
    requires
        0 <= k <= j <= scenes.len(),
        first_error(scenes_primitive_seq(scenes, k), buffers) is Some,
    ensures
        first_error(scenes_primitive_seq(scenes, j), buffers) == first_error(
            scenes_primitive_seq(scenes, k),
            buffers,
        ),
    decreases j - k,
{
    if j > k {
        lemma_scenes_error_extends(scenes, k, j - 1, buffers);
        lemma_first_error_prefix(
            scenes_primitive_seq(scenes, j - 1),
            roots_primitive_seq(scenes[j - 1].nodes@, scenes[j - 1].nodes@.len() as int),
            buffers,
        );
    }
}

impl GLTFLoader {
    /// Loads the mesh of a node, if it has one, then each of its children in turn.
    pub fn load_node(
        node: &Node,
        buffers: &Vec<Vec<u8>>,
        frames: usize,
        meshes: &mut Vec<MeshData>,
    ) -> (r: Result<(), LoadError>)
        requires
            4 * frames <= usize::MAX,
        ensures
            load_step_ok(
                old(meshes)@,
                final(meshes)@,
                r,
                node_primitive_seq(*node),
                buffers@,
                frames as nat,
            ),
        decreases node,
    {
        let ghost start = meshes@;
        let ghost own = mesh_primitive_seq(node.mesh);
        match &node.mesh {
            Some(m) => {
                let r = load_mesh(m, buffers, frames, meshes);
                if r.is_err() {
                    proof {
                        lemma_first_error_prefix(
                            own,
                            children_primitive_seq(*node, node.children@.len() as int),
                            buffers@,
                        );
                    }
                    return r;
                }
            },
            None => {
                proof {
                    lemma_step_empty(start, buffers@, frames as nat);
                }
            },
        }
        proof {
            assert(own + children_primitive_seq(*node, 0) =~= own);
        }
        let mut k: usize = 0;
        while k < node.children.len()
            invariant
                4 * frames <= usize::MAX,
                k <= node.children@.len(),
                own == mesh_primitive_seq(node.mesh),
                load_step_ok(
                    start,
                    meshes@,
                    Ok(()),
                    own + children_primitive_seq(*node, k as int),
                    buffers@,
                    frames as nat,
                ),
            decreases node.children@.len() - k,
        {
            let ghost before = meshes@;
            let ghost prefix = own + children_primitive_seq(*node, k as int);
            let ghost child = node_primitive_seq(node.children[k as int]);
            assert(prefix + child =~= own + children_primitive_seq(*node, k + 1));
            let r = Self::load_node(&node.children[k], buffers, frames, meshes);
            proof {
                lemma_step_compose(start, before, meshes@, Ok(()), r, prefix, child, buffers@, frames as nat);
            }
            if r.is_err() {
                proof {
                    let e = first_error(prefix + child, buffers@);
                    lemma_first_error_append(own, children_primitive_seq(*node, k + 1), buffers@);
                    lemma_first_error_append(
                        own,
                        children_primitive_seq(*node, node.children@.len() as int),
                        buffers@,
                    );
                    if first_error(own, buffers@) is None {
                        lemma_children_error_extends(
                            *node,
                            k + 1,
                            node.children@.len() as int,
                            buffers@,
                        );
                    }
                }
                return r;
            }
            k = k + 1;
        }
        Ok(())
    }

    /// Loads the nodes below each of the given roots, root after root.
    pub fn load_roots(
        nodes: &Vec<Node>,
        buffers: &Vec<Vec<u8>>,
        frames: usize,
        meshes: &mut Vec<MeshData>,
    ) -> (r: Result<(), LoadError>)
        requires
            4 * frames <= usize::MAX,
        ensures
            load_step_ok(
                old(meshes)@,
                final(meshes)@,
                r,
                roots_primitive_seq(nodes@, nodes@.len() as int),
                buffers@,
                frames as nat,
            ),
    {
        let ghost start = meshes@;
        proof {
            lemma_step_empty(start, buffers@, frames as nat);
        }
        let mut k: usize = 0;
        while k < nodes.len()
            invariant
                4 * frames <= usize::MAX,
                k <= nodes@.len(),
                load_step_ok(
                    start,
                    meshes@,
                    Ok(()),
                    roots_primitive_seq(nodes@, k as int),
                    buffers@,
                    frames as nat,
                ),
            decreases nodes@.len() - k,
        {
            let ghost before = meshes@;
            let ghost prefix = roots_primitive_seq(nodes@, k as int);
            let ghost child = node_primitive_seq(nodes@[k as int]);
            assert(prefix + child == roots_primitive_seq(nodes@, k + 1));
            let r = Self::load_node(&nodes[k], buffers, frames, meshes);
            proof {
                lemma_step_compose(start, before, meshes@, Ok(()), r, prefix, child, buffers@, frames as nat);
            }
            if r.is_err() {
                proof {
                    lemma_roots_error_extends(nodes@, k + 1, nodes@.len() as int, buffers@);
                }
                return r;
            }
            k = k + 1;
        }
        Ok(())
    }

    /// Loads every primitive reachable from every scene's roots into one model.
    /// The first primitive that fails ends the load with its error.
    pub fn load(doc: &Document, frames: usize) -> (r: Result<Model, LoadError>)
        requires
            4 * frames <= usize::MAX,
        ensures
            r is Ok <==> first_error(document_primitives(*doc), doc.buffers@) is None,
            r matches Err(e) ==> first_error(document_primitives(*doc), doc.buffers@) == Some(e),
            r matches Ok(m) ==> {
                &&& m.meshes@.len() == document_primitive_count(*doc)
                &&& meshes_match(
                    m.meshes@,
                    document_primitives(*doc),
                    doc.buffers@,
                    frames as nat,
                )
            },
    {
        let mut meshes: Vec<MeshData> = Vec::new();
        let ghost scenes = doc.scenes@;
        proof {
            lemma_step_empty(meshes@, doc.buffers@, frames as nat);
        }
        let mut k: usize = 0;
        while k < doc.scenes.len()
            invariant
                4 * frames <= usize::MAX,
                scenes == doc.scenes@,
                k <= scenes.len(),
                load_step_ok(
                    Seq::empty(),
                    meshes@,
                    Ok(()),
                    scenes_primitive_seq(scenes, k as int),
                    doc.buffers@,
                    frames as nat,
                ),
            decreases scenes.len() - k,
        {
            let ghost before = meshes@;
            let ghost prefix = scenes_primitive_seq(scenes, k as int);
            let ghost part = roots_primitive_seq(
                scenes[k as int].nodes@,
                scenes[k as int].nodes@.len() as int,
            );
            assert(prefix + part == scenes_primitive_seq(scenes, k + 1));
            let r = Self::load_roots(&doc.scenes[k].nodes, &doc.buffers, frames, &mut meshes);
            proof {
                lemma_step_compose(
                    Seq::empty(),
                    before,
                    meshes@,
                    Ok(()),
                    r,
                    prefix,
                    part,
                    doc.buffers@,
                    frames as nat,
                );
            }
            match r {
                Err(e) => {
                    proof {
                        lemma_scenes_error_extends(scenes, k + 1, scenes.len() as int, doc.buffers@);
                    }
                    return Err(e);
                },
                Ok(()) => {},
            }
            k = k + 1;
        }
        proof {
            assert(meshes@.subrange(0, meshes@.len() as int) =~= meshes@);
            lemma_document_primitive_count(*doc);
        }
        Ok(Model { meshes })
    }
}

pub open spec fn mesh_primitive_count(mesh: Option<MeshDesc>) -> nat {
    match mesh {
        None => 0,
        Some(m) => m.primitives@.len(),
    }
}

/// The primitives of a node's own mesh plus those below its children.
pub open spec fn node_primitive_count(n: Node) -> nat
    decreases n, n.children@.len() + 1,
{
    mesh_primitive_count(n.mesh) + children_primitive_count(n, n.children@.len() as int)
}

pub open spec fn children_primitive_count(n: Node, k: int) -> nat
    decreases n, k,
{
    if k <= 0 || k > n.children@.len() {
        0
    } else {
        children_primitive_count(n, k - 1) + node_primitive_count(n.children[k - 1])
    }
}

pub open spec fn roots_primitive_count(nodes: Seq<Node>, k: int) -> nat
    decreases k,
{
    if k <= 0 || k > nodes.len() {
        0
    } else {
        roots_primitive_count(nodes, k - 1) + node_primitive_count(nodes[k - 1])
    }
}

pub open spec fn scenes_primitive_count(scenes: Seq<Scene>, k: int) -> nat
    decreases k,
{
    if k <= 0 || k > scenes.len() {
        0
    } else {
        scenes_primitive_count(scenes, k - 1) + roots_primitive_count(
            scenes[k - 1].nodes@,
            scenes[k - 1].nodes@.len() as int,
        )
    }
}

/// The primitives of all mesh-bearing nodes reachable from any scene root.
pub open spec fn document_primitive_count(doc: Document) -> nat {
    scenes_primitive_count(doc.scenes@, doc.scenes@.len() as int)
}

proof fn lemma_node_count(n: Node)
    ensures
        node_primitive_seq(n).len() == node_primitive_count(n),
    decreases n, n.children@.len() + 1,
{
    lemma_children_count(n, n.children@.len() as int);
}

proof fn lemma_children_count(n: Node, k: int)
    ensures
        children_primitive_seq(n, k).len() == children_primitive_count(n, k),
    decreases n, k,
{
    if 0 < k <= n.children@.len() {
        lemma_children_count(n, k - 1);
        lemma_node_count(n.children[k - 1]);
    }
}

proof fn lemma_roots_count(nodes: Seq<Node>, k: int)
    ensures
        roots_primitive_seq(nodes, k).len() == roots_primitive_count(nodes, k),
    decreases k,
{
    if 0 < k <= nodes.len() {
        lemma_roots_count(nodes, k - 1);
        lemma_node_count(nodes[k - 1]);
    }
}

proof fn lemma_scenes_count(scenes: Seq<Scene>, k: int)
    ensures
        scenes_primitive_seq(scenes, k).len() == scenes_primitive_count(scenes, k),
    decreases k,
{
    if 0 < k <= scenes.len() {
        lemma_scenes_count(scenes, k - 1);
        lemma_roots_count(scenes[k - 1].nodes@, scenes[k - 1].nodes@.len() as int);
    }
}

/// A document yields one mesh per primitive of every mesh-bearing node reachable
/// from any scene root: the primitives that loading walks are exactly that many.
pub proof fn lemma_document_primitive_count(doc: Document)
    ensures
        document_primitives(doc).len() == document_primitive_count(doc),
{
    lemma_scenes_count(doc.scenes@, doc.scenes@.len() as int);
}

} // verus!
