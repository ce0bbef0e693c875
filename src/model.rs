//! Meshes and models: checking parsed geometry, building interleaved vertex
//! records, and planning the draw calls that render a model.

use vstd::prelude::*;
use crate::bytes::words_as_bytes;

verus! {

/// Number of 32-bit words in a vertex record: position (3), texture
/// coordinates (2) and normal (3).
pub const VERTEX_WORDS: usize = 8;

/// Why an asset could not be loaded or a model could not be built.
#[derive(Clone, Copy, Debug, PartialEq, Eq, Structural)]
pub enum AssetError {
    /// Malformed or incomplete geometry.
    ParseError,
    /// A description or texture could not be read.
    IoError,
    /// A texture could not be decoded.
    MaterialLoadError,
}

/// One submesh as parsed from a description. Every float component is held
/// as its IEEE-754 bit pattern.
pub struct RawMesh {
    pub name: String,
    pub positions: Vec<u32>,
    pub texcoords: Vec<u32>,
    pub normals: Vec<u32>,
    pub indices: Vec<u32>,
    pub material_id: Option<usize>,
}

/// Number of vertices that a list of positions describes.
pub open spec fn vertex_count(positions: Seq<u32>) -> int {
    (positions.len() / 3) as int
}

/// Whether positions, texture coordinates and normals suffice to build one
/// vertex record for each three position components.
pub open spec fn geometry_ok(positions: Seq<u32>, texcoords: Seq<u32>, normals: Seq<u32>) -> bool {
    &&& positions.len() % 3 == 0
    &&& texcoords.len() >= 2 * vertex_count(positions)
    &&& normals.len() >= 3 * vertex_count(positions)
}

/// Word `k` of the interleaved vertex records.
pub open spec fn vertex_word(
    positions: Seq<u32>,
    texcoords: Seq<u32>,
    normals: Seq<u32>,
    k: int,
) -> u32 {
    let i = k / 8;
    let j = k % 8;
    if j < 3 {
        positions[3 * i + j]
    } else if j < 5 {
        texcoords[2 * i + (j - 3)]
    } else {
        normals[3 * i + (j - 5)]
    }
}

/// The vertex records, one after another: for vertex `i`, position words
/// `3i..3i+3`, texture-coordinate words `2i..2i+2`, normal words `3i..3i+3`.
pub open spec fn interleaved(positions: Seq<u32>, texcoords: Seq<u32>, normals: Seq<u32>) -> Seq<
    u32,
> {
    Seq::new((8 * vertex_count(positions)) as nat, |k: int| vertex_word(positions, texcoords, normals, k))
}

/// The material a submesh uses: the one it names, else the first.
pub open spec fn material_of(id: Option<usize>) -> usize {
    match id {
        Some(m) => m,
        None => 0,
    }
}

/// Whether a parsed submesh can become a mesh of a model with
/// `material_count` materials.
pub open spec fn raw_mesh_ok(raw: RawMesh, material_count: int) -> bool {
    &&& geometry_ok(raw.positions@, raw.texcoords@, raw.normals@)
    &&& raw.indices@.len() <= u32::MAX
    &&& material_of(raw.material_id) < material_count
}

proof fn lemma_word_split(i: int, j: int)
    requires
        0 <= i,
        0 <= j < 8,
    ensures
        (8 * i + j) / 8 == i,
        (8 * i + j) % 8 == j,
{
    vstd::arithmetic::div_mod::lemma_fundamental_div_mod_converse(8 * i + j, 8, i, j);
}

/// Builds the interleaved vertex records of a submesh, or `ParseError` when
/// its geometry is incomplete.
pub fn build_vertices(positions: &Vec<u32>, texcoords: &Vec<u32>, normals: &Vec<u32>) -> (r: Result<
    Vec<u32>,
    AssetError,
>)
    requires
        positions@.len() <= usize::MAX / 3,
    ensures
        r is Ok <==> geometry_ok(positions@, texcoords@, normals@),
        r matches Err(e) ==> e == AssetError::ParseError,
        r matches Ok(v) ==> v@ == interleaved(positions@, texcoords@, normals@),
{
    let n = positions.len() / 3;
    if positions.len() % 3 != 0 || texcoords.len() / 2 < n || normals.len() / 3 < n {
        return Err(AssetError::ParseError);
    }
    let ghost p = positions@;
    let ghost t = texcoords@;
    let ghost nm = normals@;
    let mut out: Vec<u32> = Vec::new();
    let mut i: usize = 0;
    while i < n
        invariant
            n == vertex_count(p),
            geometry_ok(p, t, nm),
            p == positions@,
            t == texcoords@,
            nm == normals@,
            p.len() <= usize::MAX / 3,
            0 <= i <= n,
            out@.len() == 8 * i,
            forall|k: int| 0 <= k < 8 * i ==> out@[k] == vertex_word(p, t, nm, k),
        decreases n - i,
    {
        let ghost before = out@;
        out.push(positions[3 * i]);
        out.push(positions[3 * i + 1]);
        out.push(positions[3 * i + 2]);
        out.push(texcoords[2 * i]);
        out.push(texcoords[2 * i + 1]);
        out.push(normals[3 * i]);
        out.push(normals[3 * i + 1]);
        out.push(normals[3 * i + 2]);
        proof {
            assert forall|k: int| 0 <= k < 8 * (i + 1) implies out@[k] == vertex_word(p, t, nm, k) by {
                if k >= 8 * i {
                    lemma_word_split(i as int, k - 8 * i);
                } else {
                    assert(out@[k] == before[k]);
                }
            }
        }
        i = i + 1;
    }
    proof {
        assert(out@ =~= interleaved(p, t, nm));
    }
    Ok(out)
}

/// A submesh ready for upload: interleaved vertex records, its index list,
/// and the material it is drawn with.
pub struct Mesh {
    pub name: String,
    pub vertices: Vec<u32>,
    pub indices: Vec<u32>,
    pub num_elements: u32,
    pub material: usize,
}

impl Mesh {
    /// Whether this mesh is the one built from `raw`.
    pub open spec fn built_from(&self, raw: &RawMesh) -> bool {
        &&& self.name@ == raw.name@
        &&& self.vertices@ == interleaved(raw.positions@, raw.texcoords@, raw.normals@)
        &&& self.indices@ == raw.indices@
        &&& self.num_elements as int == raw.indices@.len()
        &&& self.material == material_of(raw.material_id)
    }

    /// Builds a mesh for a model with `material_count` materials. Fails with
    /// `ParseError` on incomplete geometry, on more indices than a `u32`
    /// counts, and on a material index out of range.
    pub fn from_raw(raw: RawMesh, material_count: usize) -> (r: Result<Mesh, AssetError>)
        requires
            raw.positions@.len() <= usize::MAX / 3,
        ensures
            r is Ok <==> raw_mesh_ok(raw, material_count as int),
            r matches Err(e) ==> e == AssetError::ParseError,
            r matches Ok(m) ==> m.built_from(&raw),
    {
        let material = match raw.material_id {
            Some(m) => m,
            None => 0,
        };
        if material >= material_count || raw.indices.len() > u32::MAX as usize {
            return Err(AssetError::ParseError);
        }
        let vertices = match build_vertices(&raw.positions, &raw.texcoords, &raw.normals) {
            Ok(v) => v,
            Err(e) => {
                return Err(e);
            },
        };
        let num_elements = raw.indices.len() as u32;
        Ok(Mesh { name: raw.name, vertices, indices: raw.indices, num_elements, material })
    }

    /// The bytes of the vertex buffer: four for each word.
    pub fn vertex_bytes(&self) -> (b: Vec<u8>)
        ensures
            b@.len() == 4 * self.vertices@.len(),
    {
        words_as_bytes(&self.vertices)
    }

    /// The bytes of the index buffer: four for each index.
    pub fn index_bytes(&self) -> (b: Vec<u8>)
        ensures
            b@.len() == 4 * self.indices@.len(),
    {
        words_as_bytes(&self.indices)
    }
}

/// One instanced, indexed draw: mesh `mesh` with material `material`,
/// indices `0..index_count` and instances `0..instance_count`.
#[derive(Clone, Copy, Debug, PartialEq, Eq, Structural)]
pub struct DrawCall {
    pub mesh: usize,
    pub material: usize,
    pub index_count: u32,
    pub instance_count: u32,
}

/// An ordered list of meshes and the materials they are drawn with.
pub struct Model<M> {
    pub meshes: Vec<Mesh>,
    pub materials: Vec<M>,
}

impl<M> Model<M> {
    /// Every mesh names a material of the model and counts its indices.
    pub open spec fn wf(&self) -> bool {
        forall|i: int|
            0 <= i < self.meshes@.len() ==> {
                &&& #[trigger] self.meshes@[i].material < self.materials@.len()
                &&& self.meshes@[i].num_elements as int == self.meshes@[i].indices@.len()
            }
    }

    /// Assembles a model from its parsed submeshes and its loaded materials,
    /// as one unit: `ParseError` if any submesh cannot be built, and then no
    /// model at all. Mesh `i` is built from submesh `i`.
    pub fn from_parts(raws: Vec<RawMesh>, materials: Vec<M>) -> (r: Result<Model<M>, AssetError>)
        requires
            forall|i: int| 0 <= i < raws@.len() ==> (#[trigger] raws@[i]).positions@.len() <= usize::MAX / 3,
        ensures
            r is Ok <==> forall|i: int| 0 <= i < raws@.len() ==> raw_mesh_ok(#[trigger] raws@[i], materials@.len() as int),
            r matches Err(e) ==> e == AssetError::ParseError,
            r matches Ok(m) ==> {
                &&& m.wf()
                &&& m.meshes@.len() == raws@.len()
                &&& forall|i: int| 0 <= i < raws@.len() ==> (#[trigger] m.meshes@[i]).built_from(&raws@[i])
                &&& m.materials@ == materials@
            },
    {
        let ghost all = raws@;
        let count = materials.len();
        let mut rest = raws;
        let mut meshes: Vec<Mesh> = Vec::new();
        while rest.len() > 0
            invariant
                all == raws@,
                count == materials@.len(),
                meshes@.len() + rest@.len() == all.len(),
                rest@ == all.subrange(meshes@.len() as int, all.len() as int),
                forall|i: int| 0 <= i < all.len() ==> (#[trigger] all[i]).positions@.len() <= usize::MAX / 3,
                forall|i: int| 0 <= i < meshes@.len() ==> raw_mesh_ok(#[trigger] all[i], count as int),
                forall|i: int| 0 <= i < meshes@.len() ==> (#[trigger] meshes@[i]).built_from(&all[i]),
            decreases rest@.len(),
        {
            let ghost done = meshes@.len() as int;
            let raw = rest.remove(0);
            assert(raw == all[done]);
            match Mesh::from_raw(raw, count) {
                Ok(mesh) => {
                    meshes.push(mesh);
                    assert(rest@ =~= all.subrange(meshes@.len() as int, all.len() as int));
                },
                Err(e) => {
                    assert(!raw_mesh_ok(all[done], materials@.len() as int));
                    return Err(e);
                },
            }
        }
        let model = Model { meshes, materials };
        assert forall|i: int| 0 <= i < model.meshes@.len() implies {
            &&& #[trigger] model.meshes@[i].material < model.materials@.len()
            &&& model.meshes@[i].num_elements as int == model.meshes@[i].indices@.len()
        } by {
            assert(raw_mesh_ok(all[i], count as int));
            assert(model.meshes@[i].built_from(&all[i]));
        }
        Ok(model)
    }

    /// The draws that render the model with instances `0..instance_count`:
    /// one per mesh, in mesh order, each with its own material and its whole
    /// index range.
    pub fn plan_draws(&self, instance_count: u32) -> (calls: Vec<DrawCall>)
        requires
            self.wf(),
        ensures
            calls@.len() == self.meshes@.len(),
            forall|i: int|
                0 <= i < calls@.len() ==> #[trigger] calls@[i] == (DrawCall {
                    mesh: i as usize,
                    material: self.meshes@[i].material,
                    index_count: self.meshes@[i].num_elements,
                    instance_count,
                }),
            forall|i: int| 0 <= i < calls@.len() ==> (#[trigger] calls@[i]).material < self.materials@.len(),
    {
        let mut calls: Vec<DrawCall> = Vec::new();
        let mut i: usize = 0;
        while i < self.meshes.len()
            invariant
                self.wf(),
                0 <= i <= self.meshes@.len(),
                calls@.len() == i,
                forall|j: int|
                    0 <= j < i ==> #[trigger] calls@[j] == (DrawCall {
                        mesh: j as usize,
                        material: self.meshes@[j].material,
                        index_count: self.meshes@[j].num_elements,
                        instance_count,
                    }),
            decreases self.meshes@.len() - i,
        {
            let mesh = &self.meshes[i];
            calls.push(
                DrawCall {
                    mesh: i,
                    material: mesh.material,
                    index_count: mesh.num_elements,
                    instance_count,
                },
            );
            i = i + 1;
        }
        calls
    }
}

} // verus!
