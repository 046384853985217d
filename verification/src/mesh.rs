//! Mesh buffers: merging what a loader hands over, and mapping a function
//! over the vertices of a flat coordinate buffer.
//!
//! `T` is the type of one coordinate. The buffers are copied and regrouped,
//! their numbers are never looked into.
use vstd::prelude::*;

verus! {

/// The buffers of one model, as a loader gives them.
#[derive(Debug, PartialEq)]
pub struct ModelBuffers<T> {
    /// Vertex positions, three coordinates each.
    pub positions: Vec<T>,
    /// Vertex normals; empty where the model has none.
    pub normals: Vec<T>,
    /// Texture coordinates; empty where the model has none.
    pub texcoords: Vec<T>,
    /// Triangle corners as indices into the model's own vertices.
    pub indices: Vec<u32>,
}

/// The buffers of all models of a file, one model after the other.
#[derive(Debug, PartialEq)]
pub struct MeshBuffers<T> {
    pub vertices: Vec<T>,
    pub normals: Vec<T>,
    pub texcoords: Vec<T>,
    pub indices: Vec<u32>,
}

/// Why models cannot be merged.
#[derive(Clone, Copy, Debug, PartialEq, Eq)]
pub enum MeshError {
    /// The positions of the model at this place do not come in threes.
    IncompleteVertex(usize),
}

/// The positions of the models, one model after the other.
pub open spec fn all_positions<T>(models: Seq<ModelBuffers<T>>) -> Seq<T> {
    models.flat_map(|model: ModelBuffers<T>| model.positions@)
}

/// The normals of the models, one model after the other.
pub open spec fn all_normals<T>(models: Seq<ModelBuffers<T>>) -> Seq<T> {
    models.flat_map(|model: ModelBuffers<T>| model.normals@)
}

/// The texture coordinates of the models, one model after the other.
pub open spec fn all_texcoords<T>(models: Seq<ModelBuffers<T>>) -> Seq<T> {
    models.flat_map(|model: ModelBuffers<T>| model.texcoords@)
}

/// The indices of the models, one model after the other, each index as it
/// stands in its model.
pub open spec fn all_indices<T>(models: Seq<ModelBuffers<T>>) -> Seq<u32> {
    models.flat_map(|model: ModelBuffers<T>| model.indices@)
}

/// The positions of the model come in threes.
pub open spec fn whole_vertices<T>(model: ModelBuffers<T>) -> bool {
    model.positions@.len() % 3 == 0
}

/// Appends a copy of `source` to `target`.
fn append<T: Copy>(target: &mut Vec<T>, source: &Vec<T>)
    ensures
        final(target)@ == old(target)@ + source@,
{
    let ghost before = target@;
    let n = source.len();
    let mut i: usize = 0;
    while i < n
        invariant
            i <= n,
            n == source@.len(),
            target@ == before + source@.subrange(0, i as int),
        decreases n - i,
    {
        target.push(source[i]);
        i = i + 1;
    }
    assert(source@.subrange(0, n as int) == source@);
}

/// Merges the models of one file into one set of buffers: positions,
/// normals, texture coordinates and indices, each in the order of the
/// models.
///
/// Fails on the first model whose positions do not come in threes, and
/// names its place.
pub fn merge_models<T: Copy>(models: &Vec<ModelBuffers<T>>) -> (merged: Result<MeshBuffers<T>, MeshError>)
    ensures
        merged is Ok <==> forall|i: int| 0 <= i < models@.len() ==> whole_vertices(#[trigger] models@[i]),
        merged matches Ok(mesh) ==> {
            &&& mesh.vertices@ == all_positions(models@)
            &&& mesh.normals@ == all_normals(models@)
            &&& mesh.texcoords@ == all_texcoords(models@)
            &&& mesh.indices@ == all_indices(models@)
        },
        merged matches Err(MeshError::IncompleteVertex(at)) ==> {
            &&& at < models@.len()
            &&& !whole_vertices(models@[at as int])
            &&& forall|i: int| 0 <= i < at ==> whole_vertices(#[trigger] models@[i])
        },
{
    let mut mesh = MeshBuffers {
        vertices: Vec::new(),
        normals: Vec::new(),
        texcoords: Vec::new(),
        indices: Vec::new(),
    };
    let n = models.len();
    let mut k: usize = 0;
    while k < n
        invariant
            k <= n,
            n == models@.len(),
            forall|i: int| 0 <= i < k ==> whole_vertices(#[trigger] models@[i]),
            mesh.vertices@ == all_positions(models@.take(k as int)),
            mesh.normals@ == all_normals(models@.take(k as int)),
            mesh.texcoords@ == all_texcoords(models@.take(k as int)),
            mesh.indices@ == all_indices(models@.take(k as int)),
        decreases n - k,
    {
        let model = &models[k];
        if model.positions.len() % 3 != 0 {
            return Err(MeshError::IncompleteVertex(k));
        }
        append(&mut mesh.vertices, &model.positions);
        append(&mut mesh.normals, &model.normals);
        append(&mut mesh.texcoords, &model.texcoords);
        append(&mut mesh.indices, &model.indices);
        proof {
            let done = models@.take(k as int);
            assert(models@.take(k + 1) == done.push(*model));
            done.lemma_flat_map_push(|model: ModelBuffers<T>| model.positions@, *model);
            done.lemma_flat_map_push(|model: ModelBuffers<T>| model.normals@, *model);
            done.lemma_flat_map_push(|model: ModelBuffers<T>| model.texcoords@, *model);
            done.lemma_flat_map_push(|model: ModelBuffers<T>| model.indices@, *model);
        }
        k = k + 1;
    }
    assert(models@.take(n as int) == models@);
    Ok(mesh)
}

/// The vertices of a flat buffer: its coordinates in threes. Coordinates
/// after the last whole three belong to no vertex.
pub open spec fn vertex_count<T>(coordinates: Seq<T>) -> int {
    coordinates.len() as int / 3
}

/// Maps `f` over the vertices of `vertices`. The result holds the images in
/// the order of the vertices, and nothing for coordinates that fill no
/// vertex.
pub fn map_vertices<T: Copy, F>(vertices: &Vec<T>, f: &F) -> (mapped: Vec<T>)
    where F: Fn(T, T, T) -> (T, T, T)
    requires
        forall|x: T, y: T, z: T| call_requires(*f, (x, y, z)),
    ensures
        mapped@.len() == 3 * vertex_count(vertices@),
        forall|i: int|
            #![trigger mapped@[3 * i]]
            0 <= i < vertex_count(vertices@) ==> call_ensures(
                *f,
                (vertices@[3 * i], vertices@[3 * i + 1], vertices@[3 * i + 2]),
                (mapped@[3 * i], mapped@[3 * i + 1], mapped@[3 * i + 2]),
            ),
{
    let n = vertices.len() / 3;
    let mut mapped: Vec<T> = Vec::new();
    let mut i: usize = 0;
    while i < n
        invariant
            i <= n,
            n == vertex_count(vertices@),
            3 * n <= vertices@.len() <= usize::MAX,
            forall|x: T, y: T, z: T| call_requires(*f, (x, y, z)),
            mapped@.len() == 3 * i,
            forall|j: int|
                #![trigger mapped@[3 * j]]
                0 <= j < i ==> call_ensures(
                    *f,
                    (vertices@[3 * j], vertices@[3 * j + 1], vertices@[3 * j + 2]),
                    (mapped@[3 * j], mapped@[3 * j + 1], mapped@[3 * j + 2]),
                ),
        decreases n - i,
    {
        let (x, y, z) = f(vertices[3 * i], vertices[3 * i + 1], vertices[3 * i + 2]);
        mapped.push(x);
        mapped.push(y);
        mapped.push(z);
        i = i + 1;
    }
    mapped
}

} // verus!
