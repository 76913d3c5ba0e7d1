//! Models: the meshes of one asset file and the textures they share.

use vstd::prelude::*;
use crate::command::{lemma_views_concat, views, Command, CommandView};
use crate::mesh::{
    component, copy_words, is_valid_geometry, valid_geometry, vertex_words, Mesh, MeshTexture,
    TextureType, Vertex,
};
use crate::shader::Shader;
use crate::texture::{release, release_model, Image, Texture, TextureError};

verus! {

/// One object of an asset file, as the parser hands it over. The attribute
/// arrays hold bit patterns of single-precision numbers: three for a
/// position, three for a normal, two for a pair of texture coordinates.
#[derive(Clone, PartialEq, Eq, Debug)]
pub struct ObjMesh {
    pub positions: Vec<u32>,
    pub normals: Vec<u32>,
    pub texcoords: Vec<u32>,
    pub indices: Vec<u32>,
    pub material_id: Option<usize>,
}

/// The texture files that a material of an asset file names; an empty name
/// stands for none.
#[derive(Clone, PartialEq, Eq, Debug)]
pub struct ObjMaterial {
    pub diffuse_texture: String,
    pub specular_texture: String,
    pub normal_texture: String,
}

/// The type of the texture in the material slot `slot`: diffuse, specular,
/// normal. Height maps have no slot.
pub open spec fn slot_type(slot: int) -> TextureType {
    if slot == 0 {
        TextureType::Diffuse
    } else if slot == 1 {
        TextureType::Specular
    } else {
        TextureType::Normal
    }
}

/// The first entry from `from` on whose path is `path`.
pub open spec fn find(cache: Seq<MeshTexture>, path: Seq<char>, from: int) -> Option<MeshTexture>
    decreases cache.len() - from,
{
    if from < 0 || from >= cache.len() {
        None
    } else if cache[from].path@ == path {
        Some(cache[from])
    } else {
        find(cache, path, from + 1)
    }
}

/// The path that `material` names for the slot `slot`; empty without a
/// material.
pub open spec fn slot_path(material: Option<ObjMaterial>, slot: int) -> Seq<char> {
    match material {
        None => Seq::empty(),
        Some(material) => if slot == 0 {
            material.diffuse_texture@
        } else if slot == 1 {
            material.specular_texture@
        } else {
            material.normal_texture@
        },
    }
}

/// The first slot from `from` on that names a texture that is not in `cache`.
pub open spec fn first_unloaded(cache: Seq<MeshTexture>, material: Option<ObjMaterial>, from: int) -> Option<
    int,
>
    decreases 3 - from,
{
    if from >= 3 {
        None
    } else if slot_path(material, from).len() > 0 && find(cache, slot_path(material, from), 0)
        is None {
        Some(from)
    } else {
        first_unloaded(cache, material, from + 1)
    }
}

/// The entries of `cache` for the textures that the slots from `from` on
/// name, in slot order.
pub open spec fn bound_textures(cache: Seq<MeshTexture>, material: Option<ObjMaterial>, from: int) -> Seq<
    MeshTexture,
>
    decreases 3 - from,
{
    if from >= 3 {
        Seq::empty()
    } else {
        let rest = bound_textures(cache, material, from + 1);
        match find(cache, slot_path(material, from), 0) {
            Some(entry) => if slot_path(material, from).len() > 0 {
                seq![entry] + rest
            } else {
                rest
            },
            None => rest,
        }
    }
}

/// Word `c` of vertex `i` of the object: the position, then the normal, then
/// the texture coordinates, each from its own array.
pub open spec fn object_word(object: ObjMesh, i: int, c: int) -> u32 {
    if c < 3 {
        object.positions@[3 * i + c]
    } else if c < 6 {
        object.normals@[3 * i + c - 3]
    } else {
        object.texcoords@[2 * i + c - 6]
    }
}

/// The vertex buffer of the object: its attribute arrays interleaved.
pub open spec fn interleaved(object: ObjMesh) -> Seq<u32> {
    Seq::new(8 * object.vertex_count(), |k: int| object_word(object, k / 8, k % 8))
}

impl ObjMaterial {
    /// The path in the slot `slot`.
    pub fn texture(&self, slot: usize) -> (path: &String)
        ensures
            path@ == slot_path(Some(*self), slot as int),
    {
        if slot == 0 {
            &self.diffuse_texture
        } else if slot == 1 {
            &self.specular_texture
        } else {
            &self.normal_texture
        }
    }
}

impl ObjMesh {
    /// How many vertices the object has.
    pub open spec fn vertex_count(&self) -> nat {
        self.positions@.len() / 3
    }

    /// The material of the object among `materials`, if it has one.
    pub open spec fn material_of(&self, materials: Seq<ObjMaterial>) -> Option<ObjMaterial> {
        match self.material_id {
            Some(id) => Some(materials[id as int]),
            None => None,
        }
    }

    /// The object can become a mesh: it has a normal and a pair of texture
    /// coordinates for every position, its geometry is valid, and its
    /// material, if it names one, is one of the `materials` that there are.
    pub open spec fn wf(&self, materials: nat) -> bool {
        &&& self.normals@.len() >= 3 * self.vertex_count()
        &&& self.texcoords@.len() >= 2 * self.vertex_count()
        &&& valid_geometry(self.vertex_count(), self.indices@, 0)
        &&& self.material_id matches Some(id) ==> id < materials
    }

    /// The exact test of [`ObjMesh::wf`].
    pub fn is_well_formed(&self, materials: usize) -> (valid: bool)
        ensures
            valid == self.wf(materials as nat),
    {
        let count = self.positions.len() / 3;
        if self.normals.len() / 3 < count || self.texcoords.len() / 2 < count {
            return false;
        }
        if !is_valid_geometry(count, &self.indices, 0) {
            return false;
        }
        match self.material_id {
            Some(id) => id < materials,
            None => true,
        }
    }

    /// The vertices of the object.
    pub fn vertices(&self) -> (vertices: Vec<Vertex>)
        requires
            self.normals@.len() >= 3 * self.vertex_count(),
            self.texcoords@.len() >= 2 * self.vertex_count(),
        ensures
            vertices@.len() == self.vertex_count(),
            vertex_words(vertices@) == interleaved(*self),
    {
        let count = self.positions.len() / 3;
        let (p, n, t) = (&self.positions, &self.normals, &self.texcoords);
        let total = p.len();
        let mut vertices: Vec<Vertex> = Vec::new();
        let mut i: usize = 0;
        while i < count
            invariant
                i <= count,
                count == self.vertex_count(),
                p == &self.positions,
                n == &self.normals,
                t == &self.texcoords,
                total == p@.len(),
                p@.len() >= 3 * count,
                n@.len() >= 3 * count,
                t@.len() >= 2 * count,
                vertices@.len() == i,
                forall|j: int, c: int|
                    0 <= j < i && 0 <= c < 8 ==> component(#[trigger] vertices@[j], c)
                        == #[trigger] object_word(*self, j, c),
            decreases count - i,
        {
            let vertex = Vertex {
                position: [p[i * 3], p[i * 3 + 1], p[i * 3 + 2]],
                normal: [n[i * 3], n[i * 3 + 1], n[i * 3 + 2]],
                texture_coords: [t[i * 2], t[i * 2 + 1]],
            };
            assert(forall|c: int| 0 <= c < 8 ==> component(vertex, c) == #[trigger] object_word(
                *self,
                i as int,
                c,
            ));
            vertices.push(vertex);
            i += 1;
        }
        assert(vertex_words(vertices@) =~= interleaved(*self));
        vertices
    }
}

/// What [`Model::load_model`] answers.
#[derive(Clone, PartialEq, Eq, Debug)]
pub enum LoadStep {
    /// The object needs the texture at `path`, which the model has not
    /// loaded. Load it with [`Model::load_material_texture`] and try again.
    NeedTexture { path: String, texture_type: TextureType },
    /// The object has become a mesh of the model; the commands upload it.
    Loaded(Vec<Command>),
}

/// A model.
#[derive(Clone, PartialEq, Eq, Debug)]
pub struct Model {
    pub meshes: Vec<Mesh>,
    /// The textures loaded so far, each path once.
    pub textures_loaded: Vec<MeshTexture>,
    pub flip_texture: bool,
    pub directory: String,
}

/// The commands that draw the first `count` of the meshes, one mesh after the
/// other.
pub open spec fn draws(meshes: Seq<Mesh>, program: u32, count: int) -> Seq<CommandView>
    decreases count,
{
    if count <= 0 {
        Seq::empty()
    } else {
        draws(meshes, program, count - 1) + meshes[count - 1].draw_model(program)
    }
}

impl Model {
    /// Every mesh can be drawn, and no two loaded textures share a path.
    pub open spec fn wf(&self) -> bool {
        &&& forall|i: int| 0 <= i < self.meshes@.len() ==> (#[trigger] self.meshes@[i]).wf()
        &&& forall|i: int, j: int|
            0 <= i < j < self.textures_loaded@.len() ==> (#[trigger] self.textures_loaded@[i]).path@
                != (#[trigger] self.textures_loaded@[j]).path@
    }

    /// The exact test of [`Model::wf`].
    pub fn is_well_formed(&self) -> (valid: bool)
        ensures
            valid == self.wf(),
    {
        let mut i: usize = 0;
        while i < self.meshes.len()
            invariant
                i <= self.meshes.len(),
                forall|k: int| 0 <= k < i ==> (#[trigger] self.meshes@[k]).wf(),
            decreases self.meshes.len() - i,
        {
            if !self.meshes[i].is_well_formed() {
                return false;
            }
            i += 1;
        }
        let mut j: usize = 0;
        while j < self.textures_loaded.len()
            invariant
                j <= self.textures_loaded.len(),
                forall|k: int| 0 <= k < self.meshes@.len() ==> (#[trigger] self.meshes@[k]).wf(),
                forall|a: int, b: int|
                    0 <= a < b < j ==> (#[trigger] self.textures_loaded@[a]).path@ != (
                    #[trigger] self.textures_loaded@[b]).path@,
            decreases self.textures_loaded.len() - j,
        {
            let mut a: usize = 0;
            while a < j
                invariant
                    a <= j < self.textures_loaded.len(),
                    forall|k: int|
                        0 <= k < a ==> (#[trigger] self.textures_loaded@[k]).path@
                            != self.textures_loaded@[j as int].path@,
                decreases j - a,
            {
                if self.textures_loaded[a].path == self.textures_loaded[j].path {
                    return false;
                }
                a += 1;
            }
            j += 1;
        }
        true
    }

    /// A model without meshes, for an asset file of the directory
    /// `directory`; its textures are turned upside down if `flip_texture` is
    /// set.
    pub fn new(directory: &str, flip_texture: bool) -> (model: Model)
        ensures
            model.wf(),
            model.meshes@.len() == 0,
            model.textures_loaded@.len() == 0,
            model.flip_texture == flip_texture,
            model.directory@ == directory@,
    {
        Model {
            meshes: Vec::new(),
            textures_loaded: Vec::new(),
            flip_texture,
            directory: String::from_str(directory),
        }
    }

    /// Draws the meshes in the order in which they were loaded.
    pub fn draw(&self, shader: &Shader) -> (commands: Vec<Command>)
        requires
            self.wf(),
        ensures
            views(commands@) == draws(self.meshes@, shader.program, self.meshes@.len() as int),
    {
        let mut commands: Vec<Command> = Vec::new();
        let mut i: usize = 0;
        assert(views(commands@) =~= draws(self.meshes@, shader.program, 0));
        while i < self.meshes.len()
            invariant
                i <= self.meshes.len(),
                self.wf(),
                views(commands@) == draws(self.meshes@, shader.program, i as int),
            decreases self.meshes.len() - i,
        {
            let mut part = self.meshes[i].draw(shader);
            proof {
                lemma_views_concat(commands@, part@);
            }
            commands.append(&mut part);
            i += 1;
        }
        commands
    }

    /// The loaded texture of the file at `path`, if there is one.
    pub fn find_texture(&self, path: &String) -> (found: Option<MeshTexture>)
        ensures
            found == find(self.textures_loaded@, path@, 0),
    {
        let mut i: usize = 0;
        while i < self.textures_loaded.len()
            invariant
                i <= self.textures_loaded.len(),
                find(self.textures_loaded@, path@, 0) == find(
                    self.textures_loaded@,
                    path@,
                    i as int,
                ),
            decreases self.textures_loaded.len() - i,
        {
            if self.textures_loaded[i].path == *path {
                return Some(self.textures_loaded[i].share());
            }
            i += 1;
        }
        None
    }

    /// Makes a mesh of one object of the asset file, with the freshly
    /// generated vertex array `vao` and buffers `vbo` and `ebo`, and adds it
    /// to the model.
    ///
    /// The mesh gets the textures that the object's material names: diffuse,
    /// specular and normal map, in this order, each if it is named. If one of
    /// them is not loaded yet, nothing happens to the model, and the answer
    /// names the first that is missing.
    pub fn load_model(
        &mut self,
        object: &ObjMesh,
        materials: &Vec<ObjMaterial>,
        vao: u32,
        vbo: u32,
        ebo: u32,
    ) -> (step: LoadStep)
        requires
            old(self).wf(),
            object.wf(materials@.len()),
        ensures
            final(self).wf(),
            final(self).textures_loaded == old(self).textures_loaded,
            final(self).flip_texture == old(self).flip_texture,
            final(self).directory == old(self).directory,
            (match first_unloaded(old(self).textures_loaded@, object.material_of(materials@), 0) {
                Some(slot) => {
                    &&& *final(self) == *old(self)
                    &&& step matches LoadStep::NeedTexture { path, texture_type } && path@
                        == slot_path(object.material_of(materials@), slot) && texture_type
                        == slot_type(slot)
                },
                None => {
                    let mesh = final(self).meshes@.last();
                    &&& final(self).meshes@.len() == old(self).meshes@.len() + 1
                    &&& final(self).meshes@.drop_last() == old(self).meshes@
                    &&& vertex_words(mesh.vertices@) == interleaved(*object)
                    &&& mesh.vertices@.len() == object.vertex_count()
                    &&& mesh.indices@ == object.indices@
                    &&& mesh.textures@ == bound_textures(
                        old(self).textures_loaded@,
                        object.material_of(materials@),
                        0,
                    )
                    &&& mesh.vao == vao
                    &&& mesh.vbo == vbo
                    &&& mesh.ebo == ebo
                    &&& step matches LoadStep::Loaded(commands) && views(commands@)
                        == Mesh::setup_model(mesh.vertices@, mesh.indices@, vao, vbo, ebo)
                },
            }),
    {
        let ghost material = object.material_of(materials@);
        let ghost cache = self.textures_loaded@;
        let mut textures: Vec<MeshTexture> = Vec::new();
        proof {
            reveal_with_fuel(first_unloaded, 4);
            reveal_with_fuel(bound_textures, 4);
        }
        if let Some(material_id) = object.material_id {
            let chosen = &materials[material_id];
            let mut slot: usize = 0;
            while slot < 3
                invariant
                    slot <= 3,
                    cache == self.textures_loaded@,
                    *self == *old(self),
                    self.wf(),
                    material == Some(*chosen),
                    material == object.material_of(materials@),
                    textures@.len() <= slot,
                    first_unloaded(cache, material, 0) == first_unloaded(cache, material, slot as int),
                    textures@ + bound_textures(cache, material, slot as int) == bound_textures(
                        cache,
                        material,
                        0,
                    ),
                decreases 3 - slot,
            {
                proof {
                    reveal_with_fuel(first_unloaded, 2);
                    reveal_with_fuel(bound_textures, 2);
                }
                let path = chosen.texture(slot);
                if !path.as_str().is_empty() {
                    match self.find_texture(path) {
                        Some(entry) => {
                            assert(textures@.push(entry) + bound_textures(
                                cache,
                                material,
                                slot + 1,
                            ) =~= textures@ + bound_textures(cache, material, slot as int));
                            textures.push(entry);
                        },
                        None => {
                            return LoadStep::NeedTexture {
                                path: path.clone(),
                                texture_type: texture_type_of(slot),
                            };
                        },
                    }
                }
                slot += 1;
            }
            assert(textures@ =~= bound_textures(cache, material, 0));
        } else {
            assert(textures@ =~= bound_textures(cache, material, 0));
        }
        let vertices = object.vertices();
        let indices = copy_words(&object.indices);
        let (mesh, commands) = Mesh::new(vertices, indices, textures, vao, vbo, ebo);
        self.meshes.push(mesh);
        assert(self.meshes@.drop_last() =~= old(self).meshes@);
        LoadStep::Loaded(commands)
    }

    /// Hands the model the texture of the file at `path`: the image decoded
    /// from it and the freshly generated texture object `id`.
    ///
    /// A path is loaded once. If the model has a texture of this path
    /// already, the answer is that texture, and the object `id` is released
    /// unused. Otherwise the image is uploaded, and the new texture is
    /// remembered under the path with the type `texture_type`; if that fails,
    /// the object is released and the model stays as it is.
    pub fn load_material_texture(
        &mut self,
        path: &str,
        texture_type: TextureType,
        id: u32,
        image: Image,
    ) -> (loaded: (Result<MeshTexture, TextureError>, Vec<Command>))
        ensures
            old(self).wf() ==> final(self).wf(),
            final(self).meshes == old(self).meshes,
            final(self).flip_texture == old(self).flip_texture,
            final(self).directory == old(self).directory,
            (match find(old(self).textures_loaded@, path@, 0) {
                Some(entry) => {
                    &&& loaded.0 == Ok::<MeshTexture, TextureError>(entry)
                    &&& views(loaded.1@) == release_model(id)
                    &&& final(self).textures_loaded == old(self).textures_loaded
                },
                None => if id == 0 {
                    &&& loaded.0 == Err::<MeshTexture, TextureError>(TextureError::ResourceCreation)
                    &&& loaded.1@.len() == 0
                    &&& final(self).textures_loaded == old(self).textures_loaded
                } else {
                    match image.problem() {
                        Some(error) => {
                            &&& loaded.0 == Err::<MeshTexture, TextureError>(error)
                            &&& views(loaded.1@) == release_model(id)
                            &&& final(self).textures_loaded == old(self).textures_loaded
                        },
                        None => {
                            &&& views(loaded.1@) == Texture::upload_model(id, image)
                            &&& loaded.0 matches Ok(entry) && entry.texture == (Texture {
                                id,
                                width: image.width,
                                height: image.height,
                            }) && entry.texture_type == texture_type && entry.path@ == path@
                                && final(self).textures_loaded@ == old(self).textures_loaded@.push(
                                entry,
                            )
                        },
                    }
                },
            }),
    {
        let name = String::from_str(path);
        if let Some(entry) = self.find_texture(&name) {
            return (Ok(entry), release(id));
        }
        let (made, commands) = Texture::new(id, image);
        match made {
            Err(error) => (Err(error), commands),
            Ok(texture) => {
                let entry = MeshTexture { texture, texture_type, path: name };
                let shared = entry.share();
                proof {
                    lemma_find_none(self.textures_loaded@, path@, 0);
                }
                self.textures_loaded.push(entry);
                (Ok(shared), commands)
            },
        }
    }
}

fn texture_type_of(slot: usize) -> (texture_type: TextureType)
    ensures
        texture_type == slot_type(slot as int),
{
    if slot == 0 {
        TextureType::Diffuse
    } else if slot == 1 {
        TextureType::Specular
    } else {
        TextureType::Normal
    }
}

proof fn lemma_find_none(cache: Seq<MeshTexture>, path: Seq<char>, from: int)
    requires
        0 <= from,
        find(cache, path, from) is None,
    ensures
        forall|i: int| from <= i < cache.len() ==> (#[trigger] cache[i]).path@ != path,
    decreases cache.len() - from,
{
    if from < cache.len() {
        lemma_find_none(cache, path, from + 1);
    }
}

proof fn lemma_find_push(cache: Seq<MeshTexture>, entry: MeshTexture, path: Seq<char>, from: int)
    requires
        0 <= from <= cache.len(),
    ensures
        find(cache.push(entry), path, from) == (if find(cache, path, from) is Some {
            find(cache, path, from)
        } else if entry.path@ == path {
            Some(entry)
        } else {
            None
        }),
    decreases cache.len() - from,
{
    let longer = cache.push(entry);
    if from < cache.len() {
        assert(longer[from] == cache[from]);
        if cache[from].path@ != path {
            lemma_find_push(cache, entry, path, from + 1);
        }
    } else {
        assert(longer[from] == entry);
        assert(find(longer, path, from + 1) is None);
    }
}

/// A texture is loaded once: after the texture of a path has been loaded,
/// the model finds that very entry under the path, so that loading the path
/// again returns it and decodes nothing. The textures of other paths are
/// found as before.
pub proof fn lemma_loaded_once(cache: Seq<MeshTexture>, entry: MeshTexture, other: Seq<char>)
    requires
        find(cache, entry.path@, 0) is None,
    ensures
        find(cache.push(entry), entry.path@, 0) == Some(entry),
        other != entry.path@ ==> find(cache.push(entry), other, 0) == find(cache, other, 0),
{
    lemma_find_push(cache, entry, entry.path@, 0);
    lemma_find_push(cache, entry, other, 0);
}

} // verus!
