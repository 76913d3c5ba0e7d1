//! Meshes: one drawable surface with its vertex data, indices and textures.

use vstd::prelude::*;
use crate::command::{lemma_views_push, views, Command, CommandView, GlCall, UniformValue};
use crate::constants::{
    ARRAY_BUFFER, ELEMENT_ARRAY_BUFFER, FALSE, FLOAT, STATIC_DRAW, TEXTURE0, TEXTURE_2D, TRIANGLES,
    UNSIGNED_INT,
};
use crate::shader::Shader;
use crate::text::{decimal, push_decimal};
use crate::texture::{unbind, Texture};

verus! {

/// Bytes from one vertex to the next in a vertex buffer.
pub const VERTEX_STRIDE: usize = 32;

/// Byte offset of the position inside a vertex.
pub const POSITION_OFFSET: usize = 0;

/// Byte offset of the normal inside a vertex.
pub const NORMAL_OFFSET: usize = 12;

/// Byte offset of the texture coordinates inside a vertex.
pub const TEXTURE_COORDS_OFFSET: usize = 24;

/// A vertex. Each component is the bit pattern of a single-precision number.
#[derive(Clone, Copy, PartialEq, Eq, Debug)]
pub struct Vertex {
    pub position: [u32; 3],
    pub normal: [u32; 3],
    pub texture_coords: [u32; 2],
}

impl Default for Vertex {
    fn default() -> (vertex: Vertex)
        ensures
            vertex.position@ == seq![0u32, 0u32, 0u32],
            vertex.normal@ == seq![0u32, 0u32, 0u32],
            vertex.texture_coords@ == seq![0u32, 0u32],
    {
        Vertex { position: [0, 0, 0], normal: [0, 0, 0], texture_coords: [0, 0] }
    }
}

/// What a texture contributes to the shading of a surface.
#[derive(Clone, Copy, PartialEq, Eq, Structural, Debug)]
pub enum TextureType {
    Diffuse,
    Specular,
    Normal,
    Height,
}

impl TextureType {
    /// The stem of the sampler uniforms of this type.
    pub open spec fn tag(self) -> Seq<char> {
        match self {
            TextureType::Diffuse => "texture_diffuse"@,
            TextureType::Specular => "texture_specular"@,
            TextureType::Normal => "texture_normal"@,
            TextureType::Height => "texture_height"@,
        }
    }

    /// The stem of the sampler uniforms of this type.
    pub fn name(&self) -> (name: &'static str)
        ensures
            name@ == self.tag(),
    {
        match self {
            TextureType::Diffuse => "texture_diffuse",
            TextureType::Specular => "texture_specular",
            TextureType::Normal => "texture_normal",
            TextureType::Height => "texture_height",
        }
    }
}

/// A texture as a mesh uses it.
#[derive(Clone, PartialEq, Eq, Debug)]
pub struct MeshTexture {
    pub texture: Texture,
    pub texture_type: TextureType,
    pub path: String,
}

impl MeshTexture {
    /// Another entry for the same GPU texture.
    pub fn share(&self) -> (other: MeshTexture)
        ensures
            other == *self,
    {
        MeshTexture {
            texture: self.texture.share(),
            texture_type: self.texture_type,
            path: self.path.clone(),
        }
    }
}

/// How many of the first `upto` textures are of type `kind`.
pub open spec fn occurrences(textures: Seq<MeshTexture>, kind: TextureType, upto: int) -> nat
    decreases upto,
{
    if upto <= 0 {
        0
    } else {
        occurrences(textures, kind, upto - 1) + if textures[upto - 1].texture_type == kind {
            1nat
        } else {
            0nat
        }
    }
}

/// The name of the sampler uniform of the texture at `index`: the stem of its
/// type, then its rank among the textures of that type up to and with itself,
/// counted from 1.
pub open spec fn sampler_name(textures: Seq<MeshTexture>, index: int) -> Seq<char> {
    let kind = textures[index].texture_type;
    kind.tag() + decimal(occurrences(textures, kind, index + 1))
}

/// Sampler numbers are those of a counter that runs for each type on its
/// own: the texture at `index` has a number of at least 1, no greater than
/// its position allows, and if its number is not 1, the number before it
/// belongs to an earlier texture of the same type.
pub proof fn lemma_sampler_numbers_run(textures: Seq<MeshTexture>, index: int)
    requires
        0 <= index < textures.len(),
    ensures
        1 <= occurrences(textures, textures[index].texture_type, index + 1) <= index + 1,
        occurrences(textures, textures[index].texture_type, index + 1) > 1 ==> exists|earlier: int|
            0 <= earlier < index && textures[earlier].texture_type == textures[index].texture_type
                && #[trigger] occurrences(textures, textures[earlier].texture_type, earlier + 1)
                + 1 == occurrences(textures, textures[index].texture_type, index + 1),
{
    let kind = textures[index].texture_type;
    lemma_occurrences_bound(textures, kind, index);
    if occurrences(textures, kind, index + 1) > 1 {
        lemma_last_occurrence(textures, kind, index);
    }
}

proof fn lemma_occurrences_bound(textures: Seq<MeshTexture>, kind: TextureType, upto: int)
    requires
        0 <= upto,
    ensures
        occurrences(textures, kind, upto) <= upto,
    decreases upto,
{
    if upto > 0 {
        lemma_occurrences_bound(textures, kind, upto - 1);
    }
}

proof fn lemma_last_occurrence(textures: Seq<MeshTexture>, kind: TextureType, upto: int)
    requires
        0 <= upto,
        occurrences(textures, kind, upto) > 0,
    ensures
        exists|earlier: int|
            0 <= earlier < upto && textures[earlier].texture_type == kind && #[trigger] occurrences(
                textures,
                textures[earlier].texture_type,
                earlier + 1,
            ) == occurrences(textures, kind, upto),
    decreases upto,
{
    if textures[upto - 1].texture_type == kind {
        assert(occurrences(textures, textures[upto - 1].texture_type, upto - 1 + 1) == occurrences(
            textures,
            kind,
            upto,
        ));
    } else {
        lemma_last_occurrence(textures, kind, upto - 1);
    }
}

/// The `k`-th command that binds textures: three for each texture, in order.
pub open spec fn texture_binding(textures: Seq<MeshTexture>, k: int) -> CommandView {
    let index = k / 3;
    if k % 3 == 0 {
        CommandView::Call(GlCall::ActiveTexture { unit: (TEXTURE0 + index) as u32 })
    } else if k % 3 == 1 {
        CommandView::Uniform {
            name: sampler_name(textures, index),
            value: UniformValue::Int(index as i32),
        }
    } else {
        CommandView::Call(
            GlCall::BindTexture { target: TEXTURE_2D, texture: textures[index].texture.id },
        )
    }
}

/// The commands that bind every texture to the unit of its position.
pub open spec fn texture_bindings(textures: Seq<MeshTexture>) -> Seq<CommandView> {
    Seq::new(3 * textures.len(), |k: int| texture_binding(textures, k))
}

/// The word at position `c` of a vertex: position, normal, texture coordinates.
pub open spec fn component(vertex: Vertex, c: int) -> u32 {
    if c < 3 {
        vertex.position[c]
    } else if c < 6 {
        vertex.normal[c - 3]
    } else {
        vertex.texture_coords[c - 6]
    }
}

/// The vertex buffer of `vertices`: eight words each, one vertex after the other.
pub open spec fn vertex_words(vertices: Seq<Vertex>) -> Seq<u32> {
    Seq::new(8 * vertices.len(), |k: int| component(vertices[k / 8], k % 8))
}

/// How many words the attribute at `index` of a vertex has: three for the
/// position (0) and the normal (1), two for the texture coordinates (2).
pub open spec fn attribute_size(index: int) -> int {
    if index == 2 {
        2
    } else {
        3
    }
}

/// The byte offset, inside a vertex, of the attribute at `index`.
pub open spec fn attribute_offset(index: int) -> int {
    if index == 0 {
        POSITION_OFFSET as int
    } else if index == 1 {
        NORMAL_OFFSET as int
    } else {
        TEXTURE_COORDS_OFFSET as int
    }
}

/// The word at position `c` of the attribute at `index` of a vertex.
pub open spec fn attribute_word(vertex: Vertex, index: int, c: int) -> u32 {
    if index == 0 {
        vertex.position[c]
    } else if index == 1 {
        vertex.normal[c]
    } else {
        vertex.texture_coords[c]
    }
}

/// The call that tells the GPU where the attribute at `index` lies in the
/// vertex buffer.
pub open spec fn attribute_pointer(index: u32) -> GlCall {
    GlCall::VertexAttribPointer {
        index,
        size: attribute_size(index as int) as i32,
        kind: FLOAT,
        normalized: FALSE,
        stride: VERTEX_STRIDE as i32,
        offset: attribute_offset(index as int) as usize,
    }
}

/// The call that tells the GPU where the attribute at `index` lies in the
/// vertex buffer.
pub fn vertex_attribute(index: u32) -> (call: GlCall)
    ensures
        call == attribute_pointer(index),
{
    let size: i32 = if index == 2 {
        2
    } else {
        3
    };
    let offset = if index == 0 {
        POSITION_OFFSET
    } else if index == 1 {
        NORMAL_OFFSET
    } else {
        TEXTURE_COORDS_OFFSET
    };
    GlCall::VertexAttribPointer {
        index,
        size,
        kind: FLOAT,
        normalized: FALSE,
        stride: VERTEX_STRIDE as i32,
        offset,
    }
}

/// The GPU reads the attributes where the vertex buffer holds them: word `c`
/// of attribute `index` of vertex `i` is the word of the buffer at that
/// vertex's stride plus the attribute's declared offset, and the attributes
/// together fill the stride without overlapping.
pub proof fn lemma_attribute_layout(vertices: Seq<Vertex>, i: int, index: int, c: int)
    requires
        0 <= i < vertices.len(),
        0 <= index < 3,
        0 <= c < attribute_size(index),
    ensures
        (i * VERTEX_STRIDE + attribute_offset(index)) % 4 == 0,
        0 <= (i * VERTEX_STRIDE + attribute_offset(index)) / 4 + c < vertex_words(vertices).len(),
        vertex_words(vertices)[(i * VERTEX_STRIDE + attribute_offset(index)) / 4 + c]
            == attribute_word(vertices[i], index, c),
        attribute_offset(0) == 0,
        attribute_offset(1) == attribute_offset(0) + 4 * attribute_size(0),
        attribute_offset(2) == attribute_offset(1) + 4 * attribute_size(1),
        VERTEX_STRIDE == attribute_offset(2) + 4 * attribute_size(2),
{
    let k = (i * VERTEX_STRIDE + attribute_offset(index)) / 4 + c;
    assert(k == 8 * i + attribute_offset(index) / 4 + c);
    assert(k / 8 == i);
    assert(k % 8 == attribute_offset(index) / 4 + c);
}

/// The vertex buffer of `vertices`.
pub fn pack_vertices(vertices: &Vec<Vertex>) -> (words: Vec<u32>)
    requires
        vertices@.len() * VERTEX_STRIDE <= isize::MAX,
    ensures
        words@ == vertex_words(vertices@),
{
    let mut words: Vec<u32> = Vec::new();
    let mut i: usize = 0;
    while i < vertices.len()
        invariant
            i <= vertices.len(),
            words@ == vertex_words(vertices@).subrange(0, 8 * i),
        decreases vertices.len() - i,
    {
        let vertex = vertices[i];
        let ghost before = words@;
        words.push(vertex.position[0]);
        words.push(vertex.position[1]);
        words.push(vertex.position[2]);
        words.push(vertex.normal[0]);
        words.push(vertex.normal[1]);
        words.push(vertex.normal[2]);
        words.push(vertex.texture_coords[0]);
        words.push(vertex.texture_coords[1]);
        proof {
            let all = vertex_words(vertices@);
            let k = 8 * i;
            assert(forall|c: int| 0 <= c < 8 ==> all[k + c] == component(vertices@[i as int], c));
            assert(words@ =~= all.subrange(0, k + 8));
        }
        i += 1;
    }
    assert(words@ =~= vertex_words(vertices@));
    words
}

/// A copy of `words`.
pub fn copy_words(words: &Vec<u32>) -> (copy: Vec<u32>)
    ensures
        copy@ == words@,
{
    let mut copy: Vec<u32> = Vec::new();
    let mut i: usize = 0;
    while i < words.len()
        invariant
            i <= words.len(),
            copy@ == words@.subrange(0, i as int),
        decreases words.len() - i,
    {
        copy.push(words[i]);
        assert(copy@ =~= words@.subrange(0, i + 1));
        i += 1;
    }
    assert(copy@ =~= words@);
    copy
}

/// Whether the data describes a mesh that can be uploaded and drawn.
pub open spec fn valid_geometry(vertices: nat, indices: Seq<u32>, textures: nat) -> bool {
    &&& 0 < vertices
    &&& vertices * VERTEX_STRIDE <= isize::MAX
    &&& indices.len() % 3 == 0
    &&& indices.len() <= i32::MAX
    &&& indices.len() * 4 <= isize::MAX
    &&& forall|i: int| 0 <= i < indices.len() ==> (#[trigger] indices[i]) < vertices
    &&& textures <= i32::MAX
}

/// The order of a draw: the program is put to use first; the texture at
/// `index` is bound to the unit `index`, with its sampler pointed there,
/// before the draw call; and after the draw call unit 0 is active and has no
/// two-dimensional texture bound.
pub proof fn lemma_draw_order(mesh: Mesh, program: u32, index: int)
    requires
        0 <= index < mesh.textures@.len(),
    ensures
        ({
            let commands = mesh.draw_model(program);
            let count = mesh.textures@.len() as int;
            &&& commands.len() == 3 * count + 6
            &&& commands[0] == CommandView::Call(GlCall::UseProgram { program })
            &&& commands[1 + 3 * index] == CommandView::Call(
                GlCall::ActiveTexture { unit: (TEXTURE0 + index) as u32 },
            )
            &&& commands[2 + 3 * index] == (CommandView::Uniform {
                name: sampler_name(mesh.textures@, index),
                value: UniformValue::Int(index as i32),
            })
            &&& commands[3 + 3 * index] == CommandView::Call(
                GlCall::BindTexture {
                    target: TEXTURE_2D,
                    texture: mesh.textures@[index].texture.id,
                },
            )
            &&& 3 + 3 * index < 3 * count + 2
            &&& commands[3 * count + 2] == CommandView::Call(
                GlCall::DrawElements {
                    mode: TRIANGLES,
                    count: mesh.indices@.len() as i32,
                    kind: UNSIGNED_INT,
                },
            )
            &&& commands[3 * count + 4] == CommandView::Call(GlCall::ActiveTexture { unit: TEXTURE0 })
            &&& commands[3 * count + 5] == CommandView::Call(
                GlCall::BindTexture { target: TEXTURE_2D, texture: 0 },
            )
        }),
{
    let bindings = texture_bindings(mesh.textures@);
    assert(bindings[3 * index] == texture_binding(mesh.textures@, 3 * index));
    assert(bindings[3 * index + 1] == texture_binding(mesh.textures@, 3 * index + 1));
    assert(bindings[3 * index + 2] == texture_binding(mesh.textures@, 3 * index + 2));
}

/// The exact test of [`valid_geometry`].
pub fn is_valid_geometry(vertices: usize, indices: &Vec<u32>, textures: usize) -> (valid: bool)
    ensures
        valid == valid_geometry(vertices as nat, indices@, textures as nat),
{
    if vertices == 0 || vertices > (isize::MAX as usize) / VERTEX_STRIDE {
        return false;
    }
    if indices.len() % 3 != 0 || indices.len() > 0x7fff_ffff || indices.len() > (
    isize::MAX as usize) / 4 {
        return false;
    }
    if textures > 0x7fff_ffff {
        return false;
    }
    let mut i: usize = 0;
    while i < indices.len()
        invariant
            i <= indices.len(),
            forall|j: int| 0 <= j < i ==> (#[trigger] indices@[j]) < vertices,
        decreases indices.len() - i,
    {
        if indices[i] as usize >= vertices {
            return false;
        }
        i += 1;
    }
    true
}

/// A mesh and the GPU objects that hold it.
#[derive(Clone, PartialEq, Eq, Debug)]
pub struct Mesh {
    pub vertices: Vec<Vertex>,
    pub indices: Vec<u32>,
    pub textures: Vec<MeshTexture>,
    pub vao: u32,
    pub vbo: u32,
    pub ebo: u32,
}

impl Mesh {
    /// The mesh is made of triangles over its own vertices, and its sizes fit
    /// the integer types of the graphics API.
    pub open spec fn wf(&self) -> bool {
        valid_geometry(self.vertices@.len(), self.indices@, self.textures@.len())
    }

    /// Whether a mesh can be made of the data: the exact test of
    /// [`valid_geometry`].
    pub fn is_valid(vertices: &Vec<Vertex>, indices: &Vec<u32>, textures: &Vec<MeshTexture>) -> (valid:
        bool)
        ensures
            valid == valid_geometry(vertices@.len(), indices@, textures@.len()),
    {
        is_valid_geometry(vertices.len(), indices, textures.len())
    }

    /// The commands that upload a mesh to the objects `vao`, `vbo` and `ebo`
    /// and describe its vertex layout.
    pub open spec fn setup_model(vertices: Seq<Vertex>, indices: Seq<u32>, vao: u32, vbo: u32, ebo: u32) -> Seq<
        CommandView,
    > {
        seq![
            CommandView::Call(GlCall::BindVertexArray { array: vao }),
            CommandView::Call(GlCall::BindBuffer { target: ARRAY_BUFFER, buffer: vbo }),
            CommandView::BufferData {
                target: ARRAY_BUFFER,
                data: vertex_words(vertices),
                usage: STATIC_DRAW,
            },
            CommandView::Call(GlCall::BindBuffer { target: ELEMENT_ARRAY_BUFFER, buffer: ebo }),
            CommandView::BufferData { target: ELEMENT_ARRAY_BUFFER, data: indices, usage: STATIC_DRAW },
            CommandView::Call(GlCall::EnableVertexAttribArray { index: 0 }),
            CommandView::Call(attribute_pointer(0)),
            CommandView::Call(GlCall::EnableVertexAttribArray { index: 1 }),
            CommandView::Call(attribute_pointer(1)),
            CommandView::Call(GlCall::EnableVertexAttribArray { index: 2 }),
            CommandView::Call(attribute_pointer(2)),
            CommandView::Call(GlCall::BindVertexArray { array: 0 }),
        ]
    }

    /// Makes a mesh of the data and the freshly generated vertex array `vao`
    /// and buffers `vbo` and `ebo`, and says how to upload it.
    ///
    /// An empty vertex list is not a mesh: see [`Mesh::is_valid`].
    pub fn new(
        vertices: Vec<Vertex>,
        indices: Vec<u32>,
        textures: Vec<MeshTexture>,
        vao: u32,
        vbo: u32,
        ebo: u32,
    ) -> (made: (Mesh, Vec<Command>))
        requires
            valid_geometry(vertices@.len(), indices@, textures@.len()),
        ensures
            made.0.wf(),
            made.0.vertices == vertices,
            made.0.indices == indices,
            made.0.textures == textures,
            made.0.vao == vao,
            made.0.vbo == vbo,
            made.0.ebo == ebo,
            views(made.1@) == Mesh::setup_model(vertices@, indices@, vao, vbo, ebo),
    {
        let mesh = Mesh { vertices, indices, textures, vao, vbo, ebo };
        let commands = mesh.setup_mesh();
        (mesh, commands)
    }

    fn setup_mesh(&self) -> (commands: Vec<Command>)
        requires
            self.wf(),
        ensures
            views(commands@) == Mesh::setup_model(
                self.vertices@,
                self.indices@,
                self.vao,
                self.vbo,
                self.ebo,
            ),
    {
        let commands = vec![
            Command::Call(GlCall::BindVertexArray { array: self.vao }),
            Command::Call(GlCall::BindBuffer { target: ARRAY_BUFFER, buffer: self.vbo }),
            Command::BufferData {
                target: ARRAY_BUFFER,
                data: pack_vertices(&self.vertices),
                usage: STATIC_DRAW,
            },
            Command::Call(GlCall::BindBuffer { target: ELEMENT_ARRAY_BUFFER, buffer: self.ebo }),
            Command::BufferData {
                target: ELEMENT_ARRAY_BUFFER,
                data: copy_words(&self.indices),
                usage: STATIC_DRAW,
            },
            Command::Call(GlCall::EnableVertexAttribArray { index: 0 }),
            Command::Call(vertex_attribute(0)),
            Command::Call(GlCall::EnableVertexAttribArray { index: 1 }),
            Command::Call(vertex_attribute(1)),
            Command::Call(GlCall::EnableVertexAttribArray { index: 2 }),
            Command::Call(vertex_attribute(2)),
            Command::Call(GlCall::BindVertexArray { array: 0 }),
        ];
        assert(views(commands@) =~= Mesh::setup_model(
            self.vertices@,
            self.indices@,
            self.vao,
            self.vbo,
            self.ebo,
        ));
        commands
    }

    /// The commands that release the GPU objects of the mesh. The mesh is
    /// given up with them, so they are issued once.
    pub fn delete(self) -> (commands: Vec<Command>)
        ensures
            views(commands@) == seq![
                CommandView::Call(GlCall::DeleteVertexArray { array: self.vao }),
                CommandView::Call(GlCall::DeleteBuffer { buffer: self.vbo }),
                CommandView::Call(GlCall::DeleteBuffer { buffer: self.ebo }),
            ],
    {
        let commands = vec![
            Command::Call(GlCall::DeleteVertexArray { array: self.vao }),
            Command::Call(GlCall::DeleteBuffer { buffer: self.vbo }),
            Command::Call(GlCall::DeleteBuffer { buffer: self.ebo }),
        ];
        assert(views(commands@) =~= seq![
            CommandView::Call(GlCall::DeleteVertexArray { array: self.vao }),
            CommandView::Call(GlCall::DeleteBuffer { buffer: self.vbo }),
            CommandView::Call(GlCall::DeleteBuffer { buffer: self.ebo }),
        ]);
        commands
    }

    /// The exact test of [`Mesh::wf`].
    pub fn is_well_formed(&self) -> (valid: bool)
        ensures
            valid == self.wf(),
    {
        Mesh::is_valid(&self.vertices, &self.indices, &self.textures)
    }

    /// The commands of [`Mesh::draw`] with the program `program` in use.
    pub open spec fn draw_model(&self, program: u32) -> Seq<CommandView> {
        seq![CommandView::Call(GlCall::UseProgram { program })] + texture_bindings(self.textures@)
            + seq![
            CommandView::Call(GlCall::BindVertexArray { array: self.vao }),
            CommandView::Call(
                GlCall::DrawElements {
                    mode: TRIANGLES,
                    count: self.indices@.len() as i32,
                    kind: UNSIGNED_INT,
                },
            ),
            CommandView::Call(GlCall::BindVertexArray { array: 0 }),
            CommandView::Call(GlCall::ActiveTexture { unit: TEXTURE0 }),
            CommandView::Call(GlCall::BindTexture { target: TEXTURE_2D, texture: 0 }),
        ]
    }

    /// Renders the mesh with `shader`.
    ///
    /// The texture at position `i` goes to texture unit `i`, and the sampler
    /// uniform named after its type and its rank among the textures of that
    /// type is set to `i`. After the draw, unit 0 is active and has no
    /// two-dimensional texture bound.
    pub fn draw(&self, shader: &Shader) -> (commands: Vec<Command>)
        requires
            self.wf(),
        ensures
            views(commands@) == self.draw_model(shader.program),
    {
        let ghost model = self.draw_model(shader.program);
        let ghost textures = self.textures@;
        let mut commands: Vec<Command> = Vec::new();
        proof {
            lemma_views_push(commands@, Command::Call(GlCall::UseProgram { program: shader.program }));
        }
        commands.push(Command::Call(shader.use_program()));
        assert(views(commands@) =~= model.subrange(0, 1));
        let mut diffuse_n: u32 = 0;
        let mut specular_n: u32 = 0;
        let mut normal_n: u32 = 0;
        let mut height_n: u32 = 0;
        let mut i: usize = 0;
        while i < self.textures.len()
            invariant
                i <= self.textures.len(),
                self.textures.len() <= i32::MAX,
                textures == self.textures@,
                model == self.draw_model(shader.program),
                diffuse_n == occurrences(textures, TextureType::Diffuse, i as int),
                specular_n == occurrences(textures, TextureType::Specular, i as int),
                normal_n == occurrences(textures, TextureType::Normal, i as int),
                height_n == occurrences(textures, TextureType::Height, i as int),
                diffuse_n <= i,
                specular_n <= i,
                normal_n <= i,
                height_n <= i,
                views(commands@) == model.subrange(0, 1 + 3 * i),
            decreases self.textures.len() - i,
        {
            let texture = &self.textures[i];
            let unit = Command::Call(GlCall::ActiveTexture { unit: TEXTURE0 + i as u32 });
            let kind = texture.texture_type;
            let number = match kind {
                TextureType::Diffuse => {
                    diffuse_n += 1;
                    diffuse_n
                },
                TextureType::Specular => {
                    specular_n += 1;
                    specular_n
                },
                TextureType::Normal => {
                    normal_n += 1;
                    normal_n
                },
                TextureType::Height => {
                    height_n += 1;
                    height_n
                },
            };
            assert(number == occurrences(textures, kind, i + 1));
            let mut name = String::from_str(kind.name());
            push_decimal(&mut name, number);
            let sampler = Command::Uniform { name, value: UniformValue::Int(i as i32) };
            let bind = Command::Call(texture.texture.bind());
            proof {
                let k = 1 + 3 * i;
                assert(unit@ == texture_binding(textures, 3 * i));
                assert(sampler@ == texture_binding(textures, 3 * i + 1));
                assert(bind@ == texture_binding(textures, 3 * i + 2));
                assert(model[k] == texture_binding(textures, 3 * i));
                assert(model[k + 1] == texture_binding(textures, 3 * i + 1));
                assert(model[k + 2] == texture_binding(textures, 3 * i + 2));
                lemma_views_push(commands@, unit);
                lemma_views_push(commands@.push(unit), sampler);
                lemma_views_push(commands@.push(unit).push(sampler), bind);
                assert(model.subrange(0, k + 3) =~= model.subrange(0, k).push(model[k]).push(
                    model[k + 1],
                ).push(model[k + 2]));
            }
            commands.push(unit);
            commands.push(sampler);
            commands.push(bind);
            i += 1;
        }
        let tail0 = Command::Call(GlCall::BindVertexArray { array: self.vao });
        let tail1 = Command::Call(
            GlCall::DrawElements {
                mode: TRIANGLES,
                count: self.indices.len() as i32,
                kind: UNSIGNED_INT,
            },
        );
        let tail2 = Command::Call(GlCall::BindVertexArray { array: 0 });
        let tail3 = Command::Call(GlCall::ActiveTexture { unit: TEXTURE0 });
        let tail4 = Command::Call(unbind());
        proof {
            lemma_views_push(commands@, tail0);
            lemma_views_push(commands@.push(tail0), tail1);
            lemma_views_push(commands@.push(tail0).push(tail1), tail2);
            lemma_views_push(commands@.push(tail0).push(tail1).push(tail2), tail3);
            lemma_views_push(commands@.push(tail0).push(tail1).push(tail2).push(tail3), tail4);
            assert(model =~= model.subrange(0, 1 + 3 * i).push(tail0@).push(tail1@).push(tail2@).push(
                tail3@,
            ).push(tail4@));
        }
        commands.push(tail0);
        commands.push(tail1);
        commands.push(tail2);
        commands.push(tail3);
        commands.push(tail4);
        commands
    }
}

} // verus!
