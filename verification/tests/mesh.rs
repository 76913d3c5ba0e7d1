use res_errare::command::{Command, GlCall, UniformValue};
use res_errare::constants::{
    ARRAY_BUFFER, ELEMENT_ARRAY_BUFFER, FALSE, FLOAT, STATIC_DRAW, TEXTURE0, TEXTURE_2D, TRIANGLES,
    UNSIGNED_INT,
};
use res_errare::mesh::{
    copy_words, is_valid_geometry, pack_vertices, vertex_attribute, Mesh, MeshTexture, TextureType,
    Vertex, NORMAL_OFFSET, POSITION_OFFSET, TEXTURE_COORDS_OFFSET, VERTEX_STRIDE,
};
use res_errare::shader::Shader;
use res_errare::texture::Texture;

fn vertex(seed: f32) -> Vertex {
    Vertex {
        position: [seed.to_bits(), (seed + 1.0).to_bits(), (seed + 2.0).to_bits()],
        normal: [(seed + 3.0).to_bits(), (seed + 4.0).to_bits(), (seed + 5.0).to_bits()],
        texture_coords: [(seed + 6.0).to_bits(), (seed + 7.0).to_bits()],
    }
}

fn texture(id: u32, texture_type: TextureType, path: &str) -> MeshTexture {
    MeshTexture { texture: Texture { id, width: 4, height: 4 }, texture_type, path: path.to_string() }
}

fn sampler(name: &str, unit: i32) -> Command {
    Command::Uniform { name: name.to_string(), value: UniformValue::Int(unit) }
}

fn call(call: GlCall) -> Command {
    Command::Call(call)
}

#[test]
fn two_diffuse_textures_get_numbered_samplers_in_units_zero_and_one() {
    let textures = vec![
        texture(11, TextureType::Diffuse, "a.png"),
        texture(12, TextureType::Diffuse, "b.png"),
    ];
    let (mesh, _) = Mesh::new(vec![vertex(0.0)], vec![0, 0, 0], textures, 1, 2, 3);
    let shader = Shader::from_program(9);
    let commands = mesh.draw(&shader);
    assert_eq!(
        commands,
        vec![
            call(GlCall::UseProgram { program: 9 }),
            call(GlCall::ActiveTexture { unit: TEXTURE0 }),
            sampler("texture_diffuse1", 0),
            call(GlCall::BindTexture { target: TEXTURE_2D, texture: 11 }),
            call(GlCall::ActiveTexture { unit: TEXTURE0 + 1 }),
            sampler("texture_diffuse2", 1),
            call(GlCall::BindTexture { target: TEXTURE_2D, texture: 12 }),
            call(GlCall::BindVertexArray { array: 1 }),
            call(GlCall::DrawElements { mode: TRIANGLES, count: 3, kind: UNSIGNED_INT }),
            call(GlCall::BindVertexArray { array: 0 }),
            call(GlCall::ActiveTexture { unit: TEXTURE0 }),
            call(GlCall::BindTexture { target: TEXTURE_2D, texture: 0 }),
        ]
    );
}

#[test]
fn sampler_numbers_count_each_texture_type_on_its_own() {
    let textures = vec![
        texture(1, TextureType::Diffuse, "d1"),
        texture(2, TextureType::Specular, "s1"),
        texture(3, TextureType::Diffuse, "d2"),
        texture(4, TextureType::Normal, "n1"),
        texture(5, TextureType::Height, "h1"),
        texture(6, TextureType::Specular, "s2"),
        texture(7, TextureType::Height, "h2"),
    ];
    let (mesh, _) = Mesh::new(vec![vertex(0.0)], vec![0, 0, 0], textures, 1, 2, 3);
    let commands = mesh.draw(&Shader::from_program(1));
    let names: Vec<(String, UniformValue)> = commands
        .iter()
        .filter_map(|command| match command {
            Command::Uniform { name, value } => Some((name.clone(), *value)),
            _ => None,
        })
        .collect();
    let expected = [
        "texture_diffuse1",
        "texture_specular1",
        "texture_diffuse2",
        "texture_normal1",
        "texture_height1",
        "texture_specular2",
        "texture_height2",
    ];
    assert_eq!(names.len(), expected.len());
    for (unit, name) in expected.iter().enumerate() {
        assert_eq!(names[unit], (name.to_string(), UniformValue::Int(unit as i32)));
    }
}

#[test]
fn sampler_numbers_are_recomputed_by_every_draw() {
    let textures = vec![texture(1, TextureType::Diffuse, "d1")];
    let (mesh, _) = Mesh::new(vec![vertex(0.0)], vec![0, 0, 0], textures, 1, 2, 3);
    let shader = Shader::from_program(1);
    let first = mesh.draw(&shader);
    let second = mesh.draw(&shader);
    assert_eq!(first, second);
    assert_eq!(first[2], sampler("texture_diffuse1", 0));
}

#[test]
fn sampler_numbers_go_past_nine() {
    let textures: Vec<MeshTexture> =
        (0..12).map(|i| texture(i + 1, TextureType::Normal, "n")).collect();
    let (mesh, _) = Mesh::new(vec![vertex(0.0)], vec![0, 0, 0], textures, 1, 2, 3);
    let commands = mesh.draw(&Shader::from_program(1));
    assert_eq!(commands[1 + 3 * 9 + 1], sampler("texture_normal10", 9));
    assert_eq!(commands[1 + 3 * 11 + 1], sampler("texture_normal12", 11));
    assert_eq!(commands[1 + 3 * 11], call(GlCall::ActiveTexture { unit: TEXTURE0 + 11 }));
}

#[test]
fn minimal_single_triangle_mesh_draws() {
    let (mesh, setup) = Mesh::new(vec![vertex(1.0)], vec![0, 0, 0], vec![], 4, 5, 6);
    assert_eq!(setup.len(), 12);
    let commands = mesh.draw(&Shader::from_program(2));
    assert_eq!(
        commands,
        vec![
            call(GlCall::UseProgram { program: 2 }),
            call(GlCall::BindVertexArray { array: 4 }),
            call(GlCall::DrawElements { mode: TRIANGLES, count: 3, kind: UNSIGNED_INT }),
            call(GlCall::BindVertexArray { array: 0 }),
            call(GlCall::ActiveTexture { unit: TEXTURE0 }),
            call(GlCall::BindTexture { target: TEXTURE_2D, texture: 0 }),
        ]
    );
}

#[test]
fn empty_vertex_list_is_no_mesh() {
    assert!(!Mesh::is_valid(&vec![], &vec![], &vec![]));
    assert!(!Mesh::is_valid(&vec![], &vec![0, 0, 0], &vec![]));
    assert!(Mesh::is_valid(&vec![vertex(0.0)], &vec![0, 0, 0], &vec![]));
    assert!(Mesh::is_valid(&vec![vertex(0.0)], &vec![], &vec![]));
}

#[test]
fn indices_must_form_triangles_over_the_vertices() {
    let vertices = vec![vertex(0.0), vertex(1.0)];
    assert!(Mesh::is_valid(&vertices, &vec![0, 1, 1], &vec![]));
    assert!(!Mesh::is_valid(&vertices, &vec![0, 1], &vec![]));
    assert!(!Mesh::is_valid(&vertices, &vec![0, 1, 1, 0], &vec![]));
    assert!(!Mesh::is_valid(&vertices, &vec![0, 1, 2], &vec![]));
    assert!(is_valid_geometry(2, &vec![1, 1, 1, 0, 0, 0], 3));
    assert!(!is_valid_geometry(0, &vec![], 0));
    assert!(!is_valid_geometry(usize::MAX, &vec![], 0));
}

#[test]
fn new_mesh_keeps_its_data_and_uploads_it() {
    let vertices = vec![vertex(0.5), vertex(10.0)];
    let indices = vec![0, 1, 0];
    let textures = vec![texture(7, TextureType::Specular, "s.png")];
    let (mesh, setup) =
        Mesh::new(vertices.clone(), indices.clone(), textures.clone(), 21, 22, 23);
    assert_eq!(mesh.vertices, vertices);
    assert_eq!(mesh.indices, indices);
    assert_eq!(mesh.textures, textures);
    assert_eq!((mesh.vao, mesh.vbo, mesh.ebo), (21, 22, 23));
    let mut words = Vec::new();
    for v in &vertices {
        words.extend_from_slice(&v.position);
        words.extend_from_slice(&v.normal);
        words.extend_from_slice(&v.texture_coords);
    }
    let pointer = |index: u32, size: i32, offset: usize| {
        call(GlCall::VertexAttribPointer {
            index,
            size,
            kind: FLOAT,
            normalized: FALSE,
            stride: 32,
            offset,
        })
    };
    assert_eq!(
        setup,
        vec![
            call(GlCall::BindVertexArray { array: 21 }),
            call(GlCall::BindBuffer { target: ARRAY_BUFFER, buffer: 22 }),
            Command::BufferData { target: ARRAY_BUFFER, data: words, usage: STATIC_DRAW },
            call(GlCall::BindBuffer { target: ELEMENT_ARRAY_BUFFER, buffer: 23 }),
            Command::BufferData { target: ELEMENT_ARRAY_BUFFER, data: indices, usage: STATIC_DRAW },
            call(GlCall::EnableVertexAttribArray { index: 0 }),
            pointer(0, 3, 0),
            call(GlCall::EnableVertexAttribArray { index: 1 }),
            pointer(1, 3, 12),
            call(GlCall::EnableVertexAttribArray { index: 2 }),
            pointer(2, 2, 24),
            call(GlCall::BindVertexArray { array: 0 }),
        ]
    );
}

#[test]
fn vertex_buffer_holds_each_attribute_at_its_declared_offset() {
    let vertices = vec![vertex(1.0), vertex(20.0), vertex(300.0)];
    let words = pack_vertices(&vertices);
    assert_eq!(words.len() * 4, vertices.len() * VERTEX_STRIDE);
    for (i, v) in vertices.iter().enumerate() {
        let at = |offset: usize, c: usize| words[(i * VERTEX_STRIDE + offset) / 4 + c];
        for c in 0..3 {
            assert_eq!(at(POSITION_OFFSET, c), v.position[c]);
            assert_eq!(at(NORMAL_OFFSET, c), v.normal[c]);
        }
        for c in 0..2 {
            assert_eq!(at(TEXTURE_COORDS_OFFSET, c), v.texture_coords[c]);
        }
    }
    assert_eq!(f32::from_bits(words[8]), 20.0);
    assert_eq!(f32::from_bits(words[8 + 7]), 27.0);
}

#[test]
fn vertex_layout_is_that_of_a_packed_record_of_eight_floats() {
    assert_eq!(VERTEX_STRIDE, 8 * std::mem::size_of::<f32>());
    assert_eq!(POSITION_OFFSET, 0);
    assert_eq!(NORMAL_OFFSET, 3 * std::mem::size_of::<f32>());
    assert_eq!(TEXTURE_COORDS_OFFSET, 6 * std::mem::size_of::<f32>());
    assert_eq!(std::mem::size_of::<Vertex>(), VERTEX_STRIDE);
    assert_eq!(
        vertex_attribute(2),
        GlCall::VertexAttribPointer {
            index: 2,
            size: 2,
            kind: FLOAT,
            normalized: FALSE,
            stride: 32,
            offset: 24,
        }
    );
}

#[test]
fn default_vertex_is_all_zero() {
    let v = Vertex::default();
    assert_eq!(v.position, [0, 0, 0]);
    assert_eq!(v.normal, [0, 0, 0]);
    assert_eq!(v.texture_coords, [0, 0]);
    assert_eq!(f32::from_bits(v.position[0]), 0.0);
}

#[test]
fn deleting_a_mesh_releases_its_three_objects() {
    let (mesh, _) = Mesh::new(vec![vertex(0.0)], vec![0, 0, 0], vec![], 4, 5, 6);
    assert_eq!(
        mesh.delete(),
        vec![
            call(GlCall::DeleteVertexArray { array: 4 }),
            call(GlCall::DeleteBuffer { buffer: 5 }),
            call(GlCall::DeleteBuffer { buffer: 6 }),
        ]
    );
}

#[test]
fn texture_type_names_are_the_sampler_stems() {
    assert_eq!(TextureType::Diffuse.name(), "texture_diffuse");
    assert_eq!(TextureType::Specular.name(), "texture_specular");
    assert_eq!(TextureType::Normal.name(), "texture_normal");
    assert_eq!(TextureType::Height.name(), "texture_height");
}

#[test]
fn shared_mesh_texture_is_the_same_entry() {
    let entry = texture(3, TextureType::Normal, "n.png");
    assert_eq!(entry.share(), entry);
    assert_eq!(copy_words(&vec![3, 1, 2]), vec![3, 1, 2]);
}
