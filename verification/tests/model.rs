use res_errare::command::{Command, GlCall};
use res_errare::mesh::{Mesh, MeshTexture, TextureType, Vertex};
use res_errare::model::{LoadStep, Model, ObjMaterial, ObjMesh};
use res_errare::shader::Shader;
use res_errare::texture::{Image, Texture, TextureError};

fn bits(values: &[f32]) -> Vec<u32> {
    values.iter().map(|v| v.to_bits()).collect()
}

fn triangle(material_id: Option<usize>) -> ObjMesh {
    ObjMesh {
        positions: bits(&[0.0, 0.0, 0.0, 1.0, 0.0, 0.0, 0.0, 1.0, 0.0]),
        normals: bits(&[0.0, 0.0, 1.0, 0.0, 0.0, 1.0, 0.0, 0.0, 1.0]),
        texcoords: bits(&[0.0, 0.0, 1.0, 0.0, 0.0, 1.0]),
        indices: vec![0, 1, 2],
        material_id,
    }
}

fn material(diffuse: &str, specular: &str, normal: &str) -> ObjMaterial {
    ObjMaterial {
        diffuse_texture: diffuse.to_string(),
        specular_texture: specular.to_string(),
        normal_texture: normal.to_string(),
    }
}

fn image(width: usize, height: usize) -> Image {
    Image { width, height, depth: 4, data: vec![7; width * height * 4] }
}

fn entry(id: u32, texture_type: TextureType, path: &str, width: usize, height: usize) -> MeshTexture {
    MeshTexture { texture: Texture { id, width, height }, texture_type, path: path.to_string() }
}

#[test]
fn loading_the_same_path_twice_returns_the_cached_entry() {
    let mut model = Model::new("assets/models", true);
    let (first, upload) = model.load_material_texture("wood.png", TextureType::Diffuse, 5, image(2, 2));
    let first = first.unwrap();
    assert_eq!(first, entry(5, TextureType::Diffuse, "wood.png", 2, 2));
    assert_eq!(upload.len(), 7);
    let (second, commands) =
        model.load_material_texture("wood.png", TextureType::Specular, 6, image(8, 8));
    assert_eq!(second, Ok(first.clone()));
    assert_eq!(commands, vec![Command::Call(GlCall::DeleteTexture { texture: 6 })]);
    assert_eq!(model.textures_loaded, vec![first.clone()]);
    let (third, commands) = model.load_material_texture("wood.png", TextureType::Diffuse, 0, image(1, 1));
    assert_eq!(third, Ok(first.clone()));
    assert!(commands.is_empty());
    assert_eq!(model.find_texture(&"wood.png".to_string()), Some(first));
    assert_eq!(model.find_texture(&"wood.jpg".to_string()), None);
}

#[test]
fn textures_of_other_paths_are_kept_apart() {
    let mut model = Model::new("", false);
    model.load_material_texture("a.png", TextureType::Diffuse, 1, image(1, 1)).0.unwrap();
    model.load_material_texture("b.png", TextureType::Normal, 2, image(2, 1)).0.unwrap();
    assert_eq!(
        model.textures_loaded,
        vec![
            entry(1, TextureType::Diffuse, "a.png", 1, 1),
            entry(2, TextureType::Normal, "b.png", 2, 1),
        ]
    );
}

#[test]
fn texture_that_cannot_be_made_is_not_remembered() {
    let mut model = Model::new("", false);
    let (loaded, commands) = model.load_material_texture("a.png", TextureType::Diffuse, 0, image(1, 1));
    assert_eq!(loaded, Err(TextureError::ResourceCreation));
    assert!(commands.is_empty());
    let mut bad = image(2, 2);
    bad.depth = 9;
    let (loaded, commands) = model.load_material_texture("a.png", TextureType::Diffuse, 3, bad);
    assert_eq!(loaded, Err(TextureError::UnsupportedImageFormat));
    assert_eq!(commands, vec![Command::Call(GlCall::DeleteTexture { texture: 3 })]);
    assert!(model.textures_loaded.is_empty());
}

#[test]
fn object_without_material_becomes_a_mesh_without_textures() {
    let mut model = Model::new("dir", false);
    let object = triangle(None);
    let step = model.load_model(&object, &vec![], 1, 2, 3);
    let expected_vertices = vec![
        Vertex {
            position: [0, 0, 0],
            normal: [0, 0, 1.0f32.to_bits()],
            texture_coords: [0, 0],
        },
        Vertex {
            position: [1.0f32.to_bits(), 0, 0],
            normal: [0, 0, 1.0f32.to_bits()],
            texture_coords: [1.0f32.to_bits(), 0],
        },
        Vertex {
            position: [0, 1.0f32.to_bits(), 0],
            normal: [0, 0, 1.0f32.to_bits()],
            texture_coords: [0, 1.0f32.to_bits()],
        },
    ];
    let (mesh, setup) = Mesh::new(expected_vertices, vec![0, 1, 2], vec![], 1, 2, 3);
    assert_eq!(step, LoadStep::Loaded(setup));
    assert_eq!(model.meshes, vec![mesh]);
}

#[test]
fn object_asks_for_its_textures_one_after_the_other() {
    let mut model = Model::new("dir", false);
    let object = triangle(Some(1));
    let materials = vec![material("x", "y", "z"), material("d.png", "", "n.png")];
    let step = model.load_model(&object, &materials, 1, 2, 3);
    assert_eq!(
        step,
        LoadStep::NeedTexture { path: "d.png".to_string(), texture_type: TextureType::Diffuse }
    );
    assert!(model.meshes.is_empty());
    model.load_material_texture("d.png", TextureType::Diffuse, 10, image(1, 1)).0.unwrap();
    let step = model.load_model(&object, &materials, 1, 2, 3);
    assert_eq!(
        step,
        LoadStep::NeedTexture { path: "n.png".to_string(), texture_type: TextureType::Normal }
    );
    model.load_material_texture("n.png", TextureType::Normal, 11, image(2, 2)).0.unwrap();
    let step = model.load_model(&object, &materials, 1, 2, 3);
    assert!(matches!(step, LoadStep::Loaded(_)));
    assert_eq!(
        model.meshes[0].textures,
        vec![
            entry(10, TextureType::Diffuse, "d.png", 1, 1),
            entry(11, TextureType::Normal, "n.png", 2, 2),
        ]
    );
}

#[test]
fn material_textures_come_in_the_order_diffuse_specular_normal() {
    let mut model = Model::new("dir", false);
    model.load_material_texture("n", TextureType::Normal, 3, image(1, 1)).0.unwrap();
    model.load_material_texture("s", TextureType::Specular, 2, image(1, 1)).0.unwrap();
    model.load_material_texture("d", TextureType::Diffuse, 1, image(1, 1)).0.unwrap();
    let step = model.load_model(&triangle(Some(0)), &vec![material("d", "s", "n")], 1, 2, 3);
    assert!(matches!(step, LoadStep::Loaded(_)));
    let ids: Vec<u32> = model.meshes[0].textures.iter().map(|t| t.texture.id).collect();
    assert_eq!(ids, vec![1, 2, 3]);
}

#[test]
fn meshes_of_one_model_share_a_texture() {
    let mut model = Model::new("dir", false);
    let materials = vec![material("shared.png", "", ""), material("", "shared.png", "")];
    model.load_material_texture("shared.png", TextureType::Diffuse, 4, image(1, 1)).0.unwrap();
    assert!(matches!(model.load_model(&triangle(Some(0)), &materials, 1, 2, 3), LoadStep::Loaded(_)));
    assert!(matches!(model.load_model(&triangle(Some(1)), &materials, 4, 5, 6), LoadStep::Loaded(_)));
    assert_eq!(model.meshes[0].textures, model.meshes[1].textures);
    assert_eq!(model.meshes[1].textures, vec![entry(4, TextureType::Diffuse, "shared.png", 1, 1)]);
    assert_eq!(model.textures_loaded.len(), 1);
}

#[test]
fn model_draws_its_meshes_in_the_order_of_loading() {
    let mut model = Model::new("dir", false);
    model.load_model(&triangle(None), &vec![], 1, 2, 3);
    model.load_model(&triangle(None), &vec![], 4, 5, 6);
    let shader = Shader::from_program(9);
    let mut expected = model.meshes[0].draw(&shader);
    expected.extend(model.meshes[1].draw(&shader));
    let commands = model.draw(&shader);
    assert_eq!(commands, expected);
    assert_eq!(commands[1], Command::Call(GlCall::BindVertexArray { array: 1 }));
    assert_eq!(commands[7], Command::Call(GlCall::BindVertexArray { array: 4 }));
    assert!(Model::new("", true).draw(&shader).is_empty());
}

#[test]
fn new_model_is_empty() {
    let model = Model::new("assets/models", true);
    assert!(model.meshes.is_empty());
    assert!(model.textures_loaded.is_empty());
    assert!(model.flip_texture);
    assert_eq!(model.directory, "assets/models");
}

#[test]
fn object_must_have_aligned_attributes_and_a_known_material() {
    assert!(triangle(None).is_well_formed(0));
    assert!(triangle(Some(1)).is_well_formed(2));
    assert!(!triangle(Some(2)).is_well_formed(2));
    let mut object = triangle(None);
    object.normals.pop();
    assert!(!object.is_well_formed(0));
    let mut object = triangle(None);
    object.texcoords.clear();
    assert!(!object.is_well_formed(0));
    let mut object = triangle(None);
    object.indices = vec![0, 1, 3];
    assert!(!object.is_well_formed(0));
    let mut object = triangle(None);
    object.positions.clear();
    assert!(!object.is_well_formed(0));
}

#[test]
fn vertices_interleave_the_attribute_arrays() {
    let object = ObjMesh {
        positions: (0..6).collect(),
        normals: (10..16).collect(),
        texcoords: (20..24).collect(),
        indices: vec![],
        material_id: None,
    };
    assert_eq!(
        object.vertices(),
        vec![
            Vertex { position: [0, 1, 2], normal: [10, 11, 12], texture_coords: [20, 21] },
            Vertex { position: [3, 4, 5], normal: [13, 14, 15], texture_coords: [22, 23] },
        ]
    );
    assert_eq!(material("a", "b", "c").texture(0), "a");
    assert_eq!(material("a", "b", "c").texture(1), "b");
    assert_eq!(material("a", "b", "c").texture(2), "c");
}

#[test]
fn model_is_well_formed_while_its_meshes_are_and_its_paths_differ() {
    let mut model = Model::new("dir", false);
    assert!(model.is_well_formed());
    model.load_material_texture("a.png", TextureType::Diffuse, 1, image(1, 1)).0.unwrap();
    model.load_material_texture("b.png", TextureType::Diffuse, 2, image(1, 1)).0.unwrap();
    model.load_model(&triangle(None), &vec![], 1, 2, 3);
    assert!(model.is_well_formed());
    assert!(model.meshes[0].is_well_formed());
    let mut twice = model.clone();
    twice.textures_loaded.push(entry(3, TextureType::Normal, "a.png", 1, 1));
    assert!(!twice.is_well_formed());
    let mut broken = model.clone();
    broken.meshes[0].indices.push(0);
    assert!(!broken.meshes[0].is_well_formed());
    assert!(!broken.is_well_formed());
}
