use res_errare::command::{Command, GlCall, UniformValue};
use res_errare::constants::{
    ARRAY_BUFFER, FALSE, FLOAT, LEQUAL, LESS, STATIC_DRAW, TEXTURE0, TEXTURE_CUBE_MAP, TRIANGLES,
};
use res_errare::cube_map::CubeMapTexture;
use res_errare::shader::{Shader, ShaderError};
use res_errare::skybox::{skybox_vertices, Skybox, VAOHolder, MINUS_ONE, SKYBOX_VERTICES};

fn setup(vao: u32, vbo: u32) -> Vec<Command> {
    vec![
        Command::Call(GlCall::BindVertexArray { array: vao }),
        Command::Call(GlCall::BindBuffer { target: ARRAY_BUFFER, buffer: vbo }),
        Command::BufferData { target: ARRAY_BUFFER, data: SKYBOX_VERTICES.to_vec(), usage: STATIC_DRAW },
        Command::Call(GlCall::EnableVertexAttribArray { index: 0 }),
        Command::Call(GlCall::VertexAttribPointer {
            index: 0,
            size: 3,
            kind: FLOAT,
            normalized: FALSE,
            stride: 12,
            offset: 0,
        }),
    ]
}

fn uniform(name: &str, value: UniformValue) -> Command {
    Command::Uniform { name: name.to_string(), value }
}

#[test]
fn skybox_cube_has_twelve_triangles_with_corners_at_plus_and_minus_one() {
    assert_eq!(MINUS_ONE, (-1.0f32).to_bits());
    assert_eq!(skybox_vertices(), SKYBOX_VERTICES.to_vec());
    let corners: Vec<f32> = SKYBOX_VERTICES.iter().map(|b| f32::from_bits(*b)).collect();
    assert_eq!(corners.len(), 36 * 3);
    assert!(corners.iter().all(|c| *c == 1.0 || *c == -1.0));
    assert_eq!(corners[..9], [-1.0, 1.0, -1.0, -1.0, -1.0, -1.0, 1.0, -1.0, -1.0]);
    assert_eq!(corners[105..], [1.0, -1.0, 1.0]);
    for face in 0..6 {
        let triangle = &corners[18 * face..18 * (face + 1)];
        let fixed = (0..3).filter(|axis| (0..6).all(|v| triangle[3 * v + axis] == triangle[*axis]));
        assert_eq!(fixed.count(), 1);
    }
}

#[test]
fn holder_fills_its_vertex_array_on_first_use_only() {
    let mut holder = VAOHolder::new();
    assert_eq!((holder.vao, holder.vbo), (0, 0));
    let mut expected = setup(5, 6);
    expected.push(Command::Call(GlCall::BindVertexArray { array: 5 }));
    assert_eq!(holder.bind(5, 6), expected);
    assert_eq!((holder.vao, holder.vbo), (5, 6));
    assert_eq!(holder.bind(8, 9), vec![Command::Call(GlCall::BindVertexArray { array: 5 })]);
    assert_eq!((holder.vao, holder.vbo), (5, 6));
}

#[test]
fn holder_releases_what_it_holds() {
    assert!(VAOHolder::new().delete().is_empty());
    let holder = VAOHolder { vao: 5, vbo: 6 };
    assert_eq!(
        holder.delete(),
        vec![
            Command::Call(GlCall::DeleteVertexArray { array: 5 }),
            Command::Call(GlCall::DeleteBuffer { buffer: 6 }),
        ]
    );
}

#[test]
fn new_skybox_points_its_sampler_at_unit_zero_and_scales_by_one() {
    let (skybox, commands) = Skybox::new(CubeMapTexture { id: 3 }, Shader::from_program(4));
    assert_eq!(skybox.cube_map, CubeMapTexture { id: 3 });
    assert_eq!(skybox.shader, Shader::from_program(4));
    assert_eq!(
        commands,
        vec![
            Command::Call(GlCall::UseProgram { program: 4 }),
            uniform("skybox", UniformValue::Int(0)),
            Command::Call(GlCall::UseProgram { program: 4 }),
            uniform("scale", UniformValue::Float(1.0f32.to_bits())),
        ]
    );
}

#[test]
fn skybox_scale_is_written_to_its_shader() {
    let (mut skybox, _) = Skybox::new(CubeMapTexture { id: 3 }, Shader::from_program(4));
    assert_eq!(
        skybox.scale(2.5f32.to_bits()),
        vec![
            Command::Call(GlCall::UseProgram { program: 4 }),
            uniform("scale", UniformValue::Float(2.5f32.to_bits())),
        ]
    );
}

#[test]
fn skybox_of_a_failed_shader_is_the_failure() {
    let failure = ShaderError::Link { log: "nope".to_string() };
    assert_eq!(Skybox::load(CubeMapTexture { id: 3 }, Err(failure.clone())), Err(failure));
    let made = Skybox::load(CubeMapTexture { id: 3 }, Ok(Shader::from_program(4)));
    assert_eq!(made, Ok(Skybox::new(CubeMapTexture { id: 3 }, Shader::from_program(4))));
}

#[test]
fn skybox_draw_brackets_the_cube_between_depth_functions() {
    let (skybox, _) = Skybox::new(CubeMapTexture { id: 3 }, Shader::from_program(4));
    let mut holder = VAOHolder { vao: 5, vbo: 6 };
    assert_eq!(
        skybox.draw(&mut holder, 0, 0),
        vec![
            Command::Call(GlCall::DepthFunc { func: LEQUAL }),
            Command::Call(GlCall::UseProgram { program: 4 }),
            Command::Call(GlCall::BindVertexArray { array: 5 }),
            Command::Call(GlCall::ActiveTexture { unit: TEXTURE0 }),
            Command::Call(GlCall::BindTexture { target: TEXTURE_CUBE_MAP, texture: 3 }),
            Command::Call(GlCall::DrawArrays { mode: TRIANGLES, first: 0, count: 36 }),
            Command::Call(GlCall::BindVertexArray { array: 0 }),
            Command::Call(GlCall::DepthFunc { func: LESS }),
        ]
    );
}

#[test]
fn first_skybox_draw_sets_up_the_cube() {
    let (skybox, _) = Skybox::new(CubeMapTexture { id: 3 }, Shader::from_program(4));
    let mut holder = VAOHolder::new();
    let commands = skybox.draw(&mut holder, 7, 8);
    assert_eq!(commands.len(), 2 + 5 + 1 + 5);
    assert_eq!(commands[2..7], setup(7, 8)[..]);
    assert_eq!(commands[7], Command::Call(GlCall::BindVertexArray { array: 7 }));
    assert_eq!(holder, VAOHolder { vao: 7, vbo: 8 });
}
