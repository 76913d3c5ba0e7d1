//! The skybox: a cube map drawn on a unit cube around the viewer.

use vstd::prelude::*;
use crate::command::{
    lemma_views_concat, lemma_views_push, views, Command, CommandView, GlCall, UniformValue,
};
use crate::constants::{
    ARRAY_BUFFER, FALSE, FLOAT, LEQUAL, LESS, STATIC_DRAW, TEXTURE0, TEXTURE_CUBE_MAP, TRIANGLES,
};
use crate::cube_map::CubeMapTexture;
use crate::renderer::ONE;
use crate::shader::{Shader, ShaderError};

verus! {

/// The bits of the single-precision number -1.
pub const MINUS_ONE: u32 = 0xbf80_0000;

/// The corners of the skybox cube's 12 triangles: 36 positions of three
/// coordinates, each 1 or -1, as bits of single-precision numbers.
pub const SKYBOX_VERTICES: [u32; 108] = [
    MINUS_ONE, ONE, MINUS_ONE,
    MINUS_ONE, MINUS_ONE, MINUS_ONE,
    ONE, MINUS_ONE, MINUS_ONE,
    ONE, MINUS_ONE, MINUS_ONE,
    ONE, ONE, MINUS_ONE,
    MINUS_ONE, ONE, MINUS_ONE,
    MINUS_ONE, MINUS_ONE, ONE,
    MINUS_ONE, MINUS_ONE, MINUS_ONE,
    MINUS_ONE, ONE, MINUS_ONE,
    MINUS_ONE, ONE, MINUS_ONE,
    MINUS_ONE, ONE, ONE,
    MINUS_ONE, MINUS_ONE, ONE,
    ONE, MINUS_ONE, MINUS_ONE,
    ONE, MINUS_ONE, ONE,
    ONE, ONE, ONE,
    ONE, ONE, ONE,
    ONE, ONE, MINUS_ONE,
    ONE, MINUS_ONE, MINUS_ONE,
    MINUS_ONE, MINUS_ONE, ONE,
    MINUS_ONE, ONE, ONE,
    ONE, ONE, ONE,
    ONE, ONE, ONE,
    ONE, MINUS_ONE, ONE,
    MINUS_ONE, MINUS_ONE, ONE,
    MINUS_ONE, ONE, MINUS_ONE,
    ONE, ONE, MINUS_ONE,
    ONE, ONE, ONE,
    ONE, ONE, ONE,
    MINUS_ONE, ONE, ONE,
    MINUS_ONE, ONE, MINUS_ONE,
    MINUS_ONE, MINUS_ONE, MINUS_ONE,
    MINUS_ONE, MINUS_ONE, ONE,
    ONE, MINUS_ONE, MINUS_ONE,
    ONE, MINUS_ONE, MINUS_ONE,
    MINUS_ONE, MINUS_ONE, ONE,
    ONE, MINUS_ONE, ONE,
];

/// How many vertices the skybox cube is drawn with.
pub const SKYBOX_VERTEX_COUNT: i32 = 36;

/// The vertex array of the skybox cube and the buffer behind it; both 0
/// until the first use.
#[derive(Clone, Copy, PartialEq, Eq, Debug)]
pub struct VAOHolder {
    pub vao: u32,
    pub vbo: u32,
}

impl VAOHolder {
    /// The commands that fill the vertex array `vao` and the buffer `vbo`
    /// with the skybox cube: tightly packed positions of three numbers.
    pub open spec fn setup_model(vao: u32, vbo: u32) -> Seq<CommandView> {
        seq![
            CommandView::Call(GlCall::BindVertexArray { array: vao }),
            CommandView::Call(GlCall::BindBuffer { target: ARRAY_BUFFER, buffer: vbo }),
            CommandView::BufferData {
                target: ARRAY_BUFFER,
                data: SKYBOX_VERTICES@,
                usage: STATIC_DRAW,
            },
            CommandView::Call(GlCall::EnableVertexAttribArray { index: 0 }),
            CommandView::Call(
                GlCall::VertexAttribPointer {
                    index: 0,
                    size: 3,
                    kind: FLOAT,
                    normalized: FALSE,
                    stride: 12,
                    offset: 0,
                },
            ),
        ]
    }

    /// A holder that holds nothing yet.
    pub fn new() -> (holder: VAOHolder)
        ensures
            holder.vao == 0,
            holder.vbo == 0,
    {
        VAOHolder { vao: 0, vbo: 0 }
    }

    /// Binds the vertex array of the skybox cube.
    ///
    /// On the first use the holder takes the freshly generated vertex array
    /// `vao` and buffer `vbo` and fills them; afterwards the two arguments
    /// are not looked at.
    pub fn bind(&mut self, vao: u32, vbo: u32) -> (commands: Vec<Command>)
        ensures
            old(self).vao == 0 ==> final(self).vao == vao && final(self).vbo == vbo && views(
                commands@,
            ) == VAOHolder::setup_model(vao, vbo) + seq![
                CommandView::Call(GlCall::BindVertexArray { array: vao }),
            ],
            old(self).vao != 0 ==> *final(self) == *old(self) && views(commands@) == seq![
                CommandView::Call(GlCall::BindVertexArray { array: old(self).vao }),
            ],
    {
        let mut commands: Vec<Command> = Vec::new();
        if self.vao == 0 {
            self.vao = vao;
            self.vbo = vbo;
            commands = vec![
                Command::Call(GlCall::BindVertexArray { array: self.vao }),
                Command::Call(GlCall::BindBuffer { target: ARRAY_BUFFER, buffer: self.vbo }),
                Command::BufferData {
                    target: ARRAY_BUFFER,
                    data: skybox_vertices(),
                    usage: STATIC_DRAW,
                },
                Command::Call(GlCall::EnableVertexAttribArray { index: 0 }),
                Command::Call(
                    GlCall::VertexAttribPointer {
                        index: 0,
                        size: 3,
                        kind: FLOAT,
                        normalized: FALSE,
                        stride: 12,
                        offset: 0,
                    },
                ),
            ];
            assert(views(commands@) =~= VAOHolder::setup_model(vao, vbo));
        }
        let ghost before = commands@;
        let last = Command::Call(GlCall::BindVertexArray { array: self.vao });
        proof {
            lemma_views_push(before, last);
            assert(views(before).push(last@) =~= views(before) + seq![last@]);
            assert(old(self).vao != 0 ==> views(before) =~= Seq::<CommandView>::empty());
        }
        commands.push(last);
        commands
    }

    /// The commands that release what the holder holds. The holder is given
    /// up with them, so they are issued once.
    pub fn delete(self) -> (commands: Vec<Command>)
        ensures
            self.vao == 0 ==> commands@.len() == 0,
            self.vao != 0 ==> views(commands@) == seq![
                CommandView::Call(GlCall::DeleteVertexArray { array: self.vao }),
                CommandView::Call(GlCall::DeleteBuffer { buffer: self.vbo }),
            ],
    {
        if self.vao != 0 {
            let commands = vec![
                Command::Call(GlCall::DeleteVertexArray { array: self.vao }),
                Command::Call(GlCall::DeleteBuffer { buffer: self.vbo }),
            ];
            assert(views(commands@) =~= seq![
                CommandView::Call(GlCall::DeleteVertexArray { array: self.vao }),
                CommandView::Call(GlCall::DeleteBuffer { buffer: self.vbo }),
            ]);
            commands
        } else {
            Vec::new()
        }
    }
}

/// The vertex buffer of the skybox cube.
pub fn skybox_vertices() -> (words: Vec<u32>)
    ensures
        words@ == SKYBOX_VERTICES@,
{
    let mut words: Vec<u32> = Vec::new();
    let mut i: usize = 0;
    while i < 108
        invariant
            i <= 108,
            words@ == SKYBOX_VERTICES@.subrange(0, i as int),
        decreases 108 - i,
    {
        words.push(SKYBOX_VERTICES[i]);
        assert(words@ =~= SKYBOX_VERTICES@.subrange(0, i + 1));
        i += 1;
    }
    assert(words@ =~= SKYBOX_VERTICES@);
    words
}

/// A skybox.
#[derive(Clone, PartialEq, Eq, Debug)]
pub struct Skybox {
    pub cube_map: CubeMapTexture,
    pub shader: Shader,
}

impl Skybox {
    /// The commands that set the uniform `scale` of the program `program`.
    pub open spec fn scale_model(program: u32, scale: u32) -> Seq<CommandView> {
        seq![
            CommandView::Call(GlCall::UseProgram { program }),
            CommandView::Uniform { name: "scale"@, value: UniformValue::Float(scale) },
        ]
    }

    /// The commands of [`Skybox::draw`], `bind` being those that bind the
    /// vertex array of the cube.
    pub open spec fn draw_model(&self, bind: Seq<CommandView>) -> Seq<CommandView> {
        seq![
            CommandView::Call(GlCall::DepthFunc { func: LEQUAL }),
            CommandView::Call(GlCall::UseProgram { program: self.shader.program }),
        ] + bind + seq![
            CommandView::Call(GlCall::ActiveTexture { unit: TEXTURE0 }),
            CommandView::Call(
                GlCall::BindTexture {
                    target: TEXTURE_CUBE_MAP,
                    texture: self.cube_map.id,
                },
            ),
            CommandView::Call(
                GlCall::DrawArrays { mode: TRIANGLES, first: 0, count: SKYBOX_VERTEX_COUNT },
            ),
            CommandView::Call(GlCall::BindVertexArray { array: 0 }),
            CommandView::Call(GlCall::DepthFunc { func: LESS }),
        ]
    }

    /// A skybox of the cube map `texture`, drawn by `shader`. The commands
    /// point the sampler `skybox` at texture unit 0 and set the scale to 1.
    pub fn new(texture: CubeMapTexture, shader: Shader) -> (made: (Skybox, Vec<Command>))
        ensures
            made.0.cube_map == texture,
            made.0.shader == shader,
            views(made.1@) == seq![
                CommandView::Call(GlCall::UseProgram { program: shader.program }),
                CommandView::Uniform { name: "skybox"@, value: UniformValue::Int(0) },
            ] + Skybox::scale_model(shader.program, ONE),
    {
        let mut skybox = Skybox { cube_map: texture, shader };
        let mut commands = vec![
            Command::Call(skybox.shader.use_program()),
            Command::Uniform { name: String::from_str("skybox"), value: UniformValue::Int(0) },
        ];
        assert(views(commands@) =~= seq![
            CommandView::Call(GlCall::UseProgram { program: shader.program }),
            CommandView::Uniform { name: "skybox"@, value: UniformValue::Int(0) },
        ]);
        let mut scale = skybox.scale(ONE);
        proof {
            lemma_views_concat(commands@, scale@);
        }
        commands.append(&mut scale);
        (skybox, commands)
    }

    /// A skybox of the cube map `texture`, drawn by the shader whose
    /// construction ended with `built`; the construction's error if it
    /// failed.
    pub fn load(texture: CubeMapTexture, built: Result<Shader, ShaderError>) -> (made: Result<
        (Skybox, Vec<Command>),
        ShaderError,
    >)
        ensures
            (match built {
                Err(error) => made == Err::<(Skybox, Vec<Command>), ShaderError>(error),
                Ok(shader) => made matches Ok(pair) && pair.0.cube_map == texture && pair.0.shader
                    == shader && views(pair.1@) == seq![
                    CommandView::Call(GlCall::UseProgram { program: shader.program }),
                    CommandView::Uniform { name: "skybox"@, value: UniformValue::Int(0) },
                ] + Skybox::scale_model(shader.program, ONE),
            }),
    {
        match built {
            Err(error) => Err(error),
            Ok(shader) => Ok(Skybox::new(texture, shader)),
        }
    }

    /// Sets the scale of the skybox, a single-precision number given by its
    /// bits.
    pub fn scale(&mut self, scale: u32) -> (commands: Vec<Command>)
        ensures
            *final(self) == *old(self),
            views(commands@) == Skybox::scale_model(old(self).shader.program, scale),
    {
        let commands = vec![
            Command::Call(self.shader.use_program()),
            Command::Uniform { name: String::from_str("scale"), value: UniformValue::Float(scale) },
        ];
        assert(views(commands@) =~= Skybox::scale_model(self.shader.program, scale));
        commands
    }

    /// Draws the skybox: behind everything drawn so far, with the depth test
    /// back to its usual function afterwards. `holder`, `vao` and `vbo` are
    /// as for [`VAOHolder::bind`].
    pub fn draw(&self, holder: &mut VAOHolder, vao: u32, vbo: u32) -> (commands: Vec<Command>)
        ensures
            old(holder).vao == 0 ==> final(holder).vao == vao && final(holder).vbo == vbo && views(
                commands@,
            ) == self.draw_model(
                VAOHolder::setup_model(vao, vbo) + seq![
                    CommandView::Call(GlCall::BindVertexArray { array: vao }),
                ],
            ),
            old(holder).vao != 0 ==> *final(holder) == *old(holder) && views(commands@)
                == self.draw_model(
                seq![CommandView::Call(GlCall::BindVertexArray { array: old(holder).vao })],
            ),
    {
        let mut commands = vec![
            Command::Call(GlCall::DepthFunc { func: LEQUAL }),
            Command::Call(self.shader.use_program()),
        ];
        let ghost head = views(commands@);
        assert(head =~= seq![
            CommandView::Call(GlCall::DepthFunc { func: LEQUAL }),
            CommandView::Call(GlCall::UseProgram { program: self.shader.program }),
        ]);
        let mut bind = holder.bind(vao, vbo);
        let ghost middle = views(bind@);
        proof {
            lemma_views_concat(commands@, bind@);
        }
        commands.append(&mut bind);
        let mut tail = vec![
            Command::Call(GlCall::ActiveTexture { unit: TEXTURE0 }),
            Command::Call(self.cube_map.bind()),
            Command::Call(
                GlCall::DrawArrays { mode: TRIANGLES, first: 0, count: SKYBOX_VERTEX_COUNT },
            ),
            Command::Call(GlCall::BindVertexArray { array: 0 }),
            Command::Call(GlCall::DepthFunc { func: LESS }),
        ];
        proof {
            lemma_views_concat(commands@, tail@);
            assert(views(tail@) =~= seq![
                CommandView::Call(GlCall::ActiveTexture { unit: TEXTURE0 }),
                CommandView::Call(
                    GlCall::BindTexture {
                        target: TEXTURE_CUBE_MAP,
                        texture: self.cube_map.id,
                    },
                ),
                CommandView::Call(
                    GlCall::DrawArrays { mode: TRIANGLES, first: 0, count: SKYBOX_VERTEX_COUNT },
                ),
                CommandView::Call(GlCall::BindVertexArray { array: 0 }),
                CommandView::Call(GlCall::DepthFunc { func: LESS }),
            ]);
        }
        commands.append(&mut tail);
        assert(views(commands@) == self.draw_model(middle));
        commands
    }
}

} // verus!
