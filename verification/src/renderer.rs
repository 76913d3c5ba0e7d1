//! The renderer: the uniform buffer that every shader reads the projection
//! and view matrices from.

use vstd::prelude::*;
use crate::command::{lemma_views_concat, views, Command, CommandView, GlCall, Mat4};
use crate::constants::{STATIC_DRAW, UNIFORM_BUFFER};
use crate::shader::MATRICES_BINDING;

verus! {

/// Bytes of a 4x4 matrix of single-precision numbers.
pub const MAT4_SIZE: usize = 64;

/// Byte offset of the projection matrix in the uniform buffer.
pub const PROJECTION_OFFSET: usize = 0;

/// Byte offset of the view matrix in the uniform buffer.
pub const VIEW_OFFSET: usize = 64;

/// The bits of the single-precision number 1.
pub const ONE: u32 = 0x3f80_0000;

/// The identity matrix: ones on the diagonal, zeros elsewhere.
pub open spec fn identity_of() -> Seq<u32> {
    Seq::new(
        16,
        |i: int|
            if i % 5 == 0 {
                ONE
            } else {
                0u32
            },
    )
}

/// The identity matrix.
pub fn identity() -> (matrix: Mat4)
    ensures
        matrix@ == identity_of(),
{
    let matrix = [ONE, 0, 0, 0, 0, ONE, 0, 0, 0, 0, ONE, 0, 0, 0, 0, ONE];
    assert(matrix@ =~= identity_of());
    matrix
}

/// The two matrices lie side by side in the uniform buffer and fill it: the
/// projection first, the view behind it.
pub proof fn lemma_matrices_fill_the_buffer()
    ensures
        PROJECTION_OFFSET == 0,
        PROJECTION_OFFSET + MAT4_SIZE == VIEW_OFFSET,
        VIEW_OFFSET + MAT4_SIZE == 2 * MAT4_SIZE,
        MAT4_SIZE == 16 * 4,
{
}

/// The renderer's state: its uniform buffer, and the projection matrices in
/// use.
#[derive(Clone, Copy, PartialEq, Eq, Debug)]
pub struct GameRenderer {
    pub ubo: u32,
    pub projection: Mat4,
    pub ortho: Mat4,
}

impl Default for GameRenderer {
    fn default() -> (renderer: GameRenderer)
        ensures
            renderer.ubo == 0,
            renderer.projection@ == identity_of(),
            renderer.ortho@ == identity_of(),
    {
        GameRenderer { ubo: 0, projection: identity(), ortho: identity() }
    }
}

impl GameRenderer {
    /// The commands that write `matrix` at the byte `offset` of the uniform
    /// buffer `ubo`: the buffer is bound for the write and for no longer.
    pub open spec fn write_model(ubo: u32, offset: usize, matrix: Mat4) -> Seq<CommandView> {
        seq![
            CommandView::Call(GlCall::BindBuffer { target: UNIFORM_BUFFER, buffer: ubo }),
            CommandView::Call(
                GlCall::BufferSubData { target: UNIFORM_BUFFER, offset, value: matrix },
            ),
            CommandView::Call(GlCall::BindBuffer { target: UNIFORM_BUFFER, buffer: 0 }),
        ]
    }

    /// A renderer on the freshly generated buffer `ubo`. The commands give
    /// the buffer room for two matrices and tie all of it to the binding
    /// point of the block of matrices.
    pub fn new(ubo: u32) -> (made: (GameRenderer, Vec<Command>))
        ensures
            made.0.ubo == ubo,
            made.0.projection@ == identity_of(),
            made.0.ortho@ == identity_of(),
            views(made.1@) == seq![
                CommandView::Call(GlCall::BindBuffer { target: UNIFORM_BUFFER, buffer: ubo }),
                CommandView::Call(
                    GlCall::AllocateBuffer {
                        target: UNIFORM_BUFFER,
                        size: (2 * MAT4_SIZE) as usize,
                        usage: STATIC_DRAW,
                    },
                ),
                CommandView::Call(GlCall::BindBuffer { target: UNIFORM_BUFFER, buffer: 0 }),
                CommandView::Call(
                    GlCall::BindBufferRange {
                        target: UNIFORM_BUFFER,
                        index: MATRICES_BINDING,
                        buffer: ubo,
                        offset: 0,
                        size: (2 * MAT4_SIZE) as usize,
                    },
                ),
            ],
    {
        let mut renderer = GameRenderer::default();
        renderer.ubo = ubo;
        let size = MAT4_SIZE * 2;
        let commands = vec![
            Command::Call(renderer.bind_ubo()),
            Command::Call(
                GlCall::AllocateBuffer { target: UNIFORM_BUFFER, size, usage: STATIC_DRAW },
            ),
            Command::Call(renderer.unbind_ubo()),
            Command::Call(
                GlCall::BindBufferRange {
                    target: UNIFORM_BUFFER,
                    index: MATRICES_BINDING,
                    buffer: renderer.ubo,
                    offset: 0,
                    size,
                },
            ),
        ];
        assert(views(commands@) =~= seq![
            CommandView::Call(GlCall::BindBuffer { target: UNIFORM_BUFFER, buffer: ubo }),
            CommandView::Call(
                GlCall::AllocateBuffer {
                    target: UNIFORM_BUFFER,
                    size: (2 * MAT4_SIZE) as usize,
                    usage: STATIC_DRAW,
                },
            ),
            CommandView::Call(GlCall::BindBuffer { target: UNIFORM_BUFFER, buffer: 0 }),
            CommandView::Call(
                GlCall::BindBufferRange {
                    target: UNIFORM_BUFFER,
                    index: MATRICES_BINDING,
                    buffer: ubo,
                    offset: 0,
                    size: (2 * MAT4_SIZE) as usize,
                },
            ),
        ]);
        (renderer, commands)
    }

    fn bind_ubo(&self) -> (call: GlCall)
        ensures
            call == (GlCall::BindBuffer { target: UNIFORM_BUFFER, buffer: self.ubo }),
    {
        GlCall::BindBuffer { target: UNIFORM_BUFFER, buffer: self.ubo }
    }

    fn unbind_ubo(&self) -> (call: GlCall)
        ensures
            call == (GlCall::BindBuffer { target: UNIFORM_BUFFER, buffer: 0 }),
    {
        GlCall::BindBuffer { target: UNIFORM_BUFFER, buffer: 0 }
    }

    fn write(&self, offset: usize, matrix: Mat4) -> (commands: Vec<Command>)
        ensures
            views(commands@) == GameRenderer::write_model(self.ubo, offset, matrix),
    {
        let commands = vec![
            Command::Call(self.bind_ubo()),
            Command::Call(GlCall::BufferSubData { target: UNIFORM_BUFFER, offset, value: matrix }),
            Command::Call(self.unbind_ubo()),
        ];
        assert(views(commands@) =~= GameRenderer::write_model(self.ubo, offset, matrix));
        commands
    }

    /// Takes `projection` as the perspective projection and writes it to the
    /// start of the uniform buffer.
    pub fn update_perspective(&mut self, projection: Mat4) -> (commands: Vec<Command>)
        ensures
            final(self).projection == projection,
            final(self).ubo == old(self).ubo,
            final(self).ortho == old(self).ortho,
            views(commands@) == GameRenderer::write_model(
                old(self).ubo,
                PROJECTION_OFFSET,
                projection,
            ),
    {
        self.projection = projection;
        self.write(PROJECTION_OFFSET, projection)
    }

    /// Adapts to a viewport of `width` by `height` pixels, for which
    /// `projection` is the perspective projection and `ortho` the
    /// orthographic one: sets the viewport, keeps both matrices, and writes
    /// the perspective projection to the start of the uniform buffer.
    pub fn setup_projection(&mut self, width: i32, height: i32, projection: Mat4, ortho: Mat4) -> (commands:
        Vec<Command>)
        ensures
            final(self).projection == projection,
            final(self).ortho == ortho,
            final(self).ubo == old(self).ubo,
            views(commands@) == seq![
                CommandView::Call(GlCall::Viewport { x: 0, y: 0, width, height }),
            ] + GameRenderer::write_model(old(self).ubo, PROJECTION_OFFSET, projection),
    {
        let mut commands = vec![Command::Call(GlCall::Viewport { x: 0, y: 0, width, height })];
        let mut write = self.update_perspective(projection);
        self.ortho = ortho;
        assert(views(commands@) =~= seq![
            CommandView::Call(GlCall::Viewport { x: 0, y: 0, width, height }),
        ]);
        proof {
            lemma_views_concat(commands@, write@);
        }
        commands.append(&mut write);
        commands
    }

    /// Writes the view matrix behind the projection matrix in the uniform
    /// buffer.
    pub fn update_view(&self, view: Mat4) -> (commands: Vec<Command>)
        ensures
            views(commands@) == GameRenderer::write_model(self.ubo, VIEW_OFFSET, view),
            VIEW_OFFSET == PROJECTION_OFFSET + MAT4_SIZE,
    {
        self.write(VIEW_OFFSET, view)
    }
}

} // verus!
