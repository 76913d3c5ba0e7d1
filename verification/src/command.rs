//! The commands that the engine hands to a graphics backend.
//!
//! Nothing in this crate talks to the GPU. Every operation returns the list of
//! calls it wants made, in order, and a backend makes them. Floating-point
//! payloads travel as the bit patterns of 32-bit (or, for double matrices,
//! 64-bit) IEEE-754 numbers.

use vstd::prelude::*;

verus! {

/// A 4x4 matrix of single-precision numbers, column by column, as bit patterns.
pub type Mat4 = [u32; 16];

/// Three single-precision numbers as bit patterns.
pub type Vec3 = [u32; 3];

/// A value written to a shader uniform.
#[derive(Clone, Copy, PartialEq, Eq, Debug)]
pub enum UniformValue {
    Bool(bool),
    Int(i32),
    Float(u32),
    Vec2([u32; 2]),
    Vec3([u32; 3]),
    Vec4([u32; 4]),
    Mat4([u32; 16]),
    Mat4d([u64; 16]),
}

/// One call into the graphics API whose arguments are all small plain values.
#[derive(Clone, Copy, PartialEq, Eq, Debug)]
pub enum GlCall {
    UseProgram { program: u32 },
    ActiveTexture { unit: u32 },
    BindTexture { target: u32, texture: u32 },
    TexParameteri { target: u32, name: u32, value: u32 },
    GenerateMipmap { target: u32 },
    BindVertexArray { array: u32 },
    BindBuffer { target: u32, buffer: u32 },
    /// Allocates `size` bytes of storage for the bound buffer without filling it.
    AllocateBuffer { target: u32, size: usize, usage: u32 },
    BindBufferRange { target: u32, index: u32, buffer: u32, offset: usize, size: usize },
    /// Overwrites the 64 bytes at `offset` of the bound buffer with a matrix.
    BufferSubData { target: u32, offset: usize, value: [u32; 16] },
    EnableVertexAttribArray { index: u32 },
    VertexAttribPointer { index: u32, size: i32, kind: u32, normalized: u8, stride: i32, offset: usize },
    DrawElements { mode: u32, count: i32, kind: u32 },
    DrawArrays { mode: u32, first: i32, count: i32 },
    DepthFunc { func: u32 },
    Viewport { x: i32, y: i32, width: i32, height: i32 },
    PolygonMode { face: u32, mode: u32 },
    UniformBlockBinding { program: u32, block: u32, binding: u32 },
    Uniform1i { location: i32, value: i32 },
    Uniform1f { location: i32, value: u32 },
    Uniform2f { location: i32, value: [u32; 2] },
    Uniform3f { location: i32, value: [u32; 3] },
    Uniform4f { location: i32, value: [u32; 4] },
    UniformMatrix4fv { location: i32, value: [u32; 16] },
    UniformMatrix4dv { location: i32, value: [u64; 16] },
    DeleteShader { shader: u32 },
    DeleteProgram { program: u32 },
    DeleteTexture { texture: u32 },
    DeleteBuffer { buffer: u32 },
    DeleteVertexArray { array: u32 },
}

/// One step of work for the backend.
#[derive(Clone, PartialEq, Eq, Debug)]
pub enum Command {
    /// A plain call.
    Call(GlCall),
    /// A write to the uniform called `name` of the program in use. The backend
    /// turns it into a call with [`crate::shader::Shader::uniform`].
    Uniform { name: String, value: UniformValue },
    /// Fills the bound buffer with 32-bit words.
    BufferData { target: u32, data: Vec<u32>, usage: u32 },
    /// Fills level 0 of the bound texture with 8-bit pixels of `format`.
    TexImage2D { target: u32, format: u32, width: i32, height: i32, pixels: Vec<u8> },
}

/// What a [`Command`] is, with its payload as a sequence.
pub enum CommandView {
    Call(GlCall),
    Uniform { name: Seq<char>, value: UniformValue },
    BufferData { target: u32, data: Seq<u32>, usage: u32 },
    TexImage2D { target: u32, format: u32, width: i32, height: i32, pixels: Seq<u8> },
}

impl View for Command {
    type V = CommandView;

    open spec fn view(&self) -> CommandView {
        match *self {
            Command::Call(call) => CommandView::Call(call),
            Command::Uniform { name, value } => CommandView::Uniform { name: name@, value },
            Command::BufferData { target, data, usage } => CommandView::BufferData {
                target,
                data: data@,
                usage,
            },
            Command::TexImage2D { target, format, width, height, pixels } => CommandView::TexImage2D {
                target,
                format,
                width,
                height,
                pixels: pixels@,
            },
        }
    }
}

/// The views of a list of commands, in order.
pub open spec fn views(commands: Seq<Command>) -> Seq<CommandView> {
    commands.map_values(|c: Command| c@)
}

/// The views of a list with one more command.
pub proof fn lemma_views_push(commands: Seq<Command>, last: Command)
    ensures
        views(commands.push(last)) == views(commands).push(last@),
{
    assert(views(commands.push(last)) =~= views(commands).push(last@));
}

/// The views of two lists, one after the other.
pub proof fn lemma_views_concat(first: Seq<Command>, second: Seq<Command>)
    ensures
        views(first + second) == views(first) + views(second),
{
    assert(views(first + second) =~= views(first) + views(second));
}

} // verus!
