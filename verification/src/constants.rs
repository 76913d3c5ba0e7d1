//! Numeric values of the OpenGL enumerants that the engine's commands carry.
//!
//! Commands hold these as plain integers so that a backend can hand them to
//! the driver unchanged.

use vstd::prelude::*;

verus! {

pub const FALSE: u8 = 0;

pub const TRIANGLES: u32 = 0x0004;

pub const LESS: u32 = 0x0201;

pub const LEQUAL: u32 = 0x0203;

pub const FRONT_AND_BACK: u32 = 0x0408;

pub const TEXTURE_2D: u32 = 0x0DE1;

pub const UNSIGNED_BYTE: u32 = 0x1401;

pub const UNSIGNED_INT: u32 = 0x1405;

pub const FLOAT: u32 = 0x1406;

pub const RED: u32 = 0x1903;

pub const RGB: u32 = 0x1907;

pub const RGBA: u32 = 0x1908;

pub const LINE: u32 = 0x1B01;

pub const FILL: u32 = 0x1B02;

pub const NEAREST: u32 = 0x2600;

pub const LINEAR: u32 = 0x2601;

pub const NEAREST_MIPMAP_NEAREST: u32 = 0x2700;

pub const TEXTURE_MAG_FILTER: u32 = 0x2800;

pub const TEXTURE_MIN_FILTER: u32 = 0x2801;

pub const TEXTURE_WRAP_S: u32 = 0x2802;

pub const TEXTURE_WRAP_T: u32 = 0x2803;

pub const REPEAT: u32 = 0x2901;

pub const TEXTURE_WRAP_R: u32 = 0x8072;

pub const CLAMP_TO_EDGE: u32 = 0x812F;

pub const RG: u32 = 0x8227;

pub const TEXTURE0: u32 = 0x84C0;

pub const TEXTURE_CUBE_MAP: u32 = 0x8513;

pub const TEXTURE_CUBE_MAP_POSITIVE_X: u32 = 0x8515;

pub const TEXTURE_CUBE_MAP_NEGATIVE_X: u32 = 0x8516;

pub const TEXTURE_CUBE_MAP_POSITIVE_Y: u32 = 0x8517;

pub const TEXTURE_CUBE_MAP_NEGATIVE_Y: u32 = 0x8518;

pub const TEXTURE_CUBE_MAP_POSITIVE_Z: u32 = 0x8519;

pub const TEXTURE_CUBE_MAP_NEGATIVE_Z: u32 = 0x851A;

pub const STATIC_DRAW: u32 = 0x88E4;

pub const ARRAY_BUFFER: u32 = 0x8892;

pub const ELEMENT_ARRAY_BUFFER: u32 = 0x8893;

pub const UNIFORM_BUFFER: u32 = 0x8A11;

pub const FRAGMENT_SHADER: u32 = 0x8B30;

pub const VERTEX_SHADER: u32 = 0x8B31;

pub const GEOMETRY_SHADER: u32 = 0x8DD9;

} // verus!
