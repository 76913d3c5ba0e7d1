//! Images and two-dimensional textures.
//!
//! The engine decodes no image file itself: its caller runs the decoder and
//! hands over what came out, which is accepted or rejected here.

use vstd::prelude::*;
use vstd::arithmetic::div_mod::{lemma_fundamental_div_mod, lemma_fundamental_div_mod_converse};
use crate::command::{views, Command, CommandView, GlCall};
use crate::constants::{
    NEAREST, NEAREST_MIPMAP_NEAREST, RED, REPEAT, RG, RGB, RGBA, TEXTURE_2D, TEXTURE_MAG_FILTER,
    TEXTURE_MIN_FILTER, TEXTURE_WRAP_S, TEXTURE_WRAP_T,
};

verus! {

/// A decoded raster image: `height` rows of `width` pixels of `depth` 8-bit
/// channels, top row first.
#[derive(Clone, PartialEq, Eq, Debug)]
pub struct Image {
    pub width: usize,
    pub height: usize,
    pub depth: usize,
    pub data: Vec<u8>,
}

/// What an image decoder made of a file, as the caller hands it over.
#[derive(Clone, PartialEq, Eq, Debug)]
pub enum Decoded {
    /// The decoder failed, for the reason given.
    Error(String),
    /// An image of 8-bit channels.
    ImageU8(Image),
    /// An image of floating-point channels.
    ImageF32,
}

/// Why a texture could not be made.
#[derive(Clone, PartialEq, Eq, Debug)]
pub enum TextureError {
    /// The GPU handed out no texture object.
    ResourceCreation,
    /// The image has no 8-bit channels, or not between one and four of them.
    UnsupportedImageFormat,
    /// The decoder rejected the bytes; its reason is attached.
    DecodeFailed(String),
    /// The image's sizes do not fit the graphics API, or its data is not
    /// `width * height * depth` bytes long.
    InvalidDimensions,
    /// A file that the texture needs is absent; its name is attached.
    MissingFile(String),
}

impl TextureError {
    /// The error in words.
    pub fn message(&self) -> (text: String)
        ensures
            *self is ResourceCreation ==> text@ == "Could not generate the OpenGL texture."@,
            *self is UnsupportedImageFormat ==> text@ == "Unsupported image format."@,
            *self matches TextureError::DecodeFailed(reason) ==> text@ == reason@,
            *self is InvalidDimensions ==> text@ == "Invalid image dimensions."@,
            *self matches TextureError::MissingFile(name) ==> text@ == "Missing file "@ + name@,
    {
        match self {
            TextureError::ResourceCreation => String::from_str(
                "Could not generate the OpenGL texture.",
            ),
            TextureError::UnsupportedImageFormat => String::from_str("Unsupported image format."),
            TextureError::DecodeFailed(reason) => reason.clone(),
            TextureError::InvalidDimensions => String::from_str("Invalid image dimensions."),
            TextureError::MissingFile(name) => {
                let mut text = String::from_str("Missing file ");
                text.append(name.as_str());
                text
            },
        }
    }
}

/// The pixel format of an image with `depth` channels.
pub open spec fn format_of(depth: usize) -> Option<u32> {
    if depth == 1 {
        Some(RED)
    } else if depth == 2 {
        Some(RG)
    } else if depth == 3 {
        Some(RGB)
    } else if depth == 4 {
        Some(RGBA)
    } else {
        None
    }
}

/// Where byte `k` of a vertically flipped image comes from: the same column
/// of the row that is as far from the bottom as `k`'s row is from the top.
pub open spec fn flip_source(k: int, row: int, rows: int) -> int {
    (rows - 1 - k / row) * row + k % row
}

/// The bytes of `rows` rows of `row` bytes each, bottom row first.
pub open spec fn flipped(data: Seq<u8>, row: int, rows: int) -> Seq<u8> {
    Seq::new(data.len(), |k: int| data[flip_source(k, row, rows)])
}

fn flip_rows(data: &Vec<u8>, row: usize, rows: usize) -> (out: Vec<u8>)
    requires
        data@.len() == row * rows,
    ensures
        out@ == flipped(data@, row as int, rows as int),
{
    let mut out: Vec<u8> = Vec::new();
    let size = data.len();
    let mut r: usize = 0;
    while r < rows
        invariant
            r <= rows,
            size == data@.len(),
            data@.len() == row * rows,
            out@.len() == r * row,
            forall|k: int|
                0 <= k < out@.len() ==> out@[k] == data@[flip_source(k, row as int, rows as int)],
        decreases rows - r,
    {
        assert((rows - 1 - r) * row + row <= row * rows && r * row + row <= row * rows) by (nonlinear_arith)
            requires
                r < rows,
        ;
        let base = (rows - 1 - r) * row;
        let mut c: usize = 0;
        while c < row
            invariant
                r < rows,
                c <= row,
                size == data@.len(),
                data@.len() == row * rows,
                base == (rows - 1 - r) * row,
                base + row <= data@.len(),
                r * row + row <= data@.len(),
                out@.len() == r * row + c,
                forall|k: int|
                    0 <= k < out@.len() ==> out@[k] == data@[flip_source(
                        k,
                        row as int,
                        rows as int,
                    )],
            decreases row - c,
        {
            proof {
                lemma_fundamental_div_mod_converse(r * row + c, row as int, r as int, c as int);
            }
            out.push(data[base + c]);
            c += 1;
        }
        assert((r + 1) * row == r * row + row) by (nonlinear_arith);
        r += 1;
    }
    assert(r * row == row * rows) by (nonlinear_arith)
        requires
            r == rows,
    ;
    assert(out@ =~= flipped(data@, row as int, rows as int));
    out
}

impl Image {
    /// What stands in the way of uploading the image, if anything.
    pub open spec fn problem(&self) -> Option<TextureError> {
        if format_of(self.depth) is None {
            Some(TextureError::UnsupportedImageFormat)
        } else if self.width > i32::MAX || self.height > i32::MAX || self.data@.len() != self.width
            * self.height * self.depth {
            Some(TextureError::InvalidDimensions)
        } else {
            None
        }
    }

    /// The pixel format of the image if it can be uploaded, else what stands
    /// in the way.
    pub fn validate(&self) -> (format: Result<u32, TextureError>)
        ensures
            (match self.problem() {
                Some(error) => format == Err::<u32, TextureError>(error),
                None => format == Ok::<u32, TextureError>(format_of(self.depth).unwrap()),
            }),
    {
        let format = Texture::get_format(self)?;
        if self.width > 0x7fff_ffff || self.height > 0x7fff_ffff {
            return Err(TextureError::InvalidDimensions);
        }
        assert(self.width * self.height * self.depth <= 0x7fff_ffff * 0x7fff_ffff * 4)
            by (nonlinear_arith)
            requires
                self.width <= 0x7fff_ffff,
                self.height <= 0x7fff_ffff,
                self.depth <= 4,
        ;
        assert(self.width * self.height <= 0x7fff_ffff * 0x7fff_ffff) by (nonlinear_arith)
            requires
                self.width <= 0x7fff_ffff,
                self.height <= 0x7fff_ffff,
        ;
        let size = self.width as u64 * self.height as u64 * self.depth as u64;
        if self.data.len() as u64 != size {
            return Err(TextureError::InvalidDimensions);
        }
        Ok(format)
    }

    /// The image with its rows in the opposite order. An image whose data is
    /// not `width * height * depth` bytes long has no rows, and its copy is
    /// as it is.
    pub fn flip_vertically(&self) -> (image: Image)
        ensures
            image.width == self.width,
            image.height == self.height,
            image.depth == self.depth,
            image.data@ == (if self.data@.len() == self.width * self.height * self.depth {
                flipped(self.data@, self.width * self.depth, self.height as int)
            } else {
                self.data@
            }),
    {
        let size = self.data.len();
        assert(self.width * self.height * self.depth == (self.width * self.depth) * self.height)
            by (nonlinear_arith);
        if size == 0 {
            assert(self.data@ =~= flipped(self.data@, self.width * self.depth, self.height as int));
            return self.copy();
        }
        let row = match self.width.checked_mul(self.depth) {
            Some(row) => row,
            None => {
                assert((self.width * self.depth) * self.height != size) by (nonlinear_arith)
                    requires
                        self.width * self.depth > usize::MAX,
                        0 < size <= usize::MAX,
                        self.height >= 0,
                ;
                return self.copy();
            },
        };
        match row.checked_mul(self.height) {
            Some(total) => {
                if total != size {
                    return self.copy();
                }
            },
            None => {
                return self.copy();
            },
        }
        let data = flip_rows(&self.data, row, self.height);
        Image { width: self.width, height: self.height, depth: self.depth, data }
    }

    /// A copy of the image.
    pub fn copy(&self) -> (image: Image)
        ensures
            image.width == self.width,
            image.height == self.height,
            image.depth == self.depth,
            image.data@ == self.data@,
    {
        let mut data: Vec<u8> = Vec::new();
        let mut i: usize = 0;
        while i < self.data.len()
            invariant
                i <= self.data.len(),
                data@ == self.data@.subrange(0, i as int),
            decreases self.data.len() - i,
        {
            data.push(self.data[i]);
            assert(data@ =~= self.data@.subrange(0, i + 1));
            i += 1;
        }
        assert(data@ =~= self.data@);
        Image { width: self.width, height: self.height, depth: self.depth, data }
    }
}

/// The pixels of an image of consistent sizes, top row first, or bottom row
/// first if `flip` is set.
pub open spec fn oriented(image: Image, flip: bool) -> Seq<u8> {
    if flip {
        flipped(image.data@, image.width * image.depth, image.height as int)
    } else {
        image.data@
    }
}

/// Turning an image upside down twice gives the image back.
pub proof fn lemma_flip_twice(data: Seq<u8>, row: int, rows: int)
    requires
        0 <= row,
        0 <= rows,
        data.len() == row * rows,
    ensures
        flipped(flipped(data, row, rows), row, rows) == data,
{
    let once = flipped(data, row, rows);
    let twice = flipped(once, row, rows);
    assert forall|k: int| 0 <= k < data.len() implies twice[k] == data[k] by {
        assert(row > 0) by (nonlinear_arith)
            requires
                0 <= row,
                0 <= k < row * rows,
        ;
        let r = k / row;
        let c = k % row;
        lemma_fundamental_div_mod(k, row);
        assert(0 <= r < rows) by (nonlinear_arith)
            requires
                k == row * r + c,
                0 <= c < row,
                0 <= k < row * rows,
        ;
        let source = flip_source(k, row, rows);
        assert(source == (rows - 1 - r) * row + c);
        assert(0 <= source < row * rows) by (nonlinear_arith)
            requires
                source == (rows - 1 - r) * row + c,
                0 <= r < rows,
                0 <= c < row,
        ;
        lemma_fundamental_div_mod_converse(source, row, rows - 1 - r, c);
        assert(flip_source(source, row, rows) == r * row + c);
        assert(r * row == row * r) by (nonlinear_arith);
    }
    assert(twice =~= data);
}

/// What is made of a decoder's outcome before any flipping: its image if it
/// has 8-bit channels, between one and four of them, and consistent sizes,
/// and else the reason why not.
pub open spec fn accepted(decoded: Decoded) -> Result<Image, TextureError> {
    match decoded {
        Decoded::Error(reason) => Err(TextureError::DecodeFailed(reason)),
        Decoded::ImageF32 => Err(TextureError::UnsupportedImageFormat),
        Decoded::ImageU8(image) => match image.problem() {
            Some(error) => Err(error),
            None => Ok(image),
        },
    }
}

/// Whether `image` is what [`load_image`] makes of `decoded`: the accepted
/// image, upside down if `flip` is set, or the reason why there is none.
pub open spec fn made_of(image: Result<Image, TextureError>, decoded: Decoded, flip: bool) -> bool {
    match accepted(decoded) {
        Err(error) => image == Err::<Image, TextureError>(error),
        Ok(plain) => image matches Ok(made) && made.width == plain.width && made.height
            == plain.height && made.depth == plain.depth && made.data@ == oriented(plain, flip),
    }
}

/// Takes the image out of what the decoder made of a file: accepts it if it
/// has 8-bit channels, between one and four of them, and consistent sizes,
/// and turns it upside down if `flip` is set.
pub fn load_image(decoded: &Decoded, flip: bool) -> (image: Result<Image, TextureError>)
    ensures
        made_of(image, *decoded, flip),
        image matches Ok(made) ==> made.problem() is None,
{
    match decoded {
        Decoded::Error(reason) => Err(TextureError::DecodeFailed(reason.clone())),
        Decoded::ImageF32 => Err(TextureError::UnsupportedImageFormat),
        Decoded::ImageU8(image) => {
            match image.validate() {
                Err(error) => Err(error),
                Ok(_) => if flip {
                    Ok(image.flip_vertically())
                } else {
                    Ok(image.copy())
                },
            }
        },
    }
}

/// A texture object of the GPU and the size of the image it holds.
#[derive(Clone, PartialEq, Eq, Debug)]
pub struct Texture {
    pub id: u32,
    pub width: usize,
    pub height: usize,
}

/// The commands that release the texture object `id`, if it is one.
pub open spec fn release_model(id: u32) -> Seq<CommandView> {
    if id == 0 {
        seq![]
    } else {
        seq![CommandView::Call(GlCall::DeleteTexture { texture: id })]
    }
}

/// The commands that release the texture object `id`, if it is one.
pub fn release(id: u32) -> (commands: Vec<Command>)
    ensures
        views(commands@) == release_model(id),
{
    let mut commands: Vec<Command> = Vec::new();
    if id != 0 {
        commands.push(Command::Call(GlCall::DeleteTexture { texture: id }));
    }
    assert(views(commands@) =~= release_model(id));
    commands
}

impl Texture {
    /// The pixel format for the image's number of channels.
    pub fn get_format(image: &Image) -> (format: Result<u32, TextureError>)
        ensures
            (match format_of(image.depth) {
                Some(value) => format == Ok::<u32, TextureError>(value),
                None => format == Err::<u32, TextureError>(TextureError::UnsupportedImageFormat),
            }),
    {
        if image.depth == 1 {
            Ok(RED)
        } else if image.depth == 2 {
            Ok(RG)
        } else if image.depth == 3 {
            Ok(RGB)
        } else if image.depth == 4 {
            Ok(RGBA)
        } else {
            Err(TextureError::UnsupportedImageFormat)
        }
    }

    /// The commands that put an image of `depth` channels, `width` by `height`
    /// pixels, into the texture object `id`: storage at the image's size,
    /// mipmaps, repeating wrap, nearest-texel filtering. They leave the
    /// texture bound.
    pub open spec fn upload_model_of(
        id: u32,
        depth: usize,
        width: usize,
        height: usize,
        pixels: Seq<u8>,
    ) -> Seq<CommandView> {
        seq![
            CommandView::Call(GlCall::BindTexture { target: TEXTURE_2D, texture: id }),
            CommandView::TexImage2D {
                target: TEXTURE_2D,
                format: format_of(depth).unwrap(),
                width: width as i32,
                height: height as i32,
                pixels,
            },
            CommandView::Call(GlCall::GenerateMipmap { target: TEXTURE_2D }),
            CommandView::Call(
                GlCall::TexParameteri { target: TEXTURE_2D, name: TEXTURE_WRAP_S, value: REPEAT },
            ),
            CommandView::Call(
                GlCall::TexParameteri { target: TEXTURE_2D, name: TEXTURE_WRAP_T, value: REPEAT },
            ),
            CommandView::Call(
                GlCall::TexParameteri {
                    target: TEXTURE_2D,
                    name: TEXTURE_MIN_FILTER,
                    value: NEAREST_MIPMAP_NEAREST,
                },
            ),
            CommandView::Call(
                GlCall::TexParameteri { target: TEXTURE_2D, name: TEXTURE_MAG_FILTER, value: NEAREST },
            ),
        ]
    }

    /// The commands that put `image` into the texture object `id`.
    pub open spec fn upload_model(id: u32, image: Image) -> Seq<CommandView> {
        Texture::upload_model_of(id, image.depth, image.width, image.height, image.data@)
    }

    /// What [`Texture::load`] returns.
    ///
    /// - An outcome of the decoder that holds no acceptable image fails with
    ///   the reason, and the object is released.
    /// - Else, if `id` is 0, there is no object to fill.
    /// - Else the texture has the image's size, and the commands upload the
    ///   image, bottom row first if `flip` is set.
    pub open spec fn loaded(id: u32, decoded: Decoded, flip: bool) -> (
        Result<Texture, TextureError>,
        Seq<CommandView>,
    ) {
        match accepted(decoded) {
            Err(error) => (Err(error), release_model(id)),
            Ok(plain) => if id == 0 {
                (Err(TextureError::ResourceCreation), Seq::empty())
            } else {
                (
                    Ok(Texture { id, width: plain.width, height: plain.height }),
                    Texture::upload_model_of(
                        id,
                        plain.depth,
                        plain.width,
                        plain.height,
                        oriented(plain, flip),
                    ),
                )
            },
        }
    }

    /// Makes a texture of `image` in the freshly generated texture object
    /// `id`.
    ///
    /// Fails if `id` is 0, the sign that the GPU generated no object, and if
    /// the image cannot be uploaded; the object is then released.
    pub fn new(id: u32, image: Image) -> (made: (Result<Texture, TextureError>, Vec<Command>))
        ensures
            id == 0 ==> made.0 == Err::<Texture, TextureError>(TextureError::ResourceCreation)
                && made.1@.len() == 0,
            id != 0 ==> (match image.problem() {
                Some(error) => made.0 == Err::<Texture, TextureError>(error) && views(made.1@)
                    == release_model(id),
                None => made.0 == Ok::<Texture, TextureError>(
                    Texture { id, width: image.width, height: image.height },
                ) && views(made.1@) == Texture::upload_model(id, image),
            }),
    {
        if id == 0 {
            return (Err(TextureError::ResourceCreation), Vec::new());
        }
        let mut texture = Texture { id, width: 0, height: 0 };
        match texture.upload(image) {
            Ok(commands) => (Ok(texture), commands),
            Err(error) => (Err(error), release(id)),
        }
    }

    /// Makes a texture of what the decoder made of an image file, in the
    /// freshly generated texture object `id`, turning the image upside down
    /// if `flip` is set.
    pub fn load(id: u32, decoded: &Decoded, flip: bool) -> (made: (
        Result<Texture, TextureError>,
        Vec<Command>,
    ))
        ensures
            made.0 == Texture::loaded(id, *decoded, flip).0,
            views(made.1@) == Texture::loaded(id, *decoded, flip).1,
    {
        match load_image(decoded, flip) {
            Ok(image) => {
                let made = Texture::new(id, image);
                assert(views(made.1@) =~= Texture::loaded(id, *decoded, flip).1);
                made
            },
            Err(error) => (Err(error), release(id)),
        }
    }

    /// The call that binds this texture to the active unit.
    pub fn bind(&self) -> (call: GlCall)
        ensures
            call == (GlCall::BindTexture { target: TEXTURE_2D, texture: self.id }),
    {
        GlCall::BindTexture { target: TEXTURE_2D, texture: self.id }
    }

    /// Replaces what the texture holds by `image`.
    ///
    /// Fails, and leaves the texture as it is, if the image cannot be
    /// uploaded.
    pub fn upload(&mut self, image: Image) -> (commands: Result<Vec<Command>, TextureError>)
        ensures
            final(self).id == old(self).id,
            (match image.problem() {
                Some(error) => commands == Err::<Vec<Command>, TextureError>(error) && *final(self)
                    == *old(self),
                None => commands matches Ok(list) && views(list@) == Texture::upload_model(
                    old(self).id,
                    image,
                ) && final(self).width == image.width && final(self).height == image.height,
            }),
    {
        let format = image.validate()?;
        let call = self.bind();
        self.width = image.width;
        self.height = image.height;
        let list = vec![
            Command::Call(call),
            Command::TexImage2D {
                target: TEXTURE_2D,
                format,
                width: self.width as i32,
                height: self.height as i32,
                pixels: image.data,
            },
            Command::Call(GlCall::GenerateMipmap { target: TEXTURE_2D }),
            Command::Call(
                GlCall::TexParameteri { target: TEXTURE_2D, name: TEXTURE_WRAP_S, value: REPEAT },
            ),
            Command::Call(
                GlCall::TexParameteri { target: TEXTURE_2D, name: TEXTURE_WRAP_T, value: REPEAT },
            ),
            Command::Call(
                GlCall::TexParameteri {
                    target: TEXTURE_2D,
                    name: TEXTURE_MIN_FILTER,
                    value: NEAREST_MIPMAP_NEAREST,
                },
            ),
            Command::Call(
                GlCall::TexParameteri { target: TEXTURE_2D, name: TEXTURE_MAG_FILTER, value: NEAREST },
            ),
        ];
        assert(views(list@) =~= Texture::upload_model(old(self).id, image));
        Ok(list)
    }

    /// A second handle on the same GPU texture.
    pub fn share(&self) -> (other: Texture)
        ensures
            other == *self,
    {
        Texture { id: self.id, width: self.width, height: self.height }
    }
}

/// The call that leaves no two-dimensional texture bound to the active unit.
pub fn unbind() -> (call: GlCall)
    ensures
        call == (GlCall::BindTexture { target: TEXTURE_2D, texture: 0 }),
{
    GlCall::BindTexture { target: TEXTURE_2D, texture: 0 }
}

} // verus!
