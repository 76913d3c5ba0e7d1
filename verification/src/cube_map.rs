//! Cube-map textures: six square faces behind one texture object.

use vstd::prelude::*;
use crate::command::{views, Command, CommandView, GlCall};
use crate::constants::{
    CLAMP_TO_EDGE, LINEAR, TEXTURE_CUBE_MAP, TEXTURE_CUBE_MAP_NEGATIVE_X,
    TEXTURE_CUBE_MAP_NEGATIVE_Y, TEXTURE_CUBE_MAP_NEGATIVE_Z, TEXTURE_CUBE_MAP_POSITIVE_X,
    TEXTURE_CUBE_MAP_POSITIVE_Y, TEXTURE_CUBE_MAP_POSITIVE_Z, TEXTURE_MAG_FILTER,
    TEXTURE_MIN_FILTER, TEXTURE_WRAP_R, TEXTURE_WRAP_S, TEXTURE_WRAP_T,
};
use crate::texture::{
    accepted, format_of, load_image, oriented, release, release_model, Decoded, Image, TextureError,
};

verus! {

/// A face of a cube map, by the name of the file that holds it.
#[derive(Clone, Copy, PartialEq, Eq, Structural, Debug)]
pub enum CubeFace {
    Right,
    Left,
    Top,
    Bottom,
    Back,
    Front,
}

impl CubeFace {
    /// The faces in the order in which they are uploaded.
    pub open spec fn at(index: int) -> CubeFace {
        if index == 0 {
            CubeFace::Right
        } else if index == 1 {
            CubeFace::Left
        } else if index == 2 {
            CubeFace::Top
        } else if index == 3 {
            CubeFace::Bottom
        } else if index == 4 {
            CubeFace::Back
        } else {
            CubeFace::Front
        }
    }

    /// The texture target of the face: right, left, top, bottom, back and
    /// front are +X, -X, +Y, -Y, +Z and -Z.
    pub open spec fn target_of(self) -> u32 {
        match self {
            CubeFace::Right => TEXTURE_CUBE_MAP_POSITIVE_X,
            CubeFace::Left => TEXTURE_CUBE_MAP_NEGATIVE_X,
            CubeFace::Top => TEXTURE_CUBE_MAP_POSITIVE_Y,
            CubeFace::Bottom => TEXTURE_CUBE_MAP_NEGATIVE_Y,
            CubeFace::Back => TEXTURE_CUBE_MAP_POSITIVE_Z,
            CubeFace::Front => TEXTURE_CUBE_MAP_NEGATIVE_Z,
        }
    }

    /// The file name of the face without its extension.
    pub open spec fn stem(self) -> Seq<char> {
        match self {
            CubeFace::Right => "right"@,
            CubeFace::Left => "left"@,
            CubeFace::Top => "top"@,
            CubeFace::Bottom => "bottom"@,
            CubeFace::Back => "back"@,
            CubeFace::Front => "front"@,
        }
    }

    /// The name of the file that holds the face: stem, dot, extension.
    pub open spec fn file_name_of(self, ext: Seq<char>) -> Seq<char> {
        self.stem() + "."@ + ext
    }

    /// The face at `index` of the upload order.
    pub fn nth(index: usize) -> (face: CubeFace)
        ensures
            face == CubeFace::at(index as int),
    {
        if index == 0 {
            CubeFace::Right
        } else if index == 1 {
            CubeFace::Left
        } else if index == 2 {
            CubeFace::Top
        } else if index == 3 {
            CubeFace::Bottom
        } else if index == 4 {
            CubeFace::Back
        } else {
            CubeFace::Front
        }
    }

    /// The texture target of the face.
    pub fn target(&self) -> (target: u32)
        ensures
            target == self.target_of(),
    {
        match self {
            CubeFace::Right => TEXTURE_CUBE_MAP_POSITIVE_X,
            CubeFace::Left => TEXTURE_CUBE_MAP_NEGATIVE_X,
            CubeFace::Top => TEXTURE_CUBE_MAP_POSITIVE_Y,
            CubeFace::Bottom => TEXTURE_CUBE_MAP_NEGATIVE_Y,
            CubeFace::Back => TEXTURE_CUBE_MAP_POSITIVE_Z,
            CubeFace::Front => TEXTURE_CUBE_MAP_NEGATIVE_Z,
        }
    }

    /// The name of the file that holds the face, with the extension `ext`.
    pub fn file_name(&self, ext: &str) -> (name: String)
        ensures
            name@ == self.file_name_of(ext@),
    {
        let stem = match self {
            CubeFace::Right => "right",
            CubeFace::Left => "left",
            CubeFace::Top => "top",
            CubeFace::Bottom => "bottom",
            CubeFace::Back => "back",
            CubeFace::Front => "front",
        };
        let mut name = String::from_str(stem);
        name.append(".");
        name.append(ext);
        name
    }
}

/// An image file as the engine is handed it: its name and what the decoder
/// made of it.
#[derive(Clone, PartialEq, Eq, Debug)]
pub struct File {
    pub name: String,
    pub content: Decoded,
}

/// The first position from `from` on in `directory` of a file called `name`;
/// the length of the directory if there is none.
pub open spec fn position_of(directory: Seq<File>, name: Seq<char>, from: int) -> int
    decreases directory.len() - from,
{
    if from < 0 || from >= directory.len() {
        directory.len() as int
    } else if directory[from].name@ == name {
        from
    } else {
        position_of(directory, name, from + 1)
    }
}

/// The first position in `directory` of a file called `name`.
pub fn find_file(directory: &Vec<File>, name: &String) -> (position: Option<usize>)
    ensures
        (match position {
            Some(index) => index < directory@.len() && index == position_of(directory@, name@, 0),
            None => position_of(directory@, name@, 0) == directory@.len(),
        }),
{
    let mut i: usize = 0;
    while i < directory.len()
        invariant
            i <= directory.len(),
            position_of(directory@, name@, 0) == position_of(directory@, name@, i as int),
        decreases directory.len() - i,
    {
        if directory[i].name == *name {
            return Some(i);
        }
        i += 1;
    }
    None
}

/// The first face from `from` on, in upload order, whose file with the
/// extension `ext` is not in `directory`.
pub open spec fn first_missing(directory: Seq<File>, ext: Seq<char>, from: int) -> Option<CubeFace>
    decreases 6 - from,
{
    if from >= 6 {
        None
    } else if position_of(directory, CubeFace::at(from).file_name_of(ext), 0) >= directory.len() {
        Some(CubeFace::at(from))
    } else {
        first_missing(directory, ext, from + 1)
    }
}

/// What the decoder made of the six face files of `directory`, in upload
/// order: for each face, the first file of its name.
pub open spec fn chosen(directory: Seq<File>, ext: Seq<char>) -> Seq<Decoded> {
    Seq::new(
        6,
        |i: int| directory[position_of(directory, CubeFace::at(i).file_name_of(ext), 0)].content,
    )
}

/// The cube map of the texture object `id`.
#[derive(Clone, PartialEq, Eq, Debug)]
pub struct CubeMapTexture {
    pub id: u32,
}

/// The first of the images, in order, that cannot be uploaded, with the
/// reason.
pub open spec fn first_problem(faces: Seq<Image>, from: int) -> Option<TextureError>
    decreases faces.len() - from,
{
    if from < 0 || from >= faces.len() {
        None
    } else if faces[from].problem() is Some {
        faces[from].problem()
    } else {
        first_problem(faces, from + 1)
    }
}

/// The first of the decoder's outcomes, in order, that holds no acceptable
/// image, with the reason.
pub open spec fn first_failure(outcomes: Seq<Decoded>, from: int) -> Option<TextureError>
    decreases outcomes.len() - from,
{
    if from < 0 || from >= outcomes.len() {
        None
    } else {
        match accepted(outcomes[from]) {
            Err(error) => Some(error),
            Ok(_) => first_failure(outcomes, from + 1),
        }
    }
}

/// The command that fills `target` with an image of `depth` channels,
/// `width` by `height` pixels.
pub open spec fn face_upload_of(
    target: u32,
    depth: usize,
    width: usize,
    height: usize,
    pixels: Seq<u8>,
) -> CommandView {
    CommandView::TexImage2D {
        target,
        format: format_of(depth).unwrap(),
        width: width as i32,
        height: height as i32,
        pixels,
    }
}

/// The command that fills `target` with `image`.
pub open spec fn face_upload(target: u32, image: Image) -> CommandView {
    face_upload_of(target, image.depth, image.width, image.height, image.data@)
}

/// The command that fills the face at `index` of the upload order with the
/// image that the decoder made, bottom row first if `flip` is set.
pub open spec fn loaded_face(index: int, decoded: Decoded, flip: bool) -> CommandView {
    let plain = accepted(decoded).unwrap();
    face_upload_of(
        CubeFace::at(index).target_of(),
        plain.depth,
        plain.width,
        plain.height,
        oriented(plain, flip),
    )
}

fn upload_texture(target: u32, image: Image) -> (command: Result<Command, TextureError>)
    ensures
        (match image.problem() {
            Some(error) => command == Err::<Command, TextureError>(error),
            None => command matches Ok(upload) && upload@ == face_upload(target, image),
        }),
{
    let format = image.validate()?;
    Ok(
        Command::TexImage2D {
            target,
            format,
            width: image.width as i32,
            height: image.height as i32,
            pixels: image.data,
        },
    )
}

impl CubeMapTexture {
    /// The commands that fill the texture object `id` with the six `uploads`:
    /// the cube map is bound, every face is uploaded, then the cube map gets
    /// linear filtering and is clamped to its edges along all three axes, and
    /// is unbound.
    pub open spec fn frame(id: u32, uploads: Seq<CommandView>) -> Seq<CommandView> {
        seq![CommandView::Call(GlCall::BindTexture { target: TEXTURE_CUBE_MAP, texture: id })]
            + uploads + seq![
            CommandView::Call(
                GlCall::TexParameteri {
                    target: TEXTURE_CUBE_MAP,
                    name: TEXTURE_MIN_FILTER,
                    value: LINEAR,
                },
            ),
            CommandView::Call(
                GlCall::TexParameteri {
                    target: TEXTURE_CUBE_MAP,
                    name: TEXTURE_MAG_FILTER,
                    value: LINEAR,
                },
            ),
            CommandView::Call(
                GlCall::TexParameteri {
                    target: TEXTURE_CUBE_MAP,
                    name: TEXTURE_WRAP_S,
                    value: CLAMP_TO_EDGE,
                },
            ),
            CommandView::Call(
                GlCall::TexParameteri {
                    target: TEXTURE_CUBE_MAP,
                    name: TEXTURE_WRAP_T,
                    value: CLAMP_TO_EDGE,
                },
            ),
            CommandView::Call(
                GlCall::TexParameteri {
                    target: TEXTURE_CUBE_MAP,
                    name: TEXTURE_WRAP_R,
                    value: CLAMP_TO_EDGE,
                },
            ),
            CommandView::Call(GlCall::BindTexture { target: TEXTURE_CUBE_MAP, texture: 0 }),
        ]
    }

    /// The commands that fill the texture object `id` with six faces, given
    /// in upload order.
    pub open spec fn upload_model(id: u32, faces: Seq<Image>) -> Seq<CommandView> {
        CubeMapTexture::frame(
            id,
            Seq::new(6, |i: int| face_upload(CubeFace::at(i).target_of(), faces[i])),
        )
    }

    /// What [`CubeMapTexture::load`] returns for six outcomes of the decoder,
    /// given in upload order.
    ///
    /// - If one of them holds no acceptable image, the answer is the reason
    ///   of the first that does not; nothing is uploaded, and the object is
    ///   released.
    /// - Else, if `id` is 0, there is no object to fill.
    /// - Else the commands upload the six images, each to the face of its
    ///   position, each bottom row first if `flip` is set.
    pub open spec fn loaded(id: u32, outcomes: Seq<Decoded>, flip: bool) -> (
        Result<CubeMapTexture, TextureError>,
        Seq<CommandView>,
    ) {
        match first_failure(outcomes, 0) {
            Some(error) => (Err(error), release_model(id)),
            None => if id == 0 {
                (Err(TextureError::ResourceCreation), Seq::empty())
            } else {
                (
                    Ok(CubeMapTexture { id }),
                    CubeMapTexture::frame(
                        id,
                        Seq::new(6, |i: int| loaded_face(i, outcomes[i], flip)),
                    ),
                )
            },
        }
    }

    /// Makes a cube map of six images in the freshly generated texture object
    /// `id`.
    ///
    /// Fails if `id` is 0, and with the reason of the first image that cannot
    /// be uploaded, if there is one; nothing is uploaded then, and the object
    /// is released.
    pub fn new(
        id: u32,
        right: Image,
        left: Image,
        top: Image,
        bottom: Image,
        back: Image,
        front: Image,
    ) -> (made: (Result<CubeMapTexture, TextureError>, Vec<Command>))
        ensures
            id == 0 ==> made.0 == Err::<CubeMapTexture, TextureError>(
                TextureError::ResourceCreation,
            ) && made.1@.len() == 0,
            id != 0 ==> (match first_problem(seq![right, left, top, bottom, back, front], 0) {
                Some(error) => made.0 == Err::<CubeMapTexture, TextureError>(error) && views(
                    made.1@,
                ) == release_model(id),
                None => made.0 == Ok::<CubeMapTexture, TextureError>(CubeMapTexture { id })
                    && views(made.1@) == CubeMapTexture::upload_model(
                    id,
                    seq![right, left, top, bottom, back, front],
                ),
            }),
    {
        if id == 0 {
            return (Err(TextureError::ResourceCreation), Vec::new());
        }
        let ghost faces = seq![right, left, top, bottom, back, front];
        proof {
            reveal_with_fuel(first_problem, 7);
        }
        let texture = CubeMapTexture { id };
        let bind = Command::Call(texture.bind());
        let positive_x = match upload_texture(CubeFace::Right.target(), right) {
            Ok(command) => command,
            Err(error) => {
                return (Err(error), release(id));
            },
        };
        let negative_x = match upload_texture(CubeFace::Left.target(), left) {
            Ok(command) => command,
            Err(error) => {
                return (Err(error), release(id));
            },
        };
        let positive_y = match upload_texture(CubeFace::Top.target(), top) {
            Ok(command) => command,
            Err(error) => {
                return (Err(error), release(id));
            },
        };
        let negative_y = match upload_texture(CubeFace::Bottom.target(), bottom) {
            Ok(command) => command,
            Err(error) => {
                return (Err(error), release(id));
            },
        };
        let positive_z = match upload_texture(CubeFace::Back.target(), back) {
            Ok(command) => command,
            Err(error) => {
                return (Err(error), release(id));
            },
        };
        let negative_z = match upload_texture(CubeFace::Front.target(), front) {
            Ok(command) => command,
            Err(error) => {
                return (Err(error), release(id));
            },
        };
        let commands = vec![
            bind,
            positive_x,
            negative_x,
            positive_y,
            negative_y,
            positive_z,
            negative_z,
            Command::Call(
                GlCall::TexParameteri {
                    target: TEXTURE_CUBE_MAP,
                    name: TEXTURE_MIN_FILTER,
                    value: LINEAR,
                },
            ),
            Command::Call(
                GlCall::TexParameteri {
                    target: TEXTURE_CUBE_MAP,
                    name: TEXTURE_MAG_FILTER,
                    value: LINEAR,
                },
            ),
            Command::Call(
                GlCall::TexParameteri {
                    target: TEXTURE_CUBE_MAP,
                    name: TEXTURE_WRAP_S,
                    value: CLAMP_TO_EDGE,
                },
            ),
            Command::Call(
                GlCall::TexParameteri {
                    target: TEXTURE_CUBE_MAP,
                    name: TEXTURE_WRAP_T,
                    value: CLAMP_TO_EDGE,
                },
            ),
            Command::Call(
                GlCall::TexParameteri {
                    target: TEXTURE_CUBE_MAP,
                    name: TEXTURE_WRAP_R,
                    value: CLAMP_TO_EDGE,
                },
            ),
            Command::Call(unbind()),
        ];
        assert(views(commands@) =~= CubeMapTexture::upload_model(id, faces));
        (Ok(texture), commands)
    }

    /// Makes a cube map of what the decoder made of six image files, given in
    /// upload order, in the freshly generated texture object `id`, turning
    /// each image upside down if `flip` is set.
    ///
    /// The first outcome without an acceptable image ends the attempt, so
    /// that a cube map is never filled in part.
    pub fn load(
        id: u32,
        right: &Decoded,
        left: &Decoded,
        top: &Decoded,
        bottom: &Decoded,
        back: &Decoded,
        front: &Decoded,
        flip: bool,
    ) -> (made: (Result<CubeMapTexture, TextureError>, Vec<Command>))
        ensures
            made.0 == CubeMapTexture::loaded(
                id,
                seq![*right, *left, *top, *bottom, *back, *front],
                flip,
            ).0,
            views(made.1@) == CubeMapTexture::loaded(
                id,
                seq![*right, *left, *top, *bottom, *back, *front],
                flip,
            ).1,
    {
        let ghost outcomes = seq![*right, *left, *top, *bottom, *back, *front];
        proof {
            reveal_with_fuel(first_failure, 7);
        }
        let right = match load_image(right, flip) {
            Ok(image) => image,
            Err(error) => {
                return (Err(error), release(id));
            },
        };
        let left = match load_image(left, flip) {
            Ok(image) => image,
            Err(error) => {
                return (Err(error), release(id));
            },
        };
        let top = match load_image(top, flip) {
            Ok(image) => image,
            Err(error) => {
                return (Err(error), release(id));
            },
        };
        let bottom = match load_image(bottom, flip) {
            Ok(image) => image,
            Err(error) => {
                return (Err(error), release(id));
            },
        };
        let back = match load_image(back, flip) {
            Ok(image) => image,
            Err(error) => {
                return (Err(error), release(id));
            },
        };
        let front = match load_image(front, flip) {
            Ok(image) => image,
            Err(error) => {
                return (Err(error), release(id));
            },
        };
        let ghost faces = seq![right, left, top, bottom, back, front];
        proof {
            reveal_with_fuel(first_problem, 7);
            assert(first_failure(outcomes, 0) is None);
            assert(first_problem(faces, 0) is None);
            assert(forall|i: int|
                0 <= i < 6 ==> face_upload(CubeFace::at(i).target_of(), #[trigger] faces[i])
                    == loaded_face(i, outcomes[i], flip));
            assert(Seq::new(6, |i: int| face_upload(CubeFace::at(i).target_of(), faces[i]))
                =~= Seq::new(6, |i: int| loaded_face(i, outcomes[i], flip)));
        }
        CubeMapTexture::new(id, right, left, top, bottom, back, front)
    }

    /// Where the six face files with the extension `ext` are in `directory`,
    /// in upload order: for each face, the first file of its name. If one of
    /// the six is not there, the name of the first that is not.
    pub fn face_positions(directory: &Vec<File>, ext: &str) -> (positions: Result<
        Vec<usize>,
        TextureError,
    >)
        ensures
            (match first_missing(directory@, ext@, 0) {
                Some(face) => positions matches Err(TextureError::MissingFile(name)) && name@
                    == face.file_name_of(ext@),
                None => positions matches Ok(found) && found@.len() == 6 && forall|i: int|
                    0 <= i < 6 ==> (#[trigger] found@[i]) < directory@.len() && found@[i]
                        == position_of(directory@, CubeFace::at(i).file_name_of(ext@), 0),
            }),
    {
        let mut found: Vec<usize> = Vec::new();
        let mut i: usize = 0;
        while i < 6
            invariant
                i <= 6,
                found@.len() == i,
                forall|j: int|
                    0 <= j < i ==> (#[trigger] found@[j]) < directory@.len() && found@[j]
                        == position_of(directory@, CubeFace::at(j).file_name_of(ext@), 0),
                first_missing(directory@, ext@, 0) == first_missing(directory@, ext@, i as int),
            decreases 6 - i,
        {
            let face = CubeFace::nth(i);
            let name = face.file_name(ext);
            match find_file(directory, &name) {
                Some(position) => {
                    let ghost before = found@;
                    found.push(position);
                    assert(forall|j: int| 0 <= j < i ==> found@[j] == before[j]);
                },
                None => {
                    return Err(TextureError::MissingFile(name));
                },
            }
            i += 1;
        }
        Ok(found)
    }

    /// Makes a cube map of the files `right`, `left`, `top`, `bottom`, `back`
    /// and `front` with the extension `ext` among those of `directory`: the
    /// file of each name becomes the face of that name, as
    /// [`CubeMapTexture::load`] makes it.
    ///
    /// If one of the six is not there, fails with the name of the first that
    /// is not, and the object is released.
    pub fn load_from_directory(id: u32, directory: &Vec<File>, ext: &str, flip: bool) -> (made: (
        Result<CubeMapTexture, TextureError>,
        Vec<Command>,
    ))
        ensures
            (match first_missing(directory@, ext@, 0) {
                Some(face) => {
                    &&& made.0 matches Err(TextureError::MissingFile(name)) && name@
                        == face.file_name_of(ext@)
                    &&& views(made.1@) == release_model(id)
                },
                None => {
                    &&& made.0 == CubeMapTexture::loaded(id, chosen(directory@, ext@), flip).0
                    &&& views(made.1@) == CubeMapTexture::loaded(
                        id,
                        chosen(directory@, ext@),
                        flip,
                    ).1
                },
            }),
    {
        let found = match CubeMapTexture::face_positions(directory, ext) {
            Ok(found) => found,
            Err(error) => {
                return (Err(error), release(id));
            },
        };
        let right = &directory[found[0]].content;
        let left = &directory[found[1]].content;
        let top = &directory[found[2]].content;
        let bottom = &directory[found[3]].content;
        let back = &directory[found[4]].content;
        let front = &directory[found[5]].content;
        assert(seq![*right, *left, *top, *bottom, *back, *front] =~= chosen(directory@, ext@));
        CubeMapTexture::load(id, right, left, top, bottom, back, front, flip)
    }

    /// The call that binds the cube map to the active unit.
    pub fn bind(&self) -> (call: GlCall)
        ensures
            call == (GlCall::BindTexture { target: TEXTURE_CUBE_MAP, texture: self.id }),
    {
        GlCall::BindTexture { target: TEXTURE_CUBE_MAP, texture: self.id }
    }
}

/// The call that leaves no cube map bound to the active unit.
pub fn unbind() -> (call: GlCall)
    ensures
        call == (GlCall::BindTexture { target: TEXTURE_CUBE_MAP, texture: 0 }),
{
    GlCall::BindTexture { target: TEXTURE_CUBE_MAP, texture: 0 }
}

} // verus!
