//! Texture loading without the device: decoding PNG images, the file names of
//! cube map faces, the checks on their sizes, and the options that loading does
//! not support.
use vstd::prelude::*;
use vstd::string::StringExecFns;
use crate::error::{GLError, GLErrorKind, GLResult};

verus! {

/// The number of faces of a cube map.
pub const CUBEMAP_FACE_COUNT: usize = 6;

/// The file kind of the images of a cube map's faces.
#[derive(Debug, Clone, Copy)]
pub enum CubeMapFaceExtension {
    Hdr,
    Png,
}

/// The file name suffix of face `i`, in the order +x, -x, +y, -y, +z, -z.
pub open spec fn face_suffix(i: int) -> Seq<char> {
    if i == 0 {
        "posx"@
    } else if i == 1 {
        "negx"@
    } else if i == 2 {
        "posy"@
    } else if i == 3 {
        "negy"@
    } else if i == 4 {
        "posz"@
    } else {
        "negz"@
    }
}

/// The file name suffix of face `i`.
pub fn cubemap_face_suffix(i: usize) -> (suffix: &'static str)
    requires
        i < CUBEMAP_FACE_COUNT,
    ensures
        suffix@ == face_suffix(i as int),
{
    if i == 0 {
        "posx"
    } else if i == 1 {
        "negx"
    } else if i == 2 {
        "posy"
    } else if i == 3 {
        "negy"
    } else if i == 4 {
        "posz"
    } else {
        "negz"
    }
}

/// The name of axis `a` of a cube map's layers: 0 is x, 1 is y, 2 is z.
pub open spec fn axis_name(a: int) -> Seq<char> {
    if a == 0 {
        "x"@
    } else if a == 1 {
        "y"@
    } else {
        "z"@
    }
}

/// Law: face `i` is the cube map layer `i` in OpenGL's order +x, -x, +y, -y, +z,
/// -z: its suffix is the direction (`pos` for even `i`, `neg` for odd) followed
/// by the axis `i / 2`, so the two faces of an axis are neighbours and the
/// positive one comes first.
pub proof fn lemma_face_suffix_names_layer()
    ensures
        forall|i: int|
            0 <= i < CUBEMAP_FACE_COUNT ==> #[trigger] face_suffix(i) == (if i % 2 == 0 {
                "pos"@
            } else {
                "neg"@
            }) + axis_name(i / 2),
{
    reveal_strlit("posx");
    reveal_strlit("negx");
    reveal_strlit("posy");
    reveal_strlit("negy");
    reveal_strlit("posz");
    reveal_strlit("negz");
    reveal_strlit("pos");
    reveal_strlit("neg");
    reveal_strlit("x");
    reveal_strlit("y");
    reveal_strlit("z");
    assert forall|i: int| 0 <= i < CUBEMAP_FACE_COUNT implies #[trigger] face_suffix(i) == (if i % 2 == 0 {
        "pos"@
    } else {
        "neg"@
    }) + axis_name(i / 2) by {
        if i == 0 {
            assert(face_suffix(0) =~= "pos"@ + "x"@);
        } else if i == 1 {
            assert(face_suffix(1) =~= "neg"@ + "x"@);
        } else if i == 2 {
            assert(face_suffix(2) =~= "pos"@ + "y"@);
        } else if i == 3 {
            assert(face_suffix(3) =~= "neg"@ + "y"@);
        } else if i == 4 {
            assert(face_suffix(4) =~= "pos"@ + "z"@);
        } else {
            assert(face_suffix(5) =~= "neg"@ + "z"@);
        }
    }
}

impl CubeMapFaceExtension {
    /// The file extension of the face images: `hdr` or `png`.
    pub fn file_extension(&self) -> (ext: &'static str)
        ensures
            *self is Hdr ==> ext@ == "hdr"@,
            *self is Png ==> ext@ == "png"@,
    {
        match self {
            CubeMapFaceExtension::Hdr => "hdr",
            CubeMapFaceExtension::Png => "png",
        }
    }
}

/// The path of the image of face `face`: the common prefix, an underscore, the
/// face's suffix, a dot and the extension.
pub fn cubemap_face_path(path_prefix: &str, extension: &str, face: usize) -> (path: String)
    requires
        face < CUBEMAP_FACE_COUNT,
    ensures
        path@ == path_prefix@ + "_"@ + face_suffix(face as int) + "."@ + extension@,
{
    String::from_str(path_prefix).concat("_").concat(cubemap_face_suffix(face)).concat(".").concat(extension)
}

/// The message of the error for a face that is not square.
pub const FACE_NOT_SQUARE_MESSAGE: &'static str = "The cubemap face must share the same width and height.";

/// The message of the error for faces of different sizes.
pub const FACES_DIFFER_MESSAGE: &'static str = "The image dimension is different among cubemap faces.";

/// A cube map face must be square.
pub fn check_face_dimension(width: u32, height: u32) -> (r: GLResult<()>)
    ensures
        r is Ok <==> width == height,
        r matches Err(e) ==> e.spec_kind() matches GLErrorKind::Custom { description }
            && description@ == FACE_NOT_SQUARE_MESSAGE@,
{
    if width != height {
        return Err(GLError::custom(FACE_NOT_SQUARE_MESSAGE));
    }
    Ok(())
}

/// All faces of a cube map must have the size of the first.
pub fn check_faces_dimension(dimensions: &Vec<(u32, u32)>) -> (r: GLResult<()>)
    requires
        dimensions@.len() >= 1,
    ensures
        r is Ok <==> forall|i: int| 0 <= i < dimensions@.len() ==> #[trigger] dimensions@[i] == dimensions@[0],
        r matches Err(e) ==> e.spec_kind() matches GLErrorKind::Custom { description }
            && description@ == FACES_DIFFER_MESSAGE@,
{
    let first = dimensions[0];
    let mut i: usize = 0;
    while i < dimensions.len()
        invariant
            0 <= i <= dimensions@.len(),
            first == dimensions@[0],
            forall|k: int| 0 <= k < i ==> #[trigger] dimensions@[k] == first,
        decreases dimensions@.len() - i,
    {
        let d = dimensions[i];
        if d.0 != first.0 || d.1 != first.1 {
            return Err(GLError::custom(FACES_DIFFER_MESSAGE));
        }
        i = i + 1;
    }
    Ok(())
}

/// One step of loading a cube map's faces, taken once face `loaded.len()` has
/// come back `width` by `height`; `loaded` holds the sizes of the faces before
/// it. A face that is not square ends the loading with an error. After the last
/// face, the loading is done (`Ok(true)`) when every face has the first face's
/// size, and ends with an error when not. Before it, the next face is loaded
/// (`Ok(false)`).
pub fn cubemap_face_step(loaded: &Vec<(u32, u32)>, width: u32, height: u32) -> (r: GLResult<bool>)
    requires
        loaded@.len() < CUBEMAP_FACE_COUNT,
    ensures
        width != height ==> (r matches Err(e) && e.spec_kind() matches GLErrorKind::Custom { description }
            && description@ == FACE_NOT_SQUARE_MESSAGE@),
        width == height && loaded@.len() + 1 < CUBEMAP_FACE_COUNT ==> r == Ok::<bool, GLError>(false),
        width == height && loaded@.len() + 1 == CUBEMAP_FACE_COUNT ==> {
            let sizes = loaded@.push((width, height));
            &&& (r is Ok <==> forall|i: int| 0 <= i < sizes.len() ==> #[trigger] sizes[i] == sizes[0])
            &&& (r matches Ok(done) ==> done)
            &&& (r matches Err(e) ==> e.spec_kind() matches GLErrorKind::Custom { description }
                && description@ == FACES_DIFFER_MESSAGE@)
        },
{
    check_face_dimension(width, height)?;
    if loaded.len() + 1 < CUBEMAP_FACE_COUNT {
        return Ok(false);
    }
    let ghost sizes = loaded@.push((width, height));
    let first = loaded[0];
    let mut i: usize = 0;
    while i < loaded.len()
        invariant
            0 <= i <= loaded@.len(),
            loaded@.len() + 1 == CUBEMAP_FACE_COUNT,
            width == height,
            sizes == loaded@.push((width, height)),
            first == sizes[0],
            forall|k: int| 0 <= k < i ==> #[trigger] sizes[k] == first,
        decreases loaded@.len() - i,
    {
        let d = loaded[i];
        if d.0 != first.0 || d.1 != first.1 {
            assert(sizes[i as int] == d);
            return Err(GLError::custom(FACES_DIFFER_MESSAGE));
        }
        i = i + 1;
    }
    if width != first.0 || height != first.1 {
        assert(sizes[loaded@.len() as int] == (width, height));
        return Err(GLError::custom(FACES_DIFFER_MESSAGE));
    }
    assert forall|k: int| 0 <= k < sizes.len() implies #[trigger] sizes[k] == sizes[0] by {
        if k == loaded@.len() {
            assert(sizes[k] == (width, height));
        }
    }
    Ok(true)
}

/// The message of the error for a flipped PNG load.
pub const PNG_FLIP_MESSAGE: &'static str = "Load png image with flipping.";

/// Loading a PNG image flipped is not implemented.
pub fn check_png_flip(is_flip: bool) -> (r: GLResult<()>)
    ensures
        r is Ok <==> !is_flip,
        r matches Err(e) ==> e.spec_kind() matches GLErrorKind::Unimplemented { function }
            && function@ == PNG_FLIP_MESSAGE@,
{
    if is_flip {
        return Err(GLError::unimplemented(PNG_FLIP_MESSAGE));
    }
    Ok(())
}

/// The colour type of a decoded PNG image.
#[derive(Debug, Clone, Copy, PartialEq, Eq, Structural)]
pub enum PngColor {
    Grayscale,
    Rgb,
    Indexed,
    GrayscaleAlpha,
    Rgba,
}

impl PngColor {
    /// The colour-type code that a PNG header gives this colour type.
    pub open spec fn code(self) -> u8 {
        match self {
            PngColor::Grayscale => 0,
            PngColor::Rgb => 2,
            PngColor::Indexed => 3,
            PngColor::GrayscaleAlpha => 4,
            PngColor::Rgba => 6,
        }
    }

    /// Whether the pixels are RGB or RGBA, the two layouts a texture is made from.
    pub fn is_rgb_or_rgba(&self) -> (b: bool)
        ensures
            b <==> (*self is Rgb || *self is Rgba),
    {
        match self {
            PngColor::Rgb | PngColor::Rgba => true,
            _ => false,
        }
    }
}

/// The pixels of a decoded PNG image.
#[derive(Debug, Clone)]
pub struct PngContent {
    pub width: u32,
    pub height: u32,
    pub color_type: PngColor,
    pub buffer: Vec<u8>,
}

/// What decoding the PNG file `bytes` gives: its width, height, colour-type code
/// and the bytes of its first frame, or nothing where the file cannot be decoded.
pub uninterp spec fn png_decoding(bytes: Seq<u8>) -> Option<(u32, u32, u8, Seq<u8>)>;

/// `png::Decoder::new` on the bytes, then `Decoder::read_info` and
/// `Reader::next_frame` into a buffer of `OutputInfo::buffer_size` bytes.
/// Claimed: the outcome depends on the bytes alone (`png_decoding`), an error
/// exactly where decoding fails, with the decoder's message. Left unsaid: for a
/// header whose frame cannot be allocated, the allocation aborts the process.
#[verifier::external_body]
fn decode_png(bytes: &[u8]) -> (r: Result<(u32, u32, PngColor, Vec<u8>), String>)
    ensures
        match r {
            Ok((w, h, c, buf)) => png_decoding(bytes@) == Some((w, h, c.code(), buf@)),
            Err(_) => png_decoding(bytes@) is None,
        },
{
    let (info, mut reader) = png::Decoder::new(bytes).read_info().map_err(|e| e.to_string())?;
    let mut buffer = vec![0u8; info.buffer_size()];
    reader.next_frame(&mut buffer).map_err(|e| e.to_string())?;
    let color = match info.color_type {
        png::ColorType::Grayscale => PngColor::Grayscale,
        png::ColorType::RGB => PngColor::Rgb,
        png::ColorType::Indexed => PngColor::Indexed,
        png::ColorType::GrayscaleAlpha => PngColor::GrayscaleAlpha,
        png::ColorType::RGBA => PngColor::Rgba,
    };
    Ok((info.width, info.height, color, buffer))
}

/// The image from what the decoder gave: its pixels, or a `Custom` error that
/// carries the decoder's message.
pub fn png_content_from_decoded(decoded: Result<(u32, u32, PngColor, Vec<u8>), String>) -> (r: GLResult<PngContent>)
    ensures
        match decoded {
            Ok((w, h, c, buf)) => r matches Ok(content) && content.width == w && content.height == h
                && content.color_type == c && content.buffer@ == buf@,
            Err(message) => r matches Err(e) && e.spec_kind() matches GLErrorKind::Custom { description }
                && description@ == message@,
        },
{
    match decoded {
        Ok((width, height, color_type, buffer)) => Ok(PngContent { width, height, color_type, buffer }),
        Err(message) => Err(GLError::custom(message.as_str())),
    }
}

/// Load the pixels of a PNG file held in `bytes`. Loading flipped is not
/// implemented; otherwise the result is the decoded image, or a `Custom` error
/// where the bytes do not decode.
pub fn load_png_pixels(bytes: &[u8], is_flip: bool) -> (r: GLResult<PngContent>)
    ensures
        is_flip ==> (r matches Err(e) && e.spec_kind() matches GLErrorKind::Unimplemented { function }
            && function@ == PNG_FLIP_MESSAGE@),
        !is_flip ==> (r is Ok <==> png_decoding(bytes@) is Some),
        !is_flip ==> (r matches Err(e) ==> e.spec_kind() is Custom),
        r matches Ok(content) ==> png_decoding(bytes@) == Some(
            (content.width, content.height, content.color_type.code(), content.buffer@),
        ),
{
    check_png_flip(is_flip)?;
    png_content_from_decoded(decode_png(bytes))
}

} // verus!
