use vstd::prelude::*;

verus! {

/// The image that the `image` crate decodes from these bytes, as width, height
/// and RGBA8 pixels (row by row, four bytes per pixel); `None` when it cannot.
pub uninterp spec fn decoded_rgba(bytes: Seq<u8>) -> Option<(u32, u32, Seq<u8>)>;

/// The RGBA8 pixels that the `image` crate's `imageops::resize` (triangle filter)
/// produces when it resizes a `width` x `height` image to `new_width` x `new_height`.
pub uninterp spec fn resized_rgba(
    width: u32,
    height: u32,
    pixels: Seq<u8>,
    new_width: u32,
    new_height: u32,
) -> Seq<u8>;

/// The file that the `image` crate encodes for an RGBA8 image in the format named
/// by `extension` (JPEG at quality `jpeg_quality`); `None` when no encoder takes that
/// extension or encoding fails.
pub uninterp spec fn encoded_rgba(
    width: u32,
    height: u32,
    pixels: Seq<u8>,
    extension: Seq<char>,
    jpeg_quality: u8,
) -> Option<Seq<u8>>;

/// `c` with ASCII upper-case letters turned to lower case.
pub open spec fn ascii_lower(c: char) -> char {
    if 'A' <= c <= 'Z' {
        ((c as u32) + 32) as char
    } else {
        c
    }
}

/// An extension that names a format the encoder writes: `png`, `jpg` or `jpeg`, in any
/// letter case.
pub open spec fn is_encodable_extension(extension: Seq<char>) -> bool {
    let lower = extension.map_values(|c: char| ascii_lower(c));
    lower == "png"@ || lower == "jpg"@ || lower == "jpeg"@
}

/// The quality JPEG files are written at.
pub const JPEG_QUALITY: u8 = 95;

/// Decodes with `image::load_from_memory` and converts with `DynamicImage::to_rgba8`.
/// Trusted: the result is `decoded_rgba` of the bytes, and the pixel buffer holds four
/// bytes per pixel (`to_rgba8` allocates `ImageBuffer::new(width, height)`).
#[verifier::external_body]
fn decode_rgba(bytes: &[u8]) -> (r: Option<(u32, u32, Vec<u8>)>)
    ensures
        match r {
            Some((w, h, px)) => decoded_rgba(bytes@) == Some((w, h, px@)) && px@.len() == 4
                * w * h,
            None => decoded_rgba(bytes@) is None,
        },
{
    match image::load_from_memory(bytes) {
        Ok(img) => {
            let rgba = img.to_rgba8();
            Some((rgba.width(), rgba.height(), rgba.into_raw()))
        },
        Err(_) => None,
    }
}

/// Resizes with `image::imageops::resize` and `FilterType::Triangle`.
/// Trusted: the result is `resized_rgba` of the arguments, four bytes per pixel of the
/// new size (`resize` fills an `ImageBuffer::new(new_width, new_height)`).
/// `ImageBuffer::from_raw` needs exactly the pixels of the old size, and
/// `ImageBuffer::new` panics when a buffer's length overflows `usize`: the result's,
/// and the `width` x `new_height` buffer of four `f32` channels that `resize` samples
/// into first.
#[verifier::external_body]
fn resize_rgba(width: u32, height: u32, pixels: Vec<u8>, new_width: u32, new_height: u32) -> (r:
    Vec<u8>)
    requires
        0 < width,
        0 < height,
        pixels@.len() == 4 * width * height,
        0 < new_width,
        0 < new_height,
        4 * new_width * new_height <= usize::MAX,
        4 * width * new_height <= usize::MAX,
    ensures
        r@ == resized_rgba(width, height, pixels@, new_width, new_height),
        r@.len() == 4 * new_width * new_height,
{
    let buf: image::RgbaImage = image::ImageBuffer::from_raw(width, height, pixels).unwrap();
    image::imageops::resize(&buf, new_width, new_height, image::imageops::FilterType::Triangle)
        .into_raw()
}

/// Picks the format with `image::ImageFormat::from_extension` (JPEG at quality
/// `jpeg_quality`) and encodes with `image::write_buffer_with_format` into memory.
/// Trusted: the result is `encoded_rgba` of the arguments, and there is none for an
/// extension other than `png`, `jpg` and `jpeg` (`from_extension` lower-cases the
/// extension, and only the PNG and JPEG encoders are built in).
#[verifier::external_body]
fn encode_rgba(
    width: u32,
    height: u32,
    pixels: &[u8],
    extension: &str,
    jpeg_quality: u8,
) -> (r: Option<Vec<u8>>)
    requires
        0 < width,
        0 < height,
        pixels@.len() == 4 * width * height,
    ensures
        match r {
            Some(b) => encoded_rgba(width, height, pixels@, extension@, jpeg_quality) == Some(b@),
            None => encoded_rgba(width, height, pixels@, extension@, jpeg_quality) is None,
        },
        !is_encodable_extension(extension@) ==> r is None,
{
    let format: image::ImageOutputFormat = match image::ImageFormat::from_extension(extension)? {
        image::ImageFormat::Jpeg => image::ImageOutputFormat::Jpeg(jpeg_quality),
        other => other.into(),
    };
    let mut out = std::io::Cursor::new(Vec::new());
    image::write_buffer_with_format(
        &mut out,
        pixels,
        width,
        height,
        image::ColorType::Rgba8,
        format,
    ).ok()?;
    Some(out.into_inner())
}

/// Index of the last `.` in `s`, or -1 when there is none.
pub open spec fn last_dot(s: Seq<char>) -> int
    decreases s.len(),
{
    if s.len() == 0 {
        -1
    } else if s.last() == '.' {
        s.len() - 1
    } else {
        last_dot(s.drop_last())
    }
}

/// The text after the last `.` of a file path: the extension by which the
/// encoder is chosen. `None` when the path holds no `.`.
pub open spec fn path_extension(path: Seq<char>) -> Option<Seq<char>> {
    let i: int = last_dot(path);
    if i < 0 {
        None
    } else {
        Some(path.subrange(i + 1, path.len() as int))
    }
}

/// `k` is the index of the last `.` of `s` (-1 for none) when `s[k]` is a `.` and no
/// `.` follows it.
pub proof fn lemma_last_dot(s: Seq<char>, k: int)
    requires
        -1 <= k < s.len(),
        k >= 0 ==> s[k] == '.',
        forall|j: int| k < j < s.len() ==> s[j] != '.',
    ensures
        last_dot(s) == k,
    decreases s.len(),
{
    if s.len() > 0 && s.len() - 1 != k {
        assert(s.last() != '.');
        lemma_last_dot(s.drop_last(), k);
    }
}

/// The extension of `file_path` (see `path_extension`).
pub fn file_extension(file_path: &str) -> (r: Option<&str>)
    ensures
        match r {
            Some(e) => path_extension(file_path@) == Some(e@),
            None => path_extension(file_path@) is None,
        },
{
    let n: usize = file_path.unicode_len();
    let mut i = n;
    while i > 0
        invariant
            i <= n,
            n == file_path@.len(),
            forall|j: int| i <= j < n ==> file_path@[j] != '.',
        decreases i,
    {
        if file_path.get_char(i - 1) == '.' {
            proof {
                lemma_last_dot(file_path@, i - 1);
            }
            return Some(file_path.substring_char(i, n));
        }
        i -= 1;
    }
    proof {
        lemma_last_dot(file_path@, -1);
    }
    None
}

/// A decoded image: `cols` x `rows` pixels, stored as RGBA8.
/// The empty image (no pixels) stands for bytes that could not be decoded.
/// `pixels` holds four bytes per pixel, row by row (see `wf`).
#[derive(Debug, Clone)]
pub struct Mat {
    pub cols: i32,
    pub rows: i32,
    pub pixels: Vec<u8>,
}

impl Mat {
    /// The RGBA8 pixels, row by row.
    pub open spec fn pixels(&self) -> Seq<u8> {
        self.pixels@
    }

    /// The pixel buffer matches the dimensions.
    pub open spec fn wf(&self) -> bool {
        &&& 0 <= self.cols
        &&& 0 <= self.rows
        &&& self.pixels().len() == 4 * self.cols * self.rows
    }

    /// The image has no pixels.
    pub open spec fn is_empty(&self) -> bool {
        self.cols == 0 || self.rows == 0
    }

    /// What `from_bytes` makes of these bytes: the decoded image, or the empty image
    /// when they do not decode or a side does not fit in an `i32`.
    pub open spec fn spec_from_bytes(bytes: Seq<u8>) -> (int, int, Seq<u8>) {
        match decoded_rgba(bytes) {
            Some((w, h, px)) => if w <= i32::MAX && h <= i32::MAX {
                (w as int, h as int, px)
            } else {
                (0, 0, Seq::empty())
            },
            None => (0, 0, Seq::empty()),
        }
    }

    /// Decodes an image file held in memory (PNG or JPEG).
    pub fn from_bytes(bytes: &[u8]) -> (r: Mat)
        ensures
            r.wf(),
            (r.cols as int, r.rows as int, r.pixels()) == Mat::spec_from_bytes(bytes@),
            decoded_rgba(bytes@) matches Some((w, h, px)) ==> (w <= i32::MAX && h <= i32::MAX
                ==> r.cols == w && r.rows == h && r.pixels() == px),
            decoded_rgba(bytes@) is None ==> r.cols == 0 && r.rows == 0 && r.pixels().len() == 0,
    {
        match decode_rgba(bytes) {
            Some((w, h, px)) => {
                if w <= 0x7fff_ffff && h <= 0x7fff_ffff {
                    Mat { cols: w as i32, rows: h as i32, pixels: px }
                } else {
                    Mat { cols: 0, rows: 0, pixels: Vec::new() }
                }
            },
            None => Mat { cols: 0, rows: 0, pixels: Vec::new() },
        }
    }

    /// Whether `resize` to this size succeeds: the image is not empty, the new sides
    /// are positive and the buffers that scaling fills fit in memory (their lengths,
    /// `4 * width * height` and `4 * cols * height`, fit in a `usize`).
    pub open spec fn can_resize(&self, width: int, height: int) -> bool {
        &&& !self.is_empty()
        &&& 0 < width
        &&& 0 < height
        &&& 4 * width * height <= usize::MAX
        &&& 4 * self.cols * height <= usize::MAX
    }

    /// A copy of the image scaled to exactly `width` x `height`.
    pub fn resize(&self, width: i32, height: i32) -> (r: Result<Mat, String>)
        requires
            self.wf(),
        ensures
            r is Ok <==> self.can_resize(width as int, height as int),
            r is Ok <==> {
                &&& self.cols > 0
                &&& self.rows > 0
                &&& width > 0
                &&& height > 0
                &&& 4 * width * height <= usize::MAX
                &&& 4 * self.cols * height <= usize::MAX
            },
            r matches Ok(m) ==> {
                &&& m.wf()
                &&& m.cols == width
                &&& m.rows == height
                &&& m.pixels() == resized_rgba(
                    self.cols as u32,
                    self.rows as u32,
                    self.pixels(),
                    width as u32,
                    height as u32,
                )
            },
            r matches Err(e) ==> e@ == "Error while resizing"@,
    {
        if self.cols == 0 || self.rows == 0 || width <= 0 || height <= 0 {
            return Err(String::from_str("Error while resizing"));
        }
        let w: usize = width as usize;
        let h: usize = height as usize;
        let area: usize = match w.checked_mul(h) {
            Some(a) => a,
            None => {
                assert(4 * width * height > usize::MAX) by (nonlinear_arith)
                    requires w * h > usize::MAX, w == width, h == height;
                return Err(String::from_str("Error while resizing"));
            },
        };
        assert(area == width * height);
        if area > usize::MAX / 4 {
            assert(4 * width * height > usize::MAX) by (nonlinear_arith)
                requires area == width * height, area > usize::MAX / 4;
            return Err(String::from_str("Error while resizing"));
        }
        assert(4 * width * height <= usize::MAX) by (nonlinear_arith)
            requires area == width * height, area <= usize::MAX / 4;
        let c: usize = self.cols as usize;
        let sampled: usize = match c.checked_mul(h) {
            Some(a) => a,
            None => {
                assert(4 * self.cols * height > usize::MAX) by (nonlinear_arith)
                    requires c * h > usize::MAX, c == self.cols, h == height;
                return Err(String::from_str("Error while resizing"));
            },
        };
        assert(sampled == self.cols * height);
        if sampled > usize::MAX / 4 {
            assert(4 * self.cols * height > usize::MAX) by (nonlinear_arith)
                requires sampled == self.cols * height, sampled > usize::MAX / 4;
            return Err(String::from_str("Error while resizing"));
        }
        assert(4 * self.cols * height <= usize::MAX) by (nonlinear_arith)
            requires sampled == self.cols * height, sampled <= usize::MAX / 4;
        let px = resize_rgba(
            self.cols as u32,
            self.rows as u32,
            self.pixels.clone(),
            width as u32,
            height as u32,
        );
        Ok(Mat { cols: width, rows: height, pixels: px })
    }

    /// Every image that decodes is taken as it is: when the bytes decode to a `w` x `h`
    /// image whose sides fit in an `i32`, `from_bytes` gives exactly that image, whatever
    /// its size.
    pub proof fn lemma_decoded_image_kept(bytes: Seq<u8>)
        requires
            decoded_rgba(bytes) is Some,
            decoded_rgba(bytes)->Some_0.0 <= i32::MAX,
            decoded_rgba(bytes)->Some_0.1 <= i32::MAX,
        ensures
            Mat::spec_from_bytes(bytes) == (
                decoded_rgba(bytes)->Some_0.0 as int,
                decoded_rgba(bytes)->Some_0.1 as int,
                decoded_rgba(bytes)->Some_0.2,
            ),
    {
    }

    /// Scaling a well-formed image to a size succeeds exactly when the image has pixels,
    /// the new sides are positive and the buffers `4 * width * height` and
    /// `4 * cols * height` fit in a `usize`; the size of the source image sets no
    /// other bound.
    pub proof fn lemma_can_resize_exactly(m: Mat, width: int, height: int)
        requires
            m.wf(),
        ensures
            m.can_resize(width, height) <==> {
                &&& m.cols > 0
                &&& m.rows > 0
                &&& 0 < width
                &&& 0 < height
                &&& 4 * width * height <= usize::MAX
                &&& 4 * m.cols * height <= usize::MAX
            },
    {
    }

    /// Whether `encode_for_path` succeeds for a path with this text.
    pub open spec fn can_encode(&self, file_path: Seq<char>) -> bool {
        &&& !self.is_empty()
        &&& path_extension(file_path) matches Some(ext)
        &&& encoded_rgba(self.cols as u32, self.rows as u32, self.pixels(), ext, JPEG_QUALITY)
            is Some
    }

    /// The file contents to store at `file_path`, in the format that the path's
    /// extension names (the empty image cannot be stored).
    pub fn encode_for_path(&self, file_path: &str) -> (r: Result<Vec<u8>, String>)
        requires
            self.wf(),
        ensures
            r is Ok <==> self.can_encode(file_path@),
            r matches Ok(b) ==> encoded_rgba(
                self.cols as u32,
                self.rows as u32,
                self.pixels(),
                path_extension(file_path@).unwrap(),
                JPEG_QUALITY,
            ) == Some(b@),
            r matches Err(e) ==> e@ == "Error while saving file to disk"@,
            r is Ok ==> is_encodable_extension(path_extension(file_path@).unwrap()),
    {
        if self.cols == 0 || self.rows == 0 {
            return Err(String::from_str("Error while saving file to disk"));
        }
        match file_extension(file_path) {
            Some(ext) => match encode_rgba(
                self.cols as u32,
                self.rows as u32,
                self.pixels.as_slice(),
                ext,
                JPEG_QUALITY,
            ) {
                Some(b) => Ok(b),
                None => Err(String::from_str("Error while saving file to disk")),
            },
            None => Err(String::from_str("Error while saving file to disk")),
        }
    }
}

} // verus!
