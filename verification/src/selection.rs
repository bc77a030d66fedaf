use vstd::prelude::*;
use vstd::string::*;

use crate::naming::{path_file_name, spec_path_file_name};

verus! {

#[verifier::external_type_specification]
#[verifier::external_body]
pub struct ExTextureId(egui::TextureId);

/// The width of the blank preview texture of a new selection.
pub const PREVIEW_WIDTH: u32 = 200;

/// The height of the blank preview texture of a new selection.
pub const PREVIEW_HEIGHT: u32 = 150;

/// The color of a flat normal map: the normal (0, 0, 1) pointing straight out
/// of the sprite, fully opaque.
pub const FLAT_NORMAL_COLOR: [u8; 4] = [128, 128, 255, 255];

/// An image read from a file: its size and its pixels as 8-bit RGBA, row by row.
pub struct DecodedImage {
    pub width: u32,
    pub height: u32,
    pub pixels: Vec<u8>,
}

/// Pixels to be written into a selection's texture, with the layout of the
/// copy: 4 bytes per pixel, `height` rows of `bytes_per_row` bytes each.
pub struct TextureUpload {
    pub width: u32,
    pub height: u32,
    pub bytes_per_row: u32,
    pub rows_per_image: u32,
    pub pixels: Vec<u8>,
}

/// `width` x `height` pixels of one RGBA `color`, row by row.
pub open spec fn solid_pixels(width: u32, height: u32, color: [u8; 4]) -> Seq<u8> {
    Seq::new((4 * width * height) as nat, |i: int| color@[i % 4])
}

/// Calls `image::RgbaImage::from_pixel(width, height, image::Rgba(color))`
/// and takes its raw buffer with `into_raw`. The buffer is allocated zeroed
/// with `4 * width * height` bytes, its length computed as `4 * width` and
/// then times `height`, each step checked; the call panics when either step
/// overflows a `usize`, which `requires` leaves out. Every pixel is then set
/// to `color`, so the buffer is `color` repeated once per pixel.
#[verifier::external_body]
fn solid_rgba(width: u32, height: u32, color: [u8; 4]) -> (pixels: Vec<u8>)
    requires
        4 * width <= usize::MAX,
        4 * width * height <= usize::MAX,
    ensures
        pixels@ == solid_pixels(width, height, color),
{
    image::RgbaImage::from_pixel(width, height, image::Rgba(color)).into_raw()
}

/// Every pixel of `solid_pixels` is `color`.
pub proof fn lemma_solid_pixels_are_color(width: u32, height: u32, color: [u8; 4])
    ensures
        solid_pixels(width, height, color).len() == 4 * width * height,
        forall|p: int, k: int|
            0 <= p < width * height && 0 <= k < 4 ==> #[trigger] solid_pixels(width, height, color)[4
                * p + k] == color@[k],
{
    assert(0 <= width * height && 4 * width * height == 4 * (width * height)) by (nonlinear_arith);
    assert forall|p: int, k: int| 0 <= p < width * height && 0 <= k < 4 implies #[trigger] solid_pixels(
        width,
        height,
        color,
    )[4 * p + k] == color@[k] by {
        assert((4 * p + k) % 4 == k);
        assert(0 <= 4 * p + k < 4 * (width * height));
    }
}

/// What a selection is: its label, the selected file (if any), the id of its
/// texture in egui, and the size of the image in that texture.
pub struct SelectionView {
    pub label: Seq<char>,
    pub path: Option<Seq<char>>,
    pub texture_id: egui::TextureId,
    pub size: (u32, u32),
}

/// The view of an optional string.
pub open spec fn opt_view(s: Option<String>) -> Option<Seq<char>> {
    match s {
        Some(s) => Some(s@),
        None => None,
    }
}

/// The upload of a decoded image: its own pixels, 4 bytes per pixel per row.
pub open spec fn decoded_upload(d: DecodedImage, u: TextureUpload) -> bool {
    &&& u.width == d.width
    &&& u.height == d.height
    &&& u.bytes_per_row == 4 * d.width
    &&& u.rows_per_image == d.height
    &&& u.pixels@ == d.pixels@
}

/// The upload of a filled image: `size` pixels of `color`, 4 bytes per pixel per row.
pub open spec fn filled_upload(size: (u32, u32), color: [u8; 4], u: TextureUpload) -> bool {
    &&& u.width == size.0
    &&& u.height == size.1
    &&& u.bytes_per_row == 4 * size.0
    &&& u.rows_per_image == size.1
    &&& u.pixels@ == solid_pixels(size.0, size.1, color)
}

/// A selection with nothing selected, showing a blank preview.
pub open spec fn empty_selection(label: Seq<char>, texture_id: egui::TextureId) -> SelectionView {
    SelectionView { label, path: None, texture_id, size: (PREVIEW_WIDTH, PREVIEW_HEIGHT) }
}

/// A selection after the file at `path` was tried: with `decoded` read from
/// it, the file and its size become the selection's; with nothing read, the
/// selection is unchanged.
pub open spec fn selection_after_select(
    s: SelectionView,
    path: Seq<char>,
    decoded: Option<DecodedImage>,
) -> SelectionView {
    match decoded {
        Some(d) => SelectionView { path: Some(path), size: (d.width, d.height), ..s },
        None => s,
    }
}

/// A selection after the file at `path` was tried with a fill of `size` as
/// the fallback: as `selection_after_select` when the file was read;
/// otherwise the path is kept and the size is `size`.
pub open spec fn selection_after_select_or_fill(
    s: SelectionView,
    path: Seq<char>,
    decoded: Option<DecodedImage>,
    size: (u32, u32),
) -> SelectionView {
    match decoded {
        Some(d) => selection_after_select(s, path, decoded),
        None => SelectionView { path: Some(path), size, ..s },
    }
}

/// A selection that decodes always makes the file the selection and takes
/// the decoded image's size, whatever was selected before; one that does not
/// decode changes nothing.
pub proof fn lemma_select_takes_decoded_size(s: SelectionView, path: Seq<char>, d: DecodedImage)
    ensures
        selection_after_select(s, path, Some(d)).path == Some(path),
        selection_after_select(s, path, Some(d)).size == (d.width, d.height),
        selection_after_select(s, path, None) == s,
{
}

/// When the file cannot be read, the fill fallback always selects the given
/// path (where the map will be saved) and takes the given size, whatever was
/// selected before.
pub proof fn lemma_fill_takes_path_and_size(s: SelectionView, path: Seq<char>, size: (u32, u32))
    ensures
        selection_after_select_or_fill(s, path, None, size).path == Some(path),
        selection_after_select_or_fill(s, path, None, size).size == size,
{
}

/// When the file loads, selecting it with a fill as the fallback leaves the
/// same selection as selecting it plainly (and both upload the decoded image,
/// see `decoded_upload` in their contracts).
pub proof fn lemma_select_or_fill_loads_like_select(
    s: SelectionView,
    path: Seq<char>,
    d: DecodedImage,
    size: (u32, u32),
)
    ensures
        selection_after_select_or_fill(s, path, Some(d), size) == selection_after_select(
            s,
            path,
            Some(d),
        ),
{
}

/// Selecting the same file twice, with what reading it gave unchanged, leaves
/// the selection as one selection did; the same holds with a fill as the
/// fallback. The uploads of both calls are fixed by what was read, the size
/// and the color alone (`decoded_upload`, `filled_upload`).
pub proof fn lemma_select_idempotent(
    s: SelectionView,
    path: Seq<char>,
    decoded: Option<DecodedImage>,
    size: (u32, u32),
)
    ensures
        selection_after_select(selection_after_select(s, path, decoded), path, decoded)
            == selection_after_select(s, path, decoded),
        selection_after_select_or_fill(
            selection_after_select_or_fill(s, path, decoded, size),
            path,
            decoded,
            size,
        ) == selection_after_select_or_fill(s, path, decoded, size),
{
}

/// Selecting never changes the label or the texture of a selection.
pub proof fn lemma_select_keeps_label_and_texture(
    s: SelectionView,
    path: Seq<char>,
    decoded: Option<DecodedImage>,
    size: (u32, u32),
)
    ensures
        selection_after_select(s, path, decoded).label == s.label,
        selection_after_select(s, path, decoded).texture_id == s.texture_id,
        selection_after_select_or_fill(s, path, decoded, size).label == s.label,
        selection_after_select_or_fill(s, path, decoded, size).texture_id == s.texture_id,
{
}

/// A selection of a sprite or normal map file and the texture that shows it.
pub struct SpriteFileSelection {
    label: String,
    path: Option<String>,
    texture_id: egui::TextureId,
    size: (u32, u32),
}

impl View for SpriteFileSelection {
    type V = SelectionView;

    closed spec fn view(&self) -> SelectionView {
        SelectionView {
            label: self.label@,
            path: opt_view(self.path),
            texture_id: self.texture_id,
            size: self.size,
        }
    }
}

/// The number of bytes in one row of `width` RGBA pixels.
fn row_bytes(width: u32) -> (n: u32)
    requires
        width <= 0x3fff_ffff,
    ensures
        n == 4 * width,
{
    4 * width
}

impl SpriteFileSelection {
    /// A selection with nothing selected, shown in the texture `texture_id`,
    /// which holds a blank `PREVIEW_WIDTH` x `PREVIEW_HEIGHT` image.
    pub fn new(label: String, texture_id: egui::TextureId) -> (s: Self)
        ensures
            s@ == empty_selection(label@, texture_id),
    {
        SpriteFileSelection { label, path: None, texture_id, size: (PREVIEW_WIDTH, PREVIEW_HEIGHT) }
    }

    /// A selection shown in the texture `texture_id` (holding a blank preview)
    /// that then tries to select `initial`, a path together with what reading
    /// it gave; with no initial path nothing is selected. The result is the
    /// selection and the upload for its texture, if any.
    pub fn new_selecting(
        label: String,
        texture_id: egui::TextureId,
        initial: Option<(String, Option<DecodedImage>)>,
    ) -> (r: (Self, Option<TextureUpload>))
        requires
            initial matches Some((p, Some(d))) ==> d.width <= 0x3fff_ffff && d.pixels@.len() == 4
                * d.width * d.height,
        ensures
            match initial {
                None => r.0@ == empty_selection(label@, texture_id) && r.1 is None,
                Some((p, decoded)) => {
                    &&& r.0@ == selection_after_select(
                        empty_selection(label@, texture_id),
                        p@,
                        decoded,
                    )
                    &&& match decoded {
                        None => r.1 is None,
                        Some(d) => r.1 matches Some(u) && decoded_upload(d, u),
                    }
                },
            },
    {
        let mut selection = Self::new(label, texture_id);
        match initial {
            None => (selection, None),
            Some((path, decoded)) => {
                let (_, upload) = selection.select(path, decoded);
                (selection, upload)
            },
        }
    }

    /// The label of the selection's texture.
    pub fn label(&self) -> (l: &str)
        ensures
            l@ == self@.label,
    {
        self.label.as_str()
    }

    /// The selected file, if any.
    pub fn path(&self) -> (p: Option<&str>)
        ensures
            match p {
                Some(p) => self@.path == Some(p@),
                None => self@.path is None,
            },
    {
        match &self.path {
            Some(p) => Some(p.as_str()),
            None => None,
        }
    }

    /// The id of the selection's texture in egui.
    pub fn texture_id(&self) -> (id: egui::TextureId)
        ensures
            id == self@.texture_id,
    {
        self.texture_id
    }

    /// The size of the image in the selection's texture.
    pub fn size(&self) -> (s: (u32, u32))
        ensures
            s == self@.size,
    {
        self.size
    }

    /// Tries to select the file at `path`, given what reading it gave:
    /// `decoded` is `None` when the file could not be opened or decoded.
    /// On failure the selection is left unmodified and nothing is uploaded.
    /// On success the file becomes the selection, its size the selection's
    /// size, and its pixels are uploaded; the result then carries the size.
    pub fn try_select(&mut self, path: String, decoded: Option<DecodedImage>) -> (r: Option<
        TextureUpload,
    >)
        requires
            decoded matches Some(d) ==> d.width <= 0x3fff_ffff && d.pixels@.len() == 4 * d.width
                * d.height,
        ensures
            final(self)@ == selection_after_select(old(self)@, path@, decoded),
            final(self)@.label == old(self)@.label,
            final(self)@.texture_id == old(self)@.texture_id,
            match decoded {
                None => r is None && final(self)@ == old(self)@,
                Some(d) => {
                    &&& r matches Some(u) && decoded_upload(d, u)
                    &&& final(self)@.path == Some(path@)
                    &&& final(self)@.size == (d.width, d.height)
                },
            },
    {
        match decoded {
            None => None,
            Some(d) => {
                self.path = Some(path);
                self.size = (d.width, d.height);
                let bytes_per_row = row_bytes(d.width);
                Some(
                    TextureUpload {
                        width: d.width,
                        height: d.height,
                        bytes_per_row,
                        rows_per_image: d.height,
                        pixels: d.pixels,
                    },
                )
            },
        }
    }

    /// Selects the file at `path` if it could be read (see `try_select`) and
    /// returns the size of the selection afterwards: the new image's size, or
    /// the unchanged size when the file could not be read.
    pub fn select(&mut self, path: String, decoded: Option<DecodedImage>) -> (r: (
        (u32, u32),
        Option<TextureUpload>,
    ))
        requires
            decoded matches Some(d) ==> d.width <= 0x3fff_ffff && d.pixels@.len() == 4 * d.width
                * d.height,
        ensures
            final(self)@ == selection_after_select(old(self)@, path@, decoded),
            r.0 == final(self)@.size,
            final(self)@.label == old(self)@.label,
            final(self)@.texture_id == old(self)@.texture_id,
            match decoded {
                None => r.1 is None && final(self)@ == old(self)@ && r.0 == old(self)@.size,
                Some(d) => {
                    &&& r.1 matches Some(u) && decoded_upload(d, u)
                    &&& r.0 == (d.width, d.height)
                    &&& final(self)@.path == Some(path@)
                    &&& final(self)@.size == (d.width, d.height)
                },
            },
    {
        match self.try_select(path, decoded) {
            Some(upload) => ((upload.width, upload.height), Some(upload)),
            None => (self.size, None),
        }
    }

    /// Selects the file at `path` if it could be read (see `try_select`).
    /// Otherwise the path is still selected (it is where the image will be
    /// saved) and the texture gets an image of `size` filled with `color`.
    pub fn select_or_fill(
        &mut self,
        path: String,
        decoded: Option<DecodedImage>,
        size: (u32, u32),
        color: [u8; 4],
    ) -> (u: TextureUpload)
        requires
            decoded matches Some(d) ==> d.width <= 0x3fff_ffff && d.pixels@.len() == 4 * d.width
                * d.height,
            decoded is None ==> size.0 <= 0x3fff_ffff && 4 * size.0 * size.1 <= usize::MAX,
        ensures
            final(self)@ == selection_after_select_or_fill(old(self)@, path@, decoded, size),
            final(self)@.path == Some(path@),
            final(self)@.label == old(self)@.label,
            final(self)@.texture_id == old(self)@.texture_id,
            match decoded {
                Some(d) => decoded_upload(d, u) && final(self)@.size == (d.width, d.height),
                None => filled_upload(size, color, u) && final(self)@.size == size,
            },
    {
        let kept = path.clone();
        match self.try_select(path, decoded) {
            Some(upload) => upload,
            None => {
                let (width, height) = size;
                self.size = (width, height);
                self.path = Some(kept);
                let pixels = solid_rgba(width, height, color);
                let bytes_per_row = row_bytes(width);
                TextureUpload { width, height, bytes_per_row, rows_per_image: height, pixels }
            },
        }
    }

    /// The text shown when no file is selected: `No <label> selected.`
    pub fn placeholder_text(&self) -> (t: String)
        ensures
            t@ == seq!['N', 'o', ' '] + self@.label + seq![
                ' ',
                's',
                'e',
                'l',
                'e',
                'c',
                't',
                'e',
                'd',
                '.',
            ],
    {
        let head = "No ";
        let tail = " selected.";
        proof {
            reveal_strlit("No ");
            reveal_strlit(" selected.");
        }
        let mut t = String::from_str(head);
        t.append(self.label.as_str());
        t.append(tail);
        t
    }

    /// The file name of the selected file, shown when hovering over its
    /// preview; `None` when nothing is selected or the path has no file name.
    pub fn display_name(&self) -> (n: Option<String>)
        ensures
            opt_view(n) == match self@.path {
                Some(p) => spec_path_file_name(p),
                None => None,
            },
    {
        match &self.path {
            Some(p) => path_file_name(p.as_str()),
            None => None,
        }
    }
}

} // verus!
