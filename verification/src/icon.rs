//! The tray icon: reading an ICO file, choosing its largest image, and
//! decoding that image to RGBA pixels.

use vstd::prelude::*;

verus! {

/// `ico::IconDir`, the images of an ICO file; opaque here.
#[verifier::external_type_specification]
#[verifier::external_body]
pub struct ExIconDir(ico::IconDir);

/// `std::io::Error`, the error that the `ico` crate reports; opaque here.
#[verifier::external_type_specification]
#[verifier::external_body]
pub struct ExIoError(std::io::Error);

/// What an `ico::IconDir` holds: for each image in file order its width, its
/// height and its encoded data, as the entry's `width()`, `height()` and
/// `data()` give them.
pub uninterp spec fn icon_dir_entries(dir: ico::IconDir) -> Seq<(u32, u32, Seq<u8>)>;

/// What `ico::IconDir::read` makes of the bytes of an ICO file: the entries
/// of the file, or `None` where it reports an error.
pub uninterp spec fn spec_read_icon_dir(file: Seq<u8>) -> Option<Seq<(u32, u32, Seq<u8>)>>;

/// What `ico::IconDirEntry::decode` makes of an entry with the given width,
/// height and data: its RGBA pixels, width and height, or `None` where it
/// reports an error.
pub uninterp spec fn spec_decode_entry(width: u32, height: u32, data: Seq<u8>) -> Option<
    (Seq<u8>, u32, u32),
>;

/// Calls `ico::IconDir::read` on the bytes of an ICO file. It succeeds
/// exactly when `spec_read_icon_dir` has entries for the bytes, and the
/// directory read then holds those entries. It allocates each entry's data
/// at the size that the file declares, at most `u32::MAX` bytes, before
/// reading it; that allocation cannot exceed `isize::MAX` on the 64-bit
/// targets that the program is built for.
#[verifier::external_body]
fn read_icon_dir(file: &[u8]) -> (r: Result<ico::IconDir, std::io::Error>)
    ensures
        r is Ok <==> spec_read_icon_dir(file@) is Some,
        r matches Ok(dir) ==> spec_read_icon_dir(file@) == Some(icon_dir_entries(dir)),
{
    ico::IconDir::read(std::io::Cursor::new(file))
}

/// Calls `ico::IconDir::entries` and hands out the width and height of each
/// entry, in order.
#[verifier::external_body]
fn icon_entry_sizes(dir: &ico::IconDir) -> (r: Vec<(u32, u32)>)
    ensures
        r@ == icon_dir_entries(*dir).map_values(|e: (u32, u32, Seq<u8>)| (e.0, e.1)),
{
    dir.entries().iter().map(|e| (e.width(), e.height())).collect()
}

/// The sizes that `ico::IconDirEntry::decode` handles without an arithmetic
/// overflow. Its BMP reader computes in `u32` the number of pixels
/// `width * height`, a row's bits `width * bits_per_pixel + 7` with at most
/// 32 bits per pixel, and the offset of the last row
/// `4 * (height - 1) * width`; the byte offsets within a row and the buffer
/// length it computes as `usize`, which cannot overflow on the 64-bit
/// targets that the program is built for. An entry's width and height are those of
/// its image data wherever the data can be read at all, since
/// `ico::IconDir::read` takes them from the data.
pub open spec fn spec_decodable_size(width: u32, height: u32) -> bool {
    &&& width < 0x800_0000
    &&& width * height <= u32::MAX
    &&& height >= 1 ==> 4 * (height - 1) <= u32::MAX && 4 * (height - 1) * width <= u32::MAX
}

/// Calls `ico::IconDirEntry::decode` on the entry at `index` and hands out
/// the image's RGBA pixels, width and height. The call is made only for
/// sizes that `spec_decodable_size` admits; on larger ones the crate's BMP
/// reader overflows. It fails exactly where
/// `spec_decode_entry` gives `None`; as the crate's source shows, a decoded
/// image whose size differs from the entry's is reported as an error, so a
/// success has the entry's width and height.
#[verifier::external_body]
fn decode_icon_entry(dir: &ico::IconDir, index: usize) -> (r: Result<(Vec<u8>, u32, u32), std::io::Error>)
    requires
        index < icon_dir_entries(*dir).len(),
        spec_decodable_size(icon_dir_entries(*dir)[index as int].0, icon_dir_entries(*dir)[index as int].1),
    ensures
        ({
            let e = icon_dir_entries(*dir)[index as int];
            match r {
                Ok((rgba, w, h)) => {
                    &&& spec_decode_entry(e.0, e.1, e.2) == Some((rgba@, w, h))
                    &&& w == e.0
                    &&& h == e.1
                },
                Err(_) => spec_decode_entry(e.0, e.1, e.2) is None,
            }
        }),
{
    match dir.entries()[index].decode() {
        Ok(image) => Ok((image.rgba_data().to_vec(), image.width(), image.height())),
        Err(e) => Err(e),
    }
}

/// The area of an image of the given size.
pub open spec fn spec_area(size: (u32, u32)) -> int {
    size.0 * size.1
}

/// Every area fits in a `u32`, the type in which the areas are compared.
pub open spec fn spec_areas_fit(sizes: Seq<(u32, u32)>) -> bool {
    forall|j: int| 0 <= j < sizes.len() ==> spec_area(#[trigger] sizes[j]) <= u32::MAX
}

/// Tells whether the area of every image fits in a `u32`.
pub fn areas_fit(sizes: &[(u32, u32)]) -> (r: bool)
    ensures
        r == spec_areas_fit(sizes@),
{
    let mut k: usize = 0;
    while k < sizes.len()
        invariant
            k <= sizes@.len(),
            forall|j: int| 0 <= j < k ==> spec_area(#[trigger] sizes@[j]) <= u32::MAX,
        decreases sizes@.len() - k,
    {
        let (w, h) = sizes[k];
        assert(w as u64 * h as u64 <= u64::MAX) by (nonlinear_arith);
        if w as u64 * h as u64 > u32::MAX as u64 {
            assert(spec_area(sizes@[k as int]) > u32::MAX);
            return false;
        }
        k = k + 1;
    }
    true
}

/// Tells whether an image of the given size can be decoded without
/// overflow.
pub fn decodable_size(width: u32, height: u32) -> (r: bool)
    ensures
        r == spec_decodable_size(width, height),
{
    if width >= 0x800_0000 {
        return false;
    }
    let w = width as u64;
    let h = height as u64;
    assert(w * h <= 0x800_0000 * 0xffff_ffff) by (nonlinear_arith)
        requires
            w < 0x800_0000,
            h <= 0xffff_ffff,
    ;
    if w * h > u32::MAX as u64 {
        return false;
    }
    if h == 0 {
        return true;
    }
    let rows_before_last = 4 * (h - 1);
    assert(rows_before_last * w <= 4 * 0xffff_ffff * 0x800_0000) by (nonlinear_arith)
        requires
            w < 0x800_0000,
            rows_before_last <= 4 * 0xffff_ffff,
    ;
    rows_before_last <= u32::MAX as u64 && rows_before_last * w <= u32::MAX as u64
}

/// `i` is the last of the images of largest area.
pub open spec fn spec_is_last_largest(sizes: Seq<(u32, u32)>, i: int) -> bool {
    &&& 0 <= i < sizes.len()
    &&& forall|j: int| 0 <= j < sizes.len() ==> spec_area(#[trigger] sizes[j]) <= spec_area(sizes[i])
    &&& forall|j: int| i < j < sizes.len() ==> spec_area(#[trigger] sizes[j]) < spec_area(sizes[i])
}

/// Returns the index of the image of largest area, the last one where
/// several share it; `None` where there is no image.
pub fn largest_entry(sizes: &[(u32, u32)]) -> (r: Option<usize>)
    requires
        spec_areas_fit(sizes@),
    ensures
        r is None <==> sizes@.len() == 0,
        r matches Some(i) ==> spec_is_last_largest(sizes@, i as int),
{
    if sizes.len() == 0 {
        return None;
    }
    let mut best: usize = 0;
    let mut best_area: u32 = sizes[0].0 * sizes[0].1;
    let mut i: usize = 1;
    while i < sizes.len()
        invariant
            spec_areas_fit(sizes@),
            0 <= best < i <= sizes@.len(),
            best_area == spec_area(sizes@[best as int]),
            forall|j: int| 0 <= j < i ==> spec_area(#[trigger] sizes@[j]) <= best_area,
            forall|j: int| best < j < i ==> spec_area(#[trigger] sizes@[j]) < best_area,
        decreases sizes@.len() - i,
    {
        assert(spec_area(sizes@[i as int]) <= u32::MAX);
        let area: u32 = sizes[i].0 * sizes[i].1;
        if area >= best_area {
            best = i;
            best_area = area;
        }
        i = i + 1;
    }
    Some(best)
}

/// The last image of largest area is one image: no two indexes are both.
pub proof fn lemma_last_largest_unique(sizes: Seq<(u32, u32)>, i: int, k: int)
    requires
        spec_is_last_largest(sizes, i),
        spec_is_last_largest(sizes, k),
    ensures
        i == k,
{
    if i < k {
        assert(spec_area(sizes[k]) < spec_area(sizes[i]));
        assert(spec_area(sizes[k]) >= spec_area(sizes[i]));
    } else if k < i {
        assert(spec_area(sizes[i]) < spec_area(sizes[k]));
        assert(spec_area(sizes[i]) >= spec_area(sizes[k]));
    }
}

/// The pixels of the chosen icon image.
#[derive(Debug)]
pub struct IconRgba {
    /// Four bytes per pixel, red, green, blue and alpha, row by row.
    pub rgba: Vec<u8>,
    pub width: u32,
    pub height: u32,
}

/// Why no icon could be had from an ICO file.
#[derive(Debug)]
pub enum IconError {
    /// The file is not a well-formed ICO file.
    Read(std::io::Error),
    /// The file holds no image.
    NoEntries,
    /// The area of an image does not fit in a `u32`, in which the areas are
    /// compared.
    AreaOverflow,
    /// The largest image is too large to be decoded without overflow.
    ImageTooLarge,
    /// The largest image cannot be decoded.
    Decode(std::io::Error),
}

/// The width and height of each entry.
pub open spec fn spec_sizes(entries: Seq<(u32, u32, Seq<u8>)>) -> Seq<(u32, u32)> {
    entries.map_values(|e: (u32, u32, Seq<u8>)| (e.0, e.1))
}

/// Reads the ICO file `file`, picks its image of largest area (the last one
/// where several share it) and decodes it.
pub fn load_icon_file(file: &[u8]) -> (r: Result<IconRgba, IconError>)
    ensures
        match spec_read_icon_dir(file@) {
            None => r matches Err(IconError::Read(_)),
            Some(entries) => if entries.len() == 0 {
                r matches Err(IconError::NoEntries)
            } else if !spec_areas_fit(spec_sizes(entries)) {
                r matches Err(IconError::AreaOverflow)
            } else {
                exists|i: int|
                    #![trigger entries[i]]
                    spec_is_last_largest(spec_sizes(entries), i) && {
                        let e = entries[i];
                        if !spec_decodable_size(e.0, e.1) {
                            r matches Err(IconError::ImageTooLarge)
                        } else {
                        match r {
                            Ok(icon) => spec_decode_entry(e.0, e.1, e.2) == Some(
                                (icon.rgba@, icon.width, icon.height),
                            ),
                            Err(IconError::Decode(_)) => spec_decode_entry(e.0, e.1, e.2) is None,
                            Err(_) => false,
                        }
                        }
                    }
            },
        },
{
    let dir = match read_icon_dir(file) {
        Ok(dir) => dir,
        Err(e) => return Err(IconError::Read(e)),
    };
    let sizes = icon_entry_sizes(&dir);
    let ghost entries = icon_dir_entries(dir);
    assert(sizes@ == spec_sizes(entries));
    if sizes.len() == 0 {
        return Err(IconError::NoEntries);
    }
    if !areas_fit(sizes.as_slice()) {
        return Err(IconError::AreaOverflow);
    }
    let index = match largest_entry(sizes.as_slice()) {
        Some(i) => i,
        None => return Err(IconError::NoEntries),
    };
    let ghost e = entries[index as int];
    let (width, height) = sizes[index];
    if !decodable_size(width, height) {
        assert(spec_is_last_largest(spec_sizes(entries), index as int) && entries[index as int] == e);
        return Err(IconError::ImageTooLarge);
    }
    match decode_icon_entry(&dir, index) {
        Ok((rgba, width, height)) => {
            let icon = IconRgba { rgba, width, height };
            assert(spec_is_last_largest(spec_sizes(entries), index as int) && entries[index as int] == e);
            Ok(icon)
        },
        Err(err) => Err(IconError::Decode(err)),
    }
}

} // verus!
