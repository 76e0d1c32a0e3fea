//! RGBA images and the cropping of their transparent borders.

use vstd::prelude::*;

verus! {

/// The mathematical content of an [`RgbaImage`]: its size and its bytes, four
/// per pixel, row by row.
pub struct ImageView {
    pub width: int,
    pub height: int,
    pub bytes: Seq<u8>,
}

impl ImageView {
    /// The buffer holds exactly `width * height` pixels.
    pub open spec fn wf(self) -> bool {
        &&& 0 <= self.width <= u32::MAX
        &&& 0 <= self.height <= u32::MAX
        &&& self.bytes.len() == self.width * self.height * 4
    }

    pub open spec fn inside(self, x: int, y: int) -> bool {
        0 <= x < self.width && 0 <= y < self.height
    }

    /// Channel `c` (0 red, 1 green, 2 blue, 3 alpha) of the pixel at `(x, y)`.
    pub open spec fn channel(self, x: int, y: int, c: int) -> u8 {
        self.bytes[(y * self.width + x) * 4 + c]
    }

    /// The pixel at `(x, y)` has a non-zero alpha channel.
    pub open spec fn visible(self, x: int, y: int) -> bool {
        self.channel(x, y, 3) != 0
    }

    /// Row `y` holds a visible pixel.
    pub open spec fn row_visible(self, y: int) -> bool {
        exists|x: int| 0 <= x < self.width && #[trigger] self.visible(x, y)
    }

    /// Column `x` holds a visible pixel in one of the rows `top ..= bottom`.
    pub open spec fn column_visible(self, x: int, top: int, bottom: int) -> bool {
        exists|y: int| top <= y <= bottom && #[trigger] self.visible(x, y)
    }

    /// Some pixel of the image is visible.
    pub open spec fn has_visible(self) -> bool {
        exists|y: int| 0 <= y < self.height && #[trigger] self.row_visible(y)
    }

    /// `left ..= right` by `top ..= bottom` is the bounding box of the visible
    /// pixels: its outer rows and columns each hold one, and none lies beyond.
    pub open spec fn tight_box(self, left: int, top: int, right: int, bottom: int) -> bool {
        &&& 0 <= left <= right < self.width
        &&& 0 <= top <= bottom < self.height
        &&& self.row_visible(top)
        &&& self.row_visible(bottom)
        &&& forall|y: int| 0 <= y < top ==> !#[trigger] self.row_visible(y)
        &&& forall|y: int| bottom < y < self.height ==> !#[trigger] self.row_visible(y)
        &&& self.column_visible(left, top, bottom)
        &&& self.column_visible(right, top, bottom)
        &&& forall|x: int| 0 <= x < left ==> !#[trigger] self.column_visible(x, top, bottom)
        &&& forall|x: int|
            right < x < self.width ==> !#[trigger] self.column_visible(x, top, bottom)
    }

    /// The `w` by `h` sub-image whose top left corner is `(left, top)`.
    pub open spec fn region(self, left: int, top: int, w: int, h: int) -> ImageView {
        ImageView {
            width: w,
            height: h,
            bytes: region_bytes(self.bytes, self.width, left, top, w, h),
        }
    }

    /// The single fully transparent pixel that stands for "nothing visible".
    pub open spec fn blank() -> ImageView {
        ImageView { width: 1, height: 1, bytes: seq![0u8, 0u8, 0u8, 0u8] }
    }

    /// `self` is what cropping the transparent borders of `source` gives.
    pub open spec fn is_crop_of(self, source: ImageView) -> bool {
        &&& self.wf()
        &&& !source.has_visible() ==> self == ImageView::blank()
        &&& source.has_visible() ==> exists|left: int, top: int|
            {
                &&& #[trigger] source.tight_box(
                    left,
                    top,
                    left + self.width - 1,
                    top + self.height - 1,
                )
                &&& self == source.region(left, top, self.width, self.height)
            }
    }
}

/// The bytes of the `w` by `h` region at `(left, top)` of a buffer that is
/// `width` pixels wide.
pub open spec fn region_bytes(
    bytes: Seq<u8>,
    width: int,
    left: int,
    top: int,
    w: int,
    h: int,
) -> Seq<u8> {
    Seq::new(
        (w * h * 4) as nat,
        |i: int| bytes[((top + (i / 4) / w) * width + left + (i / 4) % w) * 4 + i % 4],
    )
}

/// An image of four-byte RGBA pixels, stored row by row.
#[derive(Debug)]
pub struct RgbaImage {
    width: u32,
    height: u32,
    data: Vec<u8>,
}

impl View for RgbaImage {
    type V = ImageView;

    closed spec fn view(&self) -> ImageView {
        ImageView { width: self.width as int, height: self.height as int, bytes: self.data@ }
    }
}

proof fn lemma_offset_in_bounds(x: int, y: int, width: int, height: int)
    requires
        0 <= x < width,
        0 <= y < height,
    ensures
        0 <= y * width <= y * width + x,
        (y * width + x) * 4 + 4 <= width * height * 4,
{
    assert(y * width >= 0) by (nonlinear_arith)
        requires
            y >= 0,
            width >= 0,
    ;
    assert((y + 1) * width <= height * width) by (nonlinear_arith)
        requires
            y + 1 <= height,
            width >= 0,
    ;
    assert((y + 1) * width == y * width + width) by (nonlinear_arith);
    assert(height * width == width * height) by (nonlinear_arith);
}

/// Copies a rectangle out of a pixel buffer with `image`'s
/// `GenericImageView::view` and `SubImage::to_image`, on a copy of the buffer
/// that `ImageBuffer::from_raw` takes and `ImageBuffer::into_raw` gives back:
/// the result holds, row by row, the pixels of the source at `(x + i, y + j)`
/// for `i < w`, `j < h`.
#[verifier::external_body]
fn copy_region(width: u32, height: u32, data: &Vec<u8>, x: u32, y: u32, w: u32, h: u32) -> (out:
    Vec<u8>)
    requires
        data@.len() == width * height * 4,
        x + w <= width,
        y + h <= height,
    ensures
        out@ == region_bytes(data@, width as int, x as int, y as int, w as int, h as int),
{
    let source: image::RgbaImage = image::ImageBuffer::from_raw(width, height, data.clone()).unwrap();
    image::GenericImageView::view(&source, x, y, w, h).to_image().into_raw()
}

impl RgbaImage {
    /// The type's invariant: the buffer holds exactly `width * height` pixels.
    pub closed spec fn wf(&self) -> bool {
        self.data@.len() == self.width * self.height * 4
    }

    /// An image over `data`, if `data` holds exactly `width * height` pixels.
    pub fn from_raw(width: u32, height: u32, data: Vec<u8>) -> (res: Option<RgbaImage>)
        ensures
            res.is_some() <==> data@.len() == width * height * 4,
            res.is_some() ==> res.unwrap().wf() && res.unwrap()@ == (ImageView {
                width: width as int,
                height: height as int,
                bytes: data@,
            }),
    {
        assert(0 <= (width as int) * (height as int) <= 0xffff_ffff * 0xffff_ffff)
            by (nonlinear_arith)
            requires
                0 <= width <= 0xffff_ffff,
                0 <= height <= 0xffff_ffff,
        ;
        let needed: u128 = (width as u128) * (height as u128) * 4;
        if data.len() as u128 == needed {
            Some(RgbaImage { width, height, data })
        } else {
            None
        }
    }

    /// A fully transparent black image.
    pub fn new(width: u32, height: u32) -> (res: RgbaImage)
        requires
            width * height * 4 <= usize::MAX,
        ensures
            res.wf(),
            res@.width == width,
            res@.height == height,
            res@.bytes == Seq::new((width * height * 4) as nat, |i: int| 0u8),
    {
        assert(0 <= (width as int) * (height as int)) by (nonlinear_arith)
            requires
                0 <= width,
                0 <= height,
        ;
        let total: usize = (width as usize) * (height as usize) * 4;
        let mut data: Vec<u8> = Vec::new();
        let mut i: usize = 0;
        while i < total
            invariant
                i <= total,
                data@.len() == i,
                forall|j: int| 0 <= j < i ==> data@[j] == 0u8,
            decreases total - i,
        {
            data.push(0u8);
            i += 1;
        }
        assert(data@ =~= Seq::new((width * height * 4) as nat, |i: int| 0u8));
        RgbaImage { width, height, data }
    }

    pub fn width(&self) -> (w: u32)
        ensures
            w == self@.width,
    {
        self.width
    }

    pub fn height(&self) -> (h: u32)
        ensures
            h == self@.height,
    {
        self.height
    }

    /// The bytes of the image, four per pixel, row by row.
    pub fn as_raw(&self) -> (bytes: &Vec<u8>)
        ensures
            bytes@ == self@.bytes,
    {
        &self.data
    }

    /// Well-formedness seen through the view.
    pub proof fn lemma_wf_view(&self)
        ensures
            self.wf() <==> self@.wf(),
    {
    }

    /// The four channels of the pixel at `(x, y)`.
    pub fn get_pixel(&self, x: u32, y: u32) -> (pixel: [u8; 4])
        requires
            self.wf(),
            x < self@.width,
            y < self@.height,
        ensures
            forall|c: int| 0 <= c < 4 ==> pixel[c] == self@.channel(x as int, y as int, c),
    {
        proof {
            lemma_offset_in_bounds(x as int, y as int, self.width as int, self.height as int);
        }
        let len: usize = self.data.len();
        assert((y * self.width + x) * 4 + 4 <= len);
        let base: usize = ((y as usize) * (self.width as usize) + (x as usize)) * 4;
        [self.data[base], self.data[base + 1], self.data[base + 2], self.data[base + 3]]
    }

    fn alpha_at(&self, x: u32, y: u32) -> (alpha: u8)
        requires
            self.wf(),
            x < self@.width,
            y < self@.height,
        ensures
            alpha == self@.channel(x as int, y as int, 3),
    {
        proof {
            lemma_offset_in_bounds(x as int, y as int, self.width as int, self.height as int);
        }
        let len: usize = self.data.len();
        assert((y * self.width + x) * 4 + 4 <= len);
        let base: usize = ((y as usize) * (self.width as usize) + (x as usize)) * 4;
        self.data[base + 3]
    }

    /// Whether row `y` holds a visible pixel; stops at the first one.
    fn scan_row(&self, y: u32) -> (found: bool)
        requires
            self.wf(),
            y < self@.height,
        ensures
            found == self@.row_visible(y as int),
    {
        let mut x: u32 = 0;
        while x < self.width
            invariant
                self.wf(),
                y < self@.height,
                x <= self.width,
                forall|k: int| 0 <= k < x ==> !#[trigger] self@.visible(k, y as int),
            decreases self.width - x,
        {
            if self.alpha_at(x, y) != 0 {
                assert(self@.visible(x as int, y as int));
                return true;
            }
            x += 1;
        }
        false
    }

    /// Whether column `x` holds a visible pixel in the rows `top ..= bottom`;
    /// stops at the first one.
    fn scan_column(&self, x: u32, top: u32, bottom: u32) -> (found: bool)
        requires
            self.wf(),
            x < self@.width,
            top <= bottom < self@.height,
        ensures
            found == self@.column_visible(x as int, top as int, bottom as int),
    {
        let mut y: u32 = top;
        while y <= bottom
            invariant
                self.wf(),
                x < self@.width,
                top <= y <= bottom + 1,
                bottom < self@.height,
                forall|k: int| top <= k < y ==> !#[trigger] self@.visible(x as int, k),
            decreases bottom + 1 - y,
        {
            if self.alpha_at(x, y) != 0 {
                assert(self@.visible(x as int, y as int));
                return true;
            }
            y += 1;
        }
        false
    }

    /// The first row from the top that holds a visible pixel.
    fn first_visible_row(&self) -> (res: Option<u32>)
        requires
            self.wf(),
        ensures
            res.is_some() <==> self@.has_visible(),
            res.is_some() ==> res.unwrap() < self@.height && self@.row_visible(res.unwrap() as int)
                && forall|y: int| 0 <= y < res.unwrap() ==> !#[trigger] self@.row_visible(y),
    {
        let mut y: u32 = 0;
        while y < self.height
            invariant
                self.wf(),
                y <= self.height,
                forall|k: int| 0 <= k < y ==> !#[trigger] self@.row_visible(k),
            decreases self.height - y,
        {
            if self.scan_row(y) {
                return Some(y);
            }
            y += 1;
        }
        None
    }

    /// The last row that holds a visible pixel, searched upwards from the
    /// bottom and no further than `top`.
    fn last_visible_row(&self, top: u32) -> (bottom: u32)
        requires
            self.wf(),
            top < self@.height,
            self@.row_visible(top as int),
        ensures
            top <= bottom < self@.height,
            self@.row_visible(bottom as int),
            forall|y: int| bottom < y < self@.height ==> !#[trigger] self@.row_visible(y),
    {
        let mut y: u32 = self.height - 1;
        while y > top
            invariant
                self.wf(),
                top <= y < self.height,
                forall|k: int| y < k < self.height ==> !#[trigger] self@.row_visible(k),
            decreases y,
        {
            if self.scan_row(y) {
                return y;
            }
            y -= 1;
        }
        y
    }

    /// The first column from the left that holds a visible pixel in the rows
    /// `top ..= bottom`.
    fn first_visible_column(&self, top: u32, bottom: u32) -> (left: u32)
        requires
            self.wf(),
            top <= bottom < self@.height,
            self@.row_visible(top as int),
        ensures
            left < self@.width,
            self@.column_visible(left as int, top as int, bottom as int),
            forall|x: int|
                0 <= x < left ==> !#[trigger] self@.column_visible(x, top as int, bottom as int),
    {
        let ghost hit: int = choose|x: int| 0 <= x < self@.width && self@.visible(x, top as int);
        assert(self@.column_visible(hit, top as int, bottom as int));
        let mut x: u32 = 0;
        while !self.scan_column(x, top, bottom)
            invariant
                self.wf(),
                top <= bottom < self@.height,
                0 <= x <= hit < self.width,
                self@.column_visible(hit, top as int, bottom as int),
                forall|k: int|
                    0 <= k < x ==> !#[trigger] self@.column_visible(k, top as int, bottom as int),
            decreases hit - x,
        {
            x += 1;
        }
        x
    }

    /// The last column that holds a visible pixel in the rows `top ..= bottom`,
    /// searched from the right and no further than `left`.
    fn last_visible_column(&self, left: u32, top: u32, bottom: u32) -> (right: u32)
        requires
            self.wf(),
            left < self@.width,
            top <= bottom < self@.height,
            self@.column_visible(left as int, top as int, bottom as int),
        ensures
            left <= right < self@.width,
            self@.column_visible(right as int, top as int, bottom as int),
            forall|x: int|
                right < x < self@.width ==> !#[trigger] self@.column_visible(
                    x,
                    top as int,
                    bottom as int,
                ),
    {
        let mut x: u32 = self.width - 1;
        while x > left
            invariant
                self.wf(),
                top <= bottom < self@.height,
                left <= x < self.width,
                forall|k: int|
                    x < k < self.width ==> !#[trigger] self@.column_visible(
                        k,
                        top as int,
                        bottom as int,
                    ),
            decreases x,
        {
            if self.scan_column(x, top, bottom) {
                return x;
            }
            x -= 1;
        }
        x
    }
}

/// Crops an image to the bounding box of its visible pixels, those whose alpha
/// channel is not zero. An image without a visible pixel gives a single
/// transparent pixel.
pub fn crop_transparent_borders(rgba_image: &RgbaImage) -> (cropped: RgbaImage)
    requires
        rgba_image.wf(),
    ensures
        cropped.wf(),
        cropped@.is_crop_of(rgba_image@),
{
    let top: u32 = match rgba_image.first_visible_row() {
        Some(top) => top,
        None => {
            let blank = RgbaImage::new(1, 1);
            assert(blank@.bytes =~= ImageView::blank().bytes);
            return blank;
        },
    };
    let bottom: u32 = rgba_image.last_visible_row(top);
    let left: u32 = rgba_image.first_visible_column(top, bottom);
    let right: u32 = rgba_image.last_visible_column(left, top, bottom);
    let w: u32 = right - left + 1;
    let h: u32 = bottom - top + 1;
    let data: Vec<u8> = copy_region(
        rgba_image.width,
        rgba_image.height,
        &rgba_image.data,
        left,
        top,
        w,
        h,
    );
    let cropped = RgbaImage { width: w, height: h, data };
    proof {
        assert(rgba_image@.tight_box(
            left as int,
            top as int,
            left + cropped@.width - 1,
            top + cropped@.height - 1,
        ));
        assert(cropped@ == rgba_image@.region(
            left as int,
            top as int,
            cropped@.width,
            cropped@.height,
        ));
    }
    cropped
}

} // verus!
