//! What cropping guarantees, proved from the definition of a crop.

use crate::raster::ImageView;
use vstd::prelude::*;

verus! {

/// The bounding box leaves no visible pixel outside.
pub proof fn lemma_box_contains_visible(
    source: ImageView,
    left: int,
    top: int,
    right: int,
    bottom: int,
    x: int,
    y: int,
)
    requires
        source.tight_box(left, top, right, bottom),
        source.inside(x, y),
        source.visible(x, y),
    ensures
        left <= x <= right,
        top <= y <= bottom,
{
    assert(source.row_visible(y));
    assert(top <= y <= bottom);
    assert(source.column_visible(x, top, bottom));
}

/// `cropped` shows `source` from `(left, top)` on and loses nothing visible:
/// it lies inside the source, each of its pixels is the source's pixel at
/// that offset, every visible pixel of the source has a place in it, and its
/// outer rows and columns each hold a visible pixel.
pub open spec fn shows_all_visible(
    source: ImageView,
    cropped: ImageView,
    left: int,
    top: int,
) -> bool {
    &&& cropped.width >= 1 && cropped.height >= 1
    &&& 0 <= left && left + cropped.width <= source.width
    &&& 0 <= top && top + cropped.height <= source.height
    &&& forall|x: int, y: int, c: int|
        cropped.inside(x, y) && 0 <= c < 4 ==> #[trigger] cropped.channel(x, y, c)
            == source.channel(left + x, top + y, c)
    &&& forall|x: int, y: int|
        source.inside(x, y) && #[trigger] source.visible(x, y) ==> cropped.inside(
            x - left,
            y - top,
        )
    &&& cropped.row_visible(0)
    &&& cropped.row_visible(cropped.height - 1)
    &&& cropped.column_visible(0, 0, cropped.height - 1)
    &&& cropped.column_visible(cropped.width - 1, 0, cropped.height - 1)
}

/// A pixel of a region is the source's pixel at the region's offset.
pub proof fn lemma_region_channel(
    source: ImageView,
    left: int,
    top: int,
    w: int,
    h: int,
    x: int,
    y: int,
    c: int,
)
    requires
        0 <= x < w,
        0 <= y < h,
        0 <= c < 4,
    ensures
        source.region(left, top, w, h).channel(x, y, c) == source.channel(left + x, top + y, c),
{
    let p = y * w + x;
    let i = p * 4 + c;
    assert(0 <= y * w && (y + 1) * w <= h * w && (y + 1) * w == y * w + w) by (nonlinear_arith)
        requires
            0 <= y < h,
            0 < w,
    ;
    assert(h * w * 4 == w * h * 4) by (nonlinear_arith);
    assert(0 <= i < w * h * 4);
    assert(i / 4 == p && i % 4 == c);
    vstd::arithmetic::div_mod::lemma_fundamental_div_mod_converse(p, w, y, x);
    assert(((top + y) * source.width + left + x) * 4 + c == ((top + y) * source.width + (left
        + x)) * 4 + c);
}

/// Cropping an image that has a visible pixel loses none: the crop is a
/// window of the source that holds every visible pixel, with a visible pixel
/// in each of its outer rows and columns.
pub proof fn lemma_crop_keeps_visible_pixels(source: ImageView, cropped: ImageView)
    requires
        source.wf(),
        source.has_visible(),
        cropped.is_crop_of(source),
    ensures
        exists|left: int, top: int| #[trigger] shows_all_visible(source, cropped, left, top),
{
    let (left, top) = choose|left: int, top: int|
        {
            &&& #[trigger] source.tight_box(
                left,
                top,
                left + cropped.width - 1,
                top + cropped.height - 1,
            )
            &&& cropped == source.region(left, top, cropped.width, cropped.height)
        };
    let w = cropped.width;
    let h = cropped.height;
    let right = left + w - 1;
    let bottom = top + h - 1;
    assert forall|x: int, y: int, c: int| cropped.inside(x, y) && 0 <= c < 4 implies #[trigger]
        cropped.channel(x, y, c) == source.channel(left + x, top + y, c) by {
        lemma_region_channel(source, left, top, w, h, x, y, c);
    }
    assert forall|x: int, y: int| source.inside(x, y) && #[trigger] source.visible(x, y) implies
        cropped.inside(x - left, y - top) by {
        lemma_box_contains_visible(source, left, top, right, bottom, x, y);
    }
    let xt = choose|x: int| 0 <= x < source.width && source.visible(x, top);
    lemma_box_contains_visible(source, left, top, right, bottom, xt, top);
    assert(cropped.visible(xt - left, 0)) by {
        lemma_region_channel(source, left, top, w, h, xt - left, 0, 3);
    }
    let xb = choose|x: int| 0 <= x < source.width && source.visible(x, bottom);
    lemma_box_contains_visible(source, left, top, right, bottom, xb, bottom);
    assert(cropped.visible(xb - left, h - 1)) by {
        lemma_region_channel(source, left, top, w, h, xb - left, h - 1, 3);
    }
    let yl = choose|y: int| top <= y <= bottom && source.visible(left, y);
    assert(cropped.visible(0, yl - top)) by {
        lemma_region_channel(source, left, top, w, h, 0, yl - top, 3);
    }
    let yr = choose|y: int| top <= y <= bottom && source.visible(right, y);
    assert(cropped.visible(w - 1, yr - top)) by {
        lemma_region_channel(source, left, top, w, h, w - 1, yr - top, 3);
    }
    assert(shows_all_visible(source, cropped, left, top));
}

/// An image has at most one bounding box of its visible pixels.
pub proof fn lemma_box_is_unique(
    source: ImageView,
    left: int,
    top: int,
    right: int,
    bottom: int,
    left2: int,
    top2: int,
    right2: int,
    bottom2: int,
)
    requires
        source.tight_box(left, top, right, bottom),
        source.tight_box(left2, top2, right2, bottom2),
    ensures
        left == left2,
        top == top2,
        right == right2,
        bottom == bottom2,
{
    assert(top == top2);
    assert(bottom == bottom2);
}

/// Cropping is a function: two crops of one image are equal.
pub proof fn lemma_crop_is_unique(source: ImageView, first: ImageView, second: ImageView)
    requires
        first.is_crop_of(source),
        second.is_crop_of(source),
    ensures
        first == second,
{
    if source.has_visible() {
        let (l1, t1) = choose|left: int, top: int|
            {
                &&& #[trigger] source.tight_box(
                    left,
                    top,
                    left + first.width - 1,
                    top + first.height - 1,
                )
                &&& first == source.region(left, top, first.width, first.height)
            };
        let (l2, t2) = choose|left: int, top: int|
            {
                &&& #[trigger] source.tight_box(
                    left,
                    top,
                    left + second.width - 1,
                    top + second.height - 1,
                )
                &&& second == source.region(left, top, second.width, second.height)
            };
        lemma_box_is_unique(
            source,
            l1,
            t1,
            l1 + first.width - 1,
            t1 + first.height - 1,
            l2,
            t2,
            l2 + second.width - 1,
            t2 + second.height - 1,
        );
    }
}

/// Cropping an image without a visible pixel gives the single transparent
/// pixel.
pub proof fn lemma_crop_of_transparent(source: ImageView, cropped: ImageView)
    requires
        source.wf(),
        forall|x: int, y: int| source.inside(x, y) ==> !source.visible(x, y),
        cropped.is_crop_of(source),
    ensures
        cropped == ImageView::blank(),
{
    if source.has_visible() {
        let y = choose|y: int| 0 <= y < source.height && source.row_visible(y);
        let x = choose|x: int| 0 <= x < source.width && source.visible(x, y);
        assert(source.inside(x, y));
    }
}

/// Cropping a non-empty image whose every pixel is visible gives the image
/// back, size and content.
pub proof fn lemma_crop_of_opaque(source: ImageView, cropped: ImageView)
    requires
        source.wf(),
        source.width >= 1,
        source.height >= 1,
        forall|x: int, y: int| source.inside(x, y) ==> source.visible(x, y),
        cropped.is_crop_of(source),
    ensures
        cropped == source,
{
    let w = source.width;
    let h = source.height;
    assert(source.inside(0, 0));
    assert(source.visible(0, 0));
    assert(source.row_visible(0));
    assert(source.has_visible());
    let (left, top) = choose|left: int, top: int|
        {
            &&& #[trigger] source.tight_box(
                left,
                top,
                left + cropped.width - 1,
                top + cropped.height - 1,
            )
            &&& cropped == source.region(left, top, cropped.width, cropped.height)
        };
    let right = left + cropped.width - 1;
    let bottom = top + cropped.height - 1;
    assert(source.inside(0, h - 1));
    assert(source.visible(0, h - 1));
    assert(source.row_visible(h - 1));
    assert(top == 0);
    assert(bottom == h - 1);
    assert(source.inside(0, top));
    assert(source.visible(0, top));
    assert(source.column_visible(0, top, bottom));
    assert(source.inside(w - 1, top));
    assert(source.visible(w - 1, top));
    assert(source.column_visible(w - 1, top, bottom));
    assert(left == 0);
    assert(right == w - 1);
    assert(cropped.width == w && cropped.height == h);
    assert forall|i: int| 0 <= i < w * h * 4 implies #[trigger] cropped.bytes[i]
        == source.bytes[i] by {
        let p = i / 4;
        vstd::arithmetic::div_mod::lemma_fundamental_div_mod(p, w);
        assert(((0 + p / w) * w + 0 + p % w) * 4 + i % 4 == i) by (nonlinear_arith)
            requires
                p == w * (p / w) + p % w,
                p == i / 4,
        ;
    }
    assert(cropped.bytes =~= source.bytes);
}

/// Cropping an image whose only visible pixel is at `(x, y)` gives a single
/// pixel of that pixel's colour.
pub proof fn lemma_crop_of_single_pixel(source: ImageView, cropped: ImageView, x: int, y: int)
    requires
        source.wf(),
        source.inside(x, y),
        source.visible(x, y),
        forall|i: int, j: int| source.inside(i, j) && source.visible(i, j) ==> i == x && j == y,
        cropped.is_crop_of(source),
    ensures
        cropped.width == 1,
        cropped.height == 1,
        cropped.bytes == seq![
            source.channel(x, y, 0),
            source.channel(x, y, 1),
            source.channel(x, y, 2),
            source.channel(x, y, 3),
        ],
{
    assert(source.row_visible(y));
    assert(source.has_visible());
    let (left, top) = choose|left: int, top: int|
        {
            &&& #[trigger] source.tight_box(
                left,
                top,
                left + cropped.width - 1,
                top + cropped.height - 1,
            )
            &&& cropped == source.region(left, top, cropped.width, cropped.height)
        };
    let right = left + cropped.width - 1;
    let bottom = top + cropped.height - 1;
    let xt = choose|i: int| 0 <= i < source.width && source.visible(i, top);
    assert(source.inside(xt, top));
    let xb = choose|i: int| 0 <= i < source.width && source.visible(i, bottom);
    assert(source.inside(xb, bottom));
    assert(top == y && bottom == y);
    let yl = choose|j: int| top <= j <= bottom && source.visible(left, j);
    assert(source.inside(left, yl));
    let yr = choose|j: int| top <= j <= bottom && source.visible(right, j);
    assert(source.inside(right, yr));
    assert(left == x && right == x);
    assert(cropped.width == 1 && cropped.height == 1);
    assert(cropped.width * cropped.height * 4 == 4) by (nonlinear_arith)
        requires
            cropped.width == 1,
            cropped.height == 1,
    ;
    assert(cropped.bytes.len() == 4);
    assert(cropped.bytes == crate::raster::region_bytes(source.bytes, source.width, x, y, 1, 1));
    assert forall|i: int| 0 <= i < 4 implies #[trigger] cropped.bytes[i] == source.channel(
        x,
        y,
        i,
    ) by {
        assert(i / 4 == 0 && i % 4 == i);
        assert(0int / 1 == 0 && 0int % 1 == 0);
        assert(((y + 0) * source.width + x + 0) * 4 + i == (y * source.width + x) * 4 + i);
    }
    assert(cropped.bytes =~= seq![
        source.channel(x, y, 0),
        source.channel(x, y, 1),
        source.channel(x, y, 2),
        source.channel(x, y, 3),
    ]);
}

} // verus!
