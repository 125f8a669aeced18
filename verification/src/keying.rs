use vstd::prelude::*;
use crate::color::Rgba;
use crate::image::Image;

verus! {

/// Number of alpha-zero pixels among the first `upto` pixels of row `y`.
pub open spec fn row_transparent_count(img: Image, y: int, upto: int) -> int
    decreases upto,
{
    if upto <= 0 {
        0
    } else {
        row_transparent_count(img, y, upto - 1) + if img.spec_pixel(upto - 1, y).a == 0 {
            1int
        } else {
            0int
        }
    }
}

/// The five sampled row positions: top, quarter, half, three-quarter, bottom.
pub open spec fn sampled_rows(height: int) -> Seq<int> {
    seq![0, height / 4, height / 2, 3 * height / 4, height - 1]
}

/// Alpha-zero pixels collected over the first `k` sampled rows, whole rows,
/// rows counted once per occurrence in the sample list.
pub open spec fn sampled_transparent_count(img: Image, k: int) -> int
    decreases k,
{
    if k <= 0 {
        0
    } else {
        sampled_transparent_count(img, k - 1) + row_transparent_count(
            img,
            sampled_rows(img.height as int)[k - 1],
            img.width as int,
        )
    }
}

/// The heuristic's cutoff: a fifth of twice the width, rounded down.
pub open spec fn keying_threshold(width: int) -> int {
    2 * width / 5
}

/// A non-degenerate image is judged "significantly transparent" when its five
/// sampled rows collectively hold at least `keying_threshold` alpha-zero
/// pixels. Degenerate images (zero width or height) are never keyed.
pub open spec fn spec_should_key(img: Image) -> bool {
    &&& img.width > 0
    &&& img.height > 0
    &&& sampled_transparent_count(img, 5) >= keying_threshold(img.width as int)
}

proof fn lemma_row_count_nonneg(img: Image, y: int, upto: int)
    ensures
        row_transparent_count(img, y, upto) >= 0,
    decreases upto,
{
    if upto > 0 {
        lemma_row_count_nonneg(img, y, upto - 1);
    }
}

proof fn lemma_row_count_mono(img: Image, y: int, a: int, b: int)
    requires
        a <= b,
    ensures
        row_transparent_count(img, y, a) <= row_transparent_count(img, y, b),
    decreases b - a,
{
    if a < b {
        lemma_row_count_mono(img, y, a, b - 1);
    }
}

proof fn lemma_sampled_count_mono(img: Image, a: int, b: int)
    requires
        a <= b,
    ensures
        sampled_transparent_count(img, a) <= sampled_transparent_count(img, b),
    decreases b - a,
{
    if a < b {
        lemma_sampled_count_mono(img, a, b - 1);
        lemma_row_count_nonneg(img, sampled_rows(img.height as int)[b - 1], img.width as int);
    }
}

/// A running count over sampled row `k` up to column `x` never exceeds the
/// full five-row total.
proof fn lemma_partial_le_total(img: Image, k: int, x: int)
    requires
        0 <= k < 5,
        0 <= x <= img.width,
    ensures
        sampled_transparent_count(img, k) + row_transparent_count(
            img,
            sampled_rows(img.height as int)[k],
            x,
        ) <= sampled_transparent_count(img, 5),
{
    lemma_row_count_mono(img, sampled_rows(img.height as int)[k], x, img.width as int);
    assert(sampled_transparent_count(img, k + 1) == sampled_transparent_count(img, k)
        + row_transparent_count(img, sampled_rows(img.height as int)[k], img.width as int));
    lemma_sampled_count_mono(img, k + 1, 5);
}

proof fn lemma_dims_fit(img: Image)
    requires
        img.wf(),
        img.width >= 1,
        img.height >= 1,
    ensures
        4 * img.width <= img.data@.len(),
        4 * img.height <= img.data@.len(),
        img.data@.len() <= usize::MAX,
{
    assert(img.data.len() == img.data@.len());
    assert(4 * img.width <= img.width * img.height * 4 && 4 * img.height <= img.width
        * img.height * 4) by (nonlinear_arith)
        requires
            img.width >= 1,
            img.height >= 1,
    ;
}

/// Decides whether the image needs color keying: scan the five sampled rows
/// left to right and report whether the running count of alpha-zero pixels
/// ever reaches the threshold.
pub fn should_key_image(img: &Image) -> (r: bool)
    requires
        img.wf(),
    ensures
        r == spec_should_key(*img),
{
    let w = img.width;
    let h = img.height;
    if w == 0 || h == 0 {
        return false;
    }
    proof {
        lemma_dims_fit(*img);
    }
    let threshold: usize = 2 * w / 5;
    if threshold == 0 {
        proof {
            lemma_sampled_count_mono(*img, 0, 5);
        }
        return true;
    }
    let mut num: usize = 0;
    let mut k: usize = 0;
    while k < 5
        invariant
            img.wf(),
            w == img.width,
            h == img.height,
            w >= 1,
            h >= 1,
            threshold == keying_threshold(w as int),
            1 <= threshold <= w,
            k <= 5,
            num == sampled_transparent_count(*img, k as int),
            num < threshold,
        decreases 5 - k,
    {
        proof {
            lemma_dims_fit(*img);
        }
        let y: usize = if k == 0 {
            0
        } else if k == 1 {
            h / 4
        } else if k == 2 {
            h / 2
        } else if k == 3 {
            3 * h / 4
        } else {
            h - 1
        };
        proof {
            assert(y as int == sampled_rows(h as int)[k as int]);
            assert(y < h);
        }
        let mut x: usize = 0;
        while x < w
            invariant
                img.wf(),
                w == img.width,
                h == img.height,
                w >= 1,
                h >= 1,
                threshold == keying_threshold(w as int),
                1 <= threshold <= w,
                k < 5,
                x <= w,
                y < h,
                y as int == sampled_rows(h as int)[k as int],
                num == sampled_transparent_count(*img, k as int) + row_transparent_count(
                    *img,
                    y as int,
                    x as int,
                ),
                num < threshold,
            decreases w - x,
        {
            if img.get_pixel(x, y).a == 0 {
                num = num + 1;
            }
            if num >= threshold {
                proof {
                    lemma_partial_le_total(*img, k as int, x as int + 1);
                }
                return true;
            }
            x += 1;
        }
        k += 1;
    }
    false
}

/// The fixed priority list of sentinel candidates, red deliberately last.
pub open spec fn candidate(i: int) -> Rgba {
    if i == 0 {
        Rgba { r: 0, g: 255, b: 255, a: 255 }
    } else if i == 1 {
        Rgba { r: 255, g: 0, b: 255, a: 255 }
    } else if i == 2 {
        Rgba { r: 0, g: 255, b: 0, a: 255 }
    } else if i == 3 {
        Rgba { r: 0, g: 0, b: 255, a: 255 }
    } else if i == 4 {
        Rgba { r: 255, g: 255, b: 0, a: 255 }
    } else if i == 5 {
        Rgba { r: 128, g: 128, b: 128, a: 255 }
    } else {
        Rgba { r: 255, g: 0, b: 0, a: 255 }
    }
}

fn candidate_at(i: usize) -> (c: Rgba)
    requires
        i < 7,
    ensures
        c == candidate(i as int),
{
    if i == 0 {
        Rgba::opaque(0, 255, 255)
    } else if i == 1 {
        Rgba::opaque(255, 0, 255)
    } else if i == 2 {
        Rgba::opaque(0, 255, 0)
    } else if i == 3 {
        Rgba::opaque(0, 0, 255)
    } else if i == 4 {
        Rgba::opaque(255, 255, 0)
    } else if i == 5 {
        Rgba::opaque(128, 128, 128)
    } else {
        Rgba::opaque(255, 0, 0)
    }
}

/// Some pixel of the image matches `color` on red, green and blue.
pub open spec fn spec_color_exists(img: Image, color: Rgba) -> bool {
    exists|x: int, y: int|
        0 <= x < img.width && 0 <= y < img.height && (#[trigger] img.spec_pixel(
            x,
            y,
        )).spec_same_rgb(color)
}

/// Whole-image scan for a color, comparing red, green and blue only.
pub fn color_exists_in_image(img: &Image, color: Rgba) -> (r: bool)
    requires
        img.wf(),
    ensures
        r == spec_color_exists(*img, color),
{
    let mut y: usize = 0;
    while y < img.height
        invariant
            img.wf(),
            y <= img.height,
            forall|xx: int, yy: int|
                0 <= xx < img.width && 0 <= yy < y ==> !(#[trigger] img.spec_pixel(
                    xx,
                    yy,
                )).spec_same_rgb(color),
        decreases img.height - y,
    {
        let mut x: usize = 0;
        while x < img.width
            invariant
                img.wf(),
                y < img.height,
                x <= img.width,
                forall|xx: int, yy: int|
                    0 <= xx < img.width && 0 <= yy < y ==> !(#[trigger] img.spec_pixel(
                        xx,
                        yy,
                    )).spec_same_rgb(color),
                forall|xx: int|
                    0 <= xx < x ==> !(#[trigger] img.spec_pixel(xx, y as int)).spec_same_rgb(color),
            decreases img.width - x,
        {
            if img.get_pixel(x, y).same_rgb(&color) {
                return true;
            }
            x += 1;
        }
        y += 1;
    }
    false
}

/// The first priority candidate, from position `i` on, that is absent from
/// the image; `None` when every remaining candidate occurs in it.
pub open spec fn spec_first_unused(img: Image, i: int) -> Option<Rgba>
    decreases 7 - i,
{
    if i >= 7 {
        None
    } else if !spec_color_exists(img, candidate(i)) {
        Some(candidate(i))
    } else {
        spec_first_unused(img, i + 1)
    }
}

/// Tries the seven sentinel candidates in priority order and returns the
/// first one whose red-green-blue value is absent from the image; reports an
/// error when all seven are present.
pub fn find_unused_color_in_image(img: &Image) -> (r: Result<Rgba, String>)
    requires
        img.wf(),
    ensures
        r matches Ok(c) ==> spec_first_unused(*img, 0) == Some(c),
        r is Err ==> spec_first_unused(*img, 0) is None,
        r is Ok <==> spec_first_unused(*img, 0) is Some,
        r matches Err(m) ==> m@ == "unable to find unused color in image to use as key"@,
{
    let mut i: usize = 0;
    while i < 7
        invariant
            img.wf(),
            i <= 7,
            spec_first_unused(*img, 0) == spec_first_unused(*img, i as int),
        decreases 7 - i,
    {
        let c = candidate_at(i);
        if !color_exists_in_image(img, c) {
            return Ok(c);
        }
        i += 1;
    }
    Err("unable to find unused color in image to use as key".to_owned())
}

/// The sentinel the controller will inject: the first absent candidate, or
/// the fixed reserved fallback when all seven candidates are present.
pub open spec fn spec_choose_key(img: Image) -> Rgba {
    match spec_first_unused(img, 0) {
        Some(c) => c,
        None => Rgba { r: 1, g: 254, b: 253, a: 255 },
    }
}

/// Some pixel of the image would survive keying with a value different from
/// the sentinel that keying would choose: it neither needs the key nor
/// already carries the key's exact value. The clustering engine discards
/// every pixel that matches an active key, and its progress metric is
/// defined only while at least one pixel remains, so a conversion that keys
/// the image needs such a survivor.
pub open spec fn spec_has_unkeyed_survivor(img: Image) -> bool {
    exists|x: int, y: int|
        0 <= x < img.width && 0 <= y < img.height && !spec_needs_key(
            #[trigger] img.spec_pixel(x, y),
        ) && img.spec_pixel(x, y) != spec_choose_key(img)
}

/// A pixel is replaced when it is fully transparent, or nearly transparent
/// and pure black (a lossy upstream pipeline can round such pixels to opaque
/// black).
pub open spec fn spec_needs_key(p: Rgba) -> bool {
    p.a == 0 || (p.a < 10 && p.r == 0 && p.g == 0 && p.b == 0)
}

/// `keyed` is `orig` with every pixel that needs keying replaced by `key`
/// and every other pixel kept.
pub open spec fn is_keyed_copy(orig: Image, keyed: Image, key: Rgba) -> bool {
    &&& keyed.wf()
    &&& keyed.width == orig.width
    &&& keyed.height == orig.height
    &&& forall|x: int, y: int|
        0 <= x < orig.width && 0 <= y < orig.height ==> #[trigger] keyed.spec_pixel(x, y) == (
        if spec_needs_key(orig.spec_pixel(x, y)) {
            key
        } else {
            orig.spec_pixel(x, y)
        })
}

/// Replaces, in place, every pixel that needs keying by the chosen sentinel.
pub fn apply_key_color(img: &mut Image, key: Rgba)
    requires
        old(img).wf(),
    ensures
        is_keyed_copy(*old(img), *final(img), key),
{
    let mut y: usize = 0;
    while y < img.height
        invariant
            img.wf(),
            img.width == old(img).width,
            img.height == old(img).height,
            y <= img.height,
            forall|xx: int, yy: int|
                0 <= xx < img.width && 0 <= yy < y ==> #[trigger] img.spec_pixel(xx, yy) == (
                if spec_needs_key(old(img).spec_pixel(xx, yy)) {
                    key
                } else {
                    old(img).spec_pixel(xx, yy)
                }),
            forall|xx: int, yy: int|
                0 <= xx < img.width && y <= yy < img.height ==> #[trigger] img.spec_pixel(xx, yy)
                    == old(img).spec_pixel(xx, yy),
        decreases img.height - y,
    {
        let mut x: usize = 0;
        while x < img.width
            invariant
                img.wf(),
                img.width == old(img).width,
                img.height == old(img).height,
                y < img.height,
                x <= img.width,
                forall|xx: int, yy: int|
                    0 <= xx < img.width && 0 <= yy < y ==> #[trigger] img.spec_pixel(xx, yy) == (
                    if spec_needs_key(old(img).spec_pixel(xx, yy)) {
                        key
                    } else {
                        old(img).spec_pixel(xx, yy)
                    }),
                forall|xx: int|
                    0 <= xx < x ==> #[trigger] img.spec_pixel(xx, y as int) == (
                    if spec_needs_key(old(img).spec_pixel(xx, y as int)) {
                        key
                    } else {
                        old(img).spec_pixel(xx, y as int)
                    }),
                forall|xx: int|
                    x <= xx < img.width ==> #[trigger] img.spec_pixel(xx, y as int) == old(
                        img,
                    ).spec_pixel(xx, y as int),
                forall|xx: int, yy: int|
                    0 <= xx < img.width && y < yy < img.height ==> #[trigger] img.spec_pixel(
                        xx,
                        yy,
                    ) == old(img).spec_pixel(xx, yy),
            decreases img.width - x,
        {
            let p = img.get_pixel(x, y);
            if p.a == 0 || (p.a < 10 && p.r == 0 && p.g == 0 && p.b == 0) {
                img.set_pixel(x, y, key);
            }
            x += 1;
        }
        y += 1;
    }
}

/// An image with zero width or zero height never triggers keying.
pub proof fn lemma_should_key_zero_dimension(img: Image)
    requires
        img.width == 0 || img.height == 0,
    ensures
        !spec_should_key(img),
{
}

/// A fully opaque image wide enough for a positive threshold never triggers
/// keying.
pub proof fn lemma_should_key_fully_opaque(img: Image)
    requires
        img.wf(),
        img.width >= 3,
        img.height >= 1,
        forall|x: int, y: int|
            0 <= x < img.width && 0 <= y < img.height ==> (#[trigger] img.spec_pixel(x, y)).a
                == 255,
    ensures
        !spec_should_key(img),
{
    assert forall|k: int| 0 <= k <= 5 implies sampled_transparent_count(img, k) == 0 by {
        lemma_sampled_zero(img, k);
    }
    assert(keying_threshold(img.width as int) >= 1);
}

proof fn lemma_row_zero(img: Image, y: int, upto: int)
    requires
        0 <= y < img.height,
        upto <= img.width,
        forall|x: int, yy: int|
            0 <= x < img.width && 0 <= yy < img.height ==> (#[trigger] img.spec_pixel(x, yy)).a
                != 0,
    ensures
        row_transparent_count(img, y, upto) == 0,
    decreases upto,
{
    if upto > 0 {
        lemma_row_zero(img, y, upto - 1);
    }
}

proof fn lemma_sampled_zero(img: Image, k: int)
    requires
        img.height >= 1,
        k <= 5,
        forall|x: int, yy: int|
            0 <= x < img.width && 0 <= yy < img.height ==> (#[trigger] img.spec_pixel(x, yy)).a
                != 0,
    ensures
        sampled_transparent_count(img, k) == 0,
    decreases k,
{
    if k > 0 {
        lemma_sampled_zero(img, k - 1);
        let y = sampled_rows(img.height as int)[k - 1];
        assert(0 <= y < img.height);
        lemma_row_zero(img, y, img.width as int);
    }
}

/// An image whose five sampled rows collectively hold at least the threshold
/// of alpha-zero pixels always triggers keying.
pub proof fn lemma_should_key_transparent(img: Image)
    requires
        img.width >= 1,
        img.height >= 1,
        sampled_transparent_count(img, 5) >= keying_threshold(img.width as int),
    ensures
        spec_should_key(img),
{
}

} // verus!
