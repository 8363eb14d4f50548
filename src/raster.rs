use vstd::prelude::*;
use crate::config::Rect;
use crate::enums::CropPosition;

verus! {

/// Box-blur kernel size used on blur regions: large enough to make text
/// unreadable, small enough to stay unobtrusive. Odd, as the blur requires.
pub const BLUR_KERNEL: u32 = 45;

/// An 8-bit RGBA image, rows top to bottom, four bytes per pixel.
pub struct RgbaImage {
    pub width: u32,
    pub height: u32,
    pub pixels: Vec<u8>,
}

/// The value of an image.
pub struct ImageView {
    pub width: u32,
    pub height: u32,
    pub pixels: Seq<u8>,
}

impl View for RgbaImage {
    type V = ImageView;

    open spec fn view(&self) -> ImageView {
        ImageView { width: self.width, height: self.height, pixels: self.pixels@ }
    }
}

impl ImageView {
    /// The buffer holds exactly four bytes for each pixel.
    pub open spec fn wf(self) -> bool {
        self.pixels.len() == 4 * self.width * self.height
    }

    /// Bytes per row.
    pub open spec fn row_bytes(self) -> int {
        4 * self.width
    }
}

/// The byte of channel `c` of pixel `(x, y)` in an RGBA buffer `w` pixels wide.
pub open spec fn byte_at(s: Seq<u8>, w: int, x: int, y: int, c: int) -> int {
    s[4 * (y * w + x) + c] as int
}

/// `i` clamped to `0..n`.
pub open spec fn clamped(i: int, n: int) -> int {
    if i < 0 {
        0
    } else if i >= n {
        n - 1
    } else {
        i
    }
}

/// The sum of channel `c` over the `count` pixels of row `y` from column
/// `x + lo` on, with columns clamped to the row.
pub open spec fn row_window_sum(s: Seq<u8>, w: int, x: int, y: int, c: int, lo: int, count: nat) -> int
    decreases count,
{
    if count == 0 {
        0
    } else {
        row_window_sum(s, w, x, y, c, lo, (count - 1) as nat) + byte_at(
            s,
            w,
            clamped(x + lo + count - 1, w),
            y,
            c,
        )
    }
}

/// The sum of channel `c` over the `count` pixels of column `x` from row
/// `y + lo` on, with rows clamped to the image's `h` rows.
pub open spec fn col_window_sum(
    s: Seq<u8>,
    w: int,
    h: int,
    x: int,
    y: int,
    c: int,
    lo: int,
    count: nat,
) -> int
    decreases count,
{
    if count == 0 {
        0
    } else {
        col_window_sum(s, w, h, x, y, c, lo, (count - 1) as nat) + byte_at(
            s,
            w,
            x,
            clamped(y + lo + count - 1, h),
            c,
        )
    }
}

/// `v` is within 1 of the mean `sum / n`.
pub open spec fn near_mean(v: int, sum: int, n: int) -> bool {
    n * v <= sum + n && sum <= n * v + n
}

/// `out` is a box blur of the RGBA buffer `src` (`width` x `height`) with
/// the given kernel, whichever rounding the machine's code path uses: kernel
/// 1 copies; otherwise, with `r = kernel / 2`, there is a buffer `t` whose
/// every byte is within 1 of the mean of the `2r + 1` bytes of the same
/// channel around it in its row, and every byte of `out` is within 1 of the
/// mean of the `2r + 1` bytes of `t` around it in its column, positions
/// clamped to the image in both passes.
pub open spec fn box_blurred(src: Seq<u8>, width: u32, height: u32, kernel: u32, out: Seq<u8>) -> bool {
    let w = width as int;
    let h = height as int;
    let r = (kernel / 2) as int;
    let n = 2 * r + 1;
    &&& out.len() == src.len()
    &&& if kernel == 1 {
        out == src
    } else {
        exists|t: Seq<u8>|
            t.len() == src.len() && (forall|x: int, y: int, c: int|
                0 <= x < w && 0 <= y < h && 0 <= c < 4 ==> near_mean(
                    #[trigger] byte_at(t, w, x, y, c),
                    row_window_sum(src, w, x, y, c, -r, n as nat),
                    n,
                )) && (forall|x: int, y: int, c: int|
                0 <= x < w && 0 <= y < h && 0 <= c < 4 ==> near_mean(
                    #[trigger] byte_at(out, w, x, y, c),
                    col_window_sum(t, w, h, x, y, c, -r, n as nat),
                    n,
                ))
    }
}

/// Relies on libblur::box_blur (with BlurImage::borrow and an owned
/// BlurImageMut): the destination is first sized to the source's
/// `4 * width * height` bytes, then written with a horizontal pass into a
/// buffer of the same size and a vertical pass from it, each byte the
/// rounded mean of its window with edge pixels replicated; kernel 1 copies.
/// It returns an error only on an even kernel, an empty image, or a layout
/// whose size overflows `isize`. The bounds on kernel and size keep its
/// plain `u32` arithmetic from overflowing. `None` where libblur returns an
/// error.
#[verifier::external_body]
fn box_blur_rgba(data: &Vec<u8>, width: u32, height: u32, kernel: u32) -> (r: Option<Vec<u8>>)
    requires
        data@.len() == 4 * width * height,
        4 * width * height <= u32::MAX,
        kernel <= 0xFFFF,
    ensures
        r matches Some(v) ==> v@.len() == data@.len() && box_blurred(
            data@,
            width,
            height,
            kernel,
            v@,
        ),
        width > 0 && height > 0 && kernel % 2 == 1 ==> r is Some,
{
    let src = libblur::BlurImage::borrow(data, width, height, libblur::FastBlurChannels::Channels4);
    let mut dst = libblur::BlurImageMut::default();
    let params = libblur::BoxBlurParameters::new(kernel);
    match libblur::box_blur(&src, &mut dst, params, libblur::ThreadingPolicy::Single) {
        Ok(()) => Some(dst.data.borrow().to_vec()),
        Err(_) => None,
    }
}

/// Relies on image::ImageBuffer::from_raw, which accepts a buffer of exactly
/// `4 * width * height` bytes for RGBA, and image::imageops::resize with the
/// Lanczos3 filter, which returns a `new_width` x `new_height` buffer.
#[verifier::external_body]
fn resize_rgba(data: &Vec<u8>, width: u32, height: u32, new_width: u32, new_height: u32) -> (r: Vec<u8>)
    requires
        data@.len() == 4 * width * height,
        4 * new_width * new_height <= usize::MAX,
    ensures
        r@.len() == 4 * new_width * new_height,
{
    let buf = image::ImageBuffer::<image::Rgba<u8>, Vec<u8>>::from_raw(width, height, data.clone());
    let src = buf.unwrap();
    image::imageops::resize(&src, new_width, new_height, image::imageops::FilterType::Lanczos3).into_raw()
}

// ---------------------------------------------------------------- crop

/// The crop window `(top, rows)` for an image of height `h`: `Bottom` takes the
/// last rows, `Center` a centred band starting at `(h - crop_height) / 2`
/// (0 where `crop_height` exceeds `h`), `Full` the whole image. The window is
/// clamped to the image.
pub open spec fn crop_window(h: u32, pos: CropPosition, crop_height: u32) -> (int, int) {
    let rows = if crop_height <= h { crop_height as int } else { h as int };
    match pos {
        CropPosition::Bottom => (h - rows, rows),
        CropPosition::Center => ((h - rows) / 2, rows),
        CropPosition::Full => (0, h as int),
    }
}

/// The image cut to its crop window, at full width.
pub open spec fn cropped(img: ImageView, pos: CropPosition, crop_height: u32) -> ImageView {
    let (top, rows) = crop_window(img.height, pos, crop_height);
    ImageView {
        width: img.width,
        height: rows as u32,
        pixels: img.pixels.subrange(img.row_bytes() * top, img.row_bytes() * (top + rows)),
    }
}

proof fn lemma_mul_le(a: int, b: int, c: int)
    requires
        0 <= a,
        0 <= b <= c,
    ensures
        a * b <= a * c,
{
    assert(a * b <= a * c) by (nonlinear_arith)
        requires
            0 <= a,
            0 <= b <= c,
    ;
}

/// Cuts `img` to the crop window of `pos` and `crop_height`.
pub fn crop(img: &RgbaImage, pos: CropPosition, crop_height: u32) -> (r: RgbaImage)
    requires
        img@.wf(),
    ensures
        r@ == cropped(img@, pos, crop_height),
        r@.wf(),
{
    let h = img.height;
    let rows: u32 = if crop_height <= h { crop_height } else { h };
    let top: u32 = match pos {
        CropPosition::Bottom => h - rows,
        CropPosition::Center => (h - rows) / 2,
        CropPosition::Full => 0,
    };
    let rows: u32 = match pos {
        CropPosition::Full => h,
        _ => rows,
    };
    proof {
        assert(img.pixels@.len() == img.pixels.len());
        lemma_mul_le(img@.row_bytes(), top as int, h as int);
        assert(img@.row_bytes() * h == img.pixels@.len()) by (nonlinear_arith)
            requires
                img.pixels@.len() == 4 * img.width * img.height,
                img@.row_bytes() == 4 * img.width,
                h == img.height,
        ;
    }
    if rows == 0 {
        assert(img.pixels@.subrange(img@.row_bytes() * top, img@.row_bytes() * top) =~= Seq::<
            u8,
        >::empty());
        return RgbaImage { width: img.width, height: 0, pixels: Vec::new() };
    }
    proof {
        assert(4 * img.width <= 4 * img.width * img.height) by (nonlinear_arith)
            requires
                img.height >= 1,
        ;
    }
    let rb: usize = 4 * (img.width as usize);
    proof {
        lemma_mul_le(rb as int, top + rows, h as int);
        lemma_mul_le(rb as int, top as int, top + rows);
        assert(4 * img.width * img.height == rb * h) by (nonlinear_arith)
            requires
                rb == 4 * img.width,
                h == img.height,
        ;
        assert(rb * (top + rows) == rb * top + rb * rows) by (nonlinear_arith);
    }
    let start: usize = rb * (top as usize);
    let end: usize = start + rb * (rows as usize);
    proof {
        assert(4 * img.width * rows == rb * rows) by (nonlinear_arith)
            requires
                rb == 4 * img.width,
        ;
    }
    let mut out: Vec<u8> = Vec::new();
    let mut i: usize = start;
    while i < end
        invariant
            start <= i <= end,
            end <= img.pixels@.len(),
            out@ == img.pixels@.subrange(start as int, i as int),
        decreases end - i,
    {
        out.push(img.pixels[i]);
        i = i + 1;
        assert(out@ =~= img.pixels@.subrange(start as int, i as int));
    }
    RgbaImage { width: img.width, height: rows, pixels: out }
}

/// Cropping a centred band as high as the image leaves the image as it is.
pub proof fn lemma_center_crop_full_height(img: ImageView)
    requires
        img.wf(),
    ensures
        cropped(img, CropPosition::Center, img.height) == img,
{
    assert(img.row_bytes() * img.height == img.pixels.len()) by (nonlinear_arith)
        requires
            img.pixels.len() == 4 * img.width * img.height,
            img.row_bytes() == 4 * img.width,
    ;
    let (top, rows) = crop_window(img.height, CropPosition::Center, img.height);
    assert(top == 0 && rows == img.height);
    assert(img.row_bytes() * top == 0);
    assert(img.pixels.subrange(0, img.pixels.len() as int) =~= img.pixels);
    assert(cropped(img, CropPosition::Center, img.height).pixels =~= img.pixels);
}

// ---------------------------------------------------------------- region blur

/// The rectangle is not empty and lies fully within the image.
pub open spec fn blurrable(img: ImageView, r: Rect) -> bool {
    &&& r@[2] > 0
    &&& r@[3] > 0
    &&& r@[0] + r@[2] <= img.width
    &&& r@[1] + r@[3] <= img.height
}

/// The first `n` rows of a `bw4`-byte wide window at byte column `x4` from row
/// `y` of a buffer with `rb` bytes per row, row after row.
pub open spec fn region_rows(p: Seq<u8>, rb: int, x4: int, y: int, bw4: int, n: nat) -> Seq<u8>
    decreases n,
{
    if n == 0 {
        Seq::empty()
    } else {
        let s = rb * (y + n - 1) + x4;
        region_rows(p, rb, x4, y, bw4, (n - 1) as nat) + p.subrange(s, s + bw4)
    }
}

/// `p` with the first `n` rows of the window overwritten, row by row, by `data`.
pub open spec fn paste_rows(
    p: Seq<u8>,
    rb: int,
    x4: int,
    y: int,
    bw4: int,
    data: Seq<u8>,
    n: nat,
) -> Seq<u8>
    decreases n,
{
    if n == 0 {
        p
    } else {
        let q = paste_rows(p, rb, x4, y, bw4, data, (n - 1) as nat);
        let s = rb * (y + n - 1) + x4;
        Seq::new(
            q.len(),
            |k: int|
                if s <= k < s + bw4 {
                    data[bw4 * (n - 1) + (k - s)]
                } else {
                    q[k]
                },
        )
    }
}

/// The RGBA bytes of the pixels under `r`, row by row.
pub open spec fn region_bytes(img: ImageView, r: Rect) -> Seq<u8> {
    region_rows(img.pixels, img.row_bytes(), 4 * r@[0], r@[1] as int, 4 * r@[2], r@[3] as nat)
}

/// The image with the pixels under `r` replaced by `data`, and nothing else changed.
pub open spec fn pasted(img: ImageView, r: Rect, data: Seq<u8>) -> ImageView {
    ImageView {
        width: img.width,
        height: img.height,
        pixels: paste_rows(
            img.pixels,
            img.row_bytes(),
            4 * r@[0],
            r@[1] as int,
            4 * r@[2],
            data,
            r@[3] as nat,
        ),
    }
}

/// `out` is `img` with one blur region applied: a region within the image
/// is overwritten in place by a box blur of its own pixels; any other region
/// leaves the image as it was.
pub open spec fn blurred_once(img: ImageView, r: Rect, kernel: u32, out: ImageView) -> bool {
    if blurrable(img, r) {
        exists|data: Seq<u8>|
            box_blurred(region_bytes(img, r), r@[2], r@[3], kernel, data) && #[trigger] pasted(
                img,
                r,
                data,
            ) == out
    } else {
        out == img
    }
}

/// `steps` goes from `img` through each blur region in turn: one image more
/// than regions, each the one before with the next region applied.
pub open spec fn blur_chain(
    img: ImageView,
    rects: Seq<Rect>,
    kernel: u32,
    steps: Seq<ImageView>,
) -> bool {
    &&& steps.len() == rects.len() + 1
    &&& steps[0] == img
    &&& forall|i: int|
        0 <= i < rects.len() ==> blurred_once(#[trigger] steps[i], rects[i], kernel, steps[i + 1])
}

/// `out` is `img` with all blur regions applied, in order.
pub open spec fn blurred_all(img: ImageView, rects: Seq<Rect>, kernel: u32, out: ImageView) -> bool {
    exists|steps: Seq<ImageView>| #[trigger] blur_chain(img, rects, kernel, steps) && steps.last() == out
}

/// The largest kernel the blur takes.
pub const MAX_BLUR_KERNEL: u32 = 0xFFFF;

/// A region's RGBA bytes can be counted in a `u32`, as the blur requires.
pub open spec fn region_fits(r: Rect) -> bool {
    4 * r@[2] * r@[3] <= u32::MAX
}

/// Every region is small enough for the blur to accept it.
pub open spec fn blur_regions_fit(rects: Seq<Rect>) -> bool {
    forall|i: int| 0 <= i < rects.len() ==> region_fits(#[trigger] rects[i])
}

/// Row `j` of the window of `r` lies within the buffer.
proof fn lemma_window_row_in_bounds(img: ImageView, r: Rect, j: int)
    requires
        img.wf(),
        blurrable(img, r),
        0 <= j < r@[3],
    ensures
        img.row_bytes() * (r@[1] + j) + 4 * r@[0] + 4 * r@[2] <= img.row_bytes() * (r@[1] + j
            + 1),
        img.row_bytes() * (r@[1] + j + 1) <= img.pixels.len(),
        0 <= img.row_bytes() * (r@[1] + j),
        img.row_bytes() <= img.pixels.len(),
{
    let rb = img.row_bytes();
    lemma_mul_le(rb, r@[1] + j + 1, img.height as int);
    assert(rb * (r@[1] + j + 1) == rb * (r@[1] + j) + rb) by (nonlinear_arith);
    assert(rb * img.height == img.pixels.len()) by (nonlinear_arith)
        requires
            img.pixels.len() == 4 * img.width * img.height,
            rb == 4 * img.width,
    ;
    lemma_mul_le(rb, 0, r@[1] + j);
    lemma_mul_le(rb, 1, r@[1] + j + 1);
}

/// Whether `r` is not empty and lies fully within `img`.
pub fn is_blurrable(img: &RgbaImage, r: Rect) -> (b: bool)
    ensures
        b == blurrable(img@, r),
{
    r[2] > 0 && r[3] > 0 && (r[0] as u64) + (r[2] as u64) <= (img.width as u64) && (r[1] as u64)
        + (r[3] as u64) <= (img.height as u64)
}

/// Copies out the bytes of the pixels under `r`.
fn region(img: &RgbaImage, r: Rect) -> (out: Vec<u8>)
    requires
        img@.wf(),
        blurrable(img@, r),
    ensures
        out@ == region_bytes(img@, r),
        out@.len() == 4 * r@[2] * r@[3],
{
    proof {
        lemma_window_row_in_bounds(img@, r, 0);
        assert(img.pixels@.len() == img.pixels.len());
    }
    let rb: usize = 4 * (img.width as usize);
    let x4: usize = 4 * (r[0] as usize);
    let bw4: usize = 4 * (r[2] as usize);
    let y: usize = r[1] as usize;
    let bh: usize = r[3] as usize;
    let ghost p = img.pixels@;
    let mut out: Vec<u8> = Vec::new();
    let mut j: usize = 0;
    while j < bh
        invariant
            0 <= j <= bh,
            bh == r@[3],
            y == r@[1],
            rb == img@.row_bytes(),
            x4 == 4 * r@[0],
            bw4 == 4 * r@[2],
            p == img.pixels@,
            img@.wf(),
            blurrable(img@, r),
            p.len() == img.pixels.len(),
            out@ == region_rows(p, rb as int, x4 as int, y as int, bw4 as int, j as nat),
            out@.len() == bw4 * j,
        decreases bh - j,
    {
        proof {
            lemma_window_row_in_bounds(img@, r, j as int);
        }
        let s: usize = rb * (y + j) + x4;
        let ghost before = out@;
        let mut i: usize = 0;
        while i < bw4
            invariant
                0 <= i <= bw4,
                s + bw4 <= p.len(),
                p == img.pixels@,
                p.len() == img.pixels.len(),
                out@ == before + p.subrange(s as int, s + i),
            decreases bw4 - i,
        {
            out.push(img.pixels[s + i]);
            i = i + 1;
            assert(out@ =~= before + p.subrange(s as int, s + i));
        }
        proof {
            assert(bw4 * j + bw4 == bw4 * (j + 1)) by (nonlinear_arith);
        }
        j = j + 1;
    }
    proof {
        assert(bw4 * bh == 4 * r@[2] * r@[3]) by (nonlinear_arith)
            requires
                bw4 == 4 * r@[2],
                bh == r@[3],
        ;
    }
    out
}

/// Overwrites the pixels under `r` with `data`, row by row, and leaves every
/// other pixel as it was.
pub fn paste(img: &mut RgbaImage, r: Rect, data: &Vec<u8>)
    requires
        old(img)@.wf(),
        blurrable(old(img)@, r),
        data@.len() == 4 * r@[2] * r@[3],
    ensures
        final(img)@ == pasted(old(img)@, r, data@),
        final(img)@.wf(),
{
    proof {
        lemma_window_row_in_bounds(img@, r, 0);
        assert(img.pixels@.len() == img.pixels.len());
    }
    let ghost img0 = img@;
    let rb: usize = 4 * (img.width as usize);
    let x4: usize = 4 * (r[0] as usize);
    let bw4: usize = 4 * (r[2] as usize);
    let y: usize = r[1] as usize;
    let bh: usize = r[3] as usize;
    proof {
        assert(bw4 * bh == 4 * r@[2] * r@[3]) by (nonlinear_arith)
            requires
                bw4 == 4 * r@[2],
                bh == r@[3],
        ;
    }
    assert(data@.len() == data.len());
    let mut j: usize = 0;
    while j < bh
        invariant
            0 <= j <= bh,
            bh == r@[3],
            y == r@[1],
            rb == img0.row_bytes(),
            x4 == 4 * r@[0],
            bw4 == 4 * r@[2],
            img0.wf(),
            blurrable(img0, r),
            data@.len() == bw4 * bh,
            img.width == img0.width,
            img.height == img0.height,
            img.pixels@ == paste_rows(
                img0.pixels,
                rb as int,
                x4 as int,
                y as int,
                bw4 as int,
                data@,
                j as nat,
            ),
            img.pixels@.len() == img0.pixels.len(),
            img0.pixels.len() <= usize::MAX,
            data@.len() <= usize::MAX,
        decreases bh - j,
    {
        proof {
            lemma_window_row_in_bounds(img0, r, j as int);
            lemma_mul_le(bw4 as int, j + 1, bh as int);
            assert(bw4 * (j + 1) == bw4 * j + bw4) by (nonlinear_arith);
        }
        let s: usize = rb * (y + j) + x4;
        let d: usize = bw4 * j;
        let ghost q = img.pixels@;
        let mut i: usize = 0;
        while i < bw4
            invariant
                0 <= i <= bw4,
                s + bw4 <= q.len(),
                d + bw4 <= data@.len(),
                q.len() == img0.pixels.len(),
                img0.pixels.len() <= usize::MAX,
                data@.len() <= usize::MAX,
                img.width == img0.width,
                img.height == img0.height,
                img.pixels@ == Seq::new(
                    q.len(),
                    |k: int|
                        if s <= k < s + i {
                            data@[d + (k - s)]
                        } else {
                            q[k]
                        },
                ),
            decreases bw4 - i,
        {
            img.pixels.set(s + i, data[d + i]);
            i = i + 1;
            assert(img.pixels@ =~= Seq::new(
                q.len(),
                |k: int|
                    if s <= k < s + i {
                        data@[d + (k - s)]
                    } else {
                        q[k]
                    },
            ));
        }
        j = j + 1;
        proof {
            assert(img.pixels@ =~= paste_rows(
                img0.pixels,
                rb as int,
                x4 as int,
                y as int,
                bw4 as int,
                data@,
                j as nat,
            ));
        }
    }
}

/// Blurs the pixels under `r` in place when `r` is not empty and lies within
/// the image; skips it, without error and without a change, otherwise.
/// `false` when the blur cannot be run: an even kernel, one above
/// `MAX_BLUR_KERNEL`, or a region too large to blur.
pub fn blur_region(img: &mut RgbaImage, r: Rect, kernel: u32) -> (ok: bool)
    requires
        old(img)@.wf(),
    ensures
        final(img)@.wf(),
        final(img).width == old(img).width,
        final(img).height == old(img).height,
        ok ==> blurred_once(old(img)@, r, kernel, final(img)@),
        !blurrable(old(img)@, r) ==> ok && final(img)@ == old(img)@,
        kernel % 2 == 1 && kernel <= MAX_BLUR_KERNEL && region_fits(r) ==> ok,
{
    if !is_blurrable(img, r) {
        return true;
    }
    proof {
        assert(4 * r@[2] * r@[3] <= 4 * u32::MAX * u32::MAX) by (nonlinear_arith)
            requires
                r@[2] <= u32::MAX,
                r@[3] <= u32::MAX,
        ;
        assert(4 * r@[2] * r@[3] >= 0) by (nonlinear_arith);
    }
    if kernel > MAX_BLUR_KERNEL || 4u128 * (r[2] as u128) * (r[3] as u128) > u32::MAX as u128 {
        return false;
    }
    let ghost img0 = img@;
    let bytes = region(img, r);
    match box_blur_rgba(&bytes, r[2], r[3], kernel) {
        Some(blurred) => {
            paste(img, r, &blurred);
            assert(box_blurred(region_bytes(img0, r), r@[2], r@[3], kernel, blurred@) && pasted(
                img0,
                r,
                blurred@,
            ) == img@);
            true
        },
        None => false,
    }
}

/// Blurs every region of `rects` in order. `false` when a blur cannot be
/// run (see `blur_region`); the image is then partly blurred.
pub fn blur_regions(img: &mut RgbaImage, rects: &Vec<Rect>, kernel: u32) -> (ok: bool)
    requires
        old(img)@.wf(),
    ensures
        final(img)@.wf(),
        final(img).width == old(img).width,
        final(img).height == old(img).height,
        ok ==> blurred_all(old(img)@, rects@, kernel, final(img)@),
        kernel % 2 == 1 && kernel <= MAX_BLUR_KERNEL && blur_regions_fit(rects@) ==> ok,
{
    let ghost img0 = img@;
    let ghost mut steps: Seq<ImageView> = seq![img0];
    let mut i: usize = 0;
    while i < rects.len()
        invariant
            0 <= i <= rects.len(),
            img@.wf(),
            img.width == img0.width,
            img.height == img0.height,
            img0 == old(img)@,
            blur_chain(img0, rects@.subrange(0, i as int), kernel, steps),
            steps.last() == img@,
        decreases rects.len() - i,
    {
        let ghost before = img@;
        proof {
            if kernel % 2 == 1 && blur_regions_fit(rects@) {
                assert(region_fits(rects@[i as int]));
            }
        }
        if !blur_region(img, rects[i], kernel) {
            return false;
        }
        proof {
            let prev = steps;
            steps = steps.push(img@);
            assert forall|j: int| 0 <= j < i + 1 implies blurred_once(
                #[trigger] steps[j],
                rects@.subrange(0, i + 1)[j],
                kernel,
                steps[j + 1],
            ) by {
                if j < i {
                    assert(steps[j] == prev[j] && steps[j + 1] == prev[j + 1]);
                    assert(rects@.subrange(0, i as int)[j] == rects@.subrange(0, i + 1)[j]);
                } else {
                    assert(steps[j] == before);
                }
            }
        }
        i = i + 1;
    }
    assert(rects@.subrange(0, rects.len() as int) =~= rects@);
    assert(blur_chain(img0, rects@, kernel, steps));
    true
}

/// A blur region that reaches past the image's right or bottom edge is
/// skipped: the image is left exactly as it was.
pub proof fn lemma_outside_region_skipped(img: ImageView, r: Rect, kernel: u32, out: ImageView)
    requires
        r@[0] + r@[2] > img.width || r@[1] + r@[3] > img.height,
        blurred_once(img, r, kernel, out),
    ensures
        out == img,
{
}

// ---------------------------------------------------------------- resize

/// The height that keeps the aspect ratio of a `width` x `height` image scaled
/// to `new_width`, rounded down; 0 for an image without width.
pub open spec fn scaled_height(width: u32, height: u32, new_width: u32) -> int {
    if width == 0 {
        0
    } else {
        (new_width * height) / (width as int)
    }
}

/// A resize of a `width` x `height` image to `new_width` fits in memory: the
/// scaled height is a `u32` and the buffer's byte count a `usize`.
pub open spec fn resize_fits(width: u32, height: u32, new_width: u32) -> bool {
    let nh = scaled_height(width, height, new_width);
    nh <= u32::MAX && 4 * new_width * nh <= usize::MAX
}

/// The scaled height, where it is a `u32`.
fn scaled_height_exec(width: u32, height: u32, new_width: u32) -> (r: u32)
    requires
        scaled_height(width, height, new_width) <= u32::MAX,
    ensures
        r == scaled_height(width, height, new_width),
{
    if width == 0 {
        0
    } else {
        proof {
            assert(new_width * height <= u32::MAX * u32::MAX) by (nonlinear_arith)
                requires
                    new_width <= u32::MAX,
                    height <= u32::MAX,
            ;
            assert(new_width * height >= 0) by (nonlinear_arith);
        }
        ((new_width as u64) * (height as u64) / (width as u64)) as u32
    }
}

/// Whether a resize of a `width` x `height` image to `new_width` fits in memory.
pub fn fits_resize(width: u32, height: u32, new_width: u32) -> (r: bool)
    ensures
        r == resize_fits(width, height, new_width),
{
    let nh64: u64 = if width == 0 {
        0
    } else {
        proof {
            assert(new_width * height <= u32::MAX * u32::MAX) by (nonlinear_arith)
                requires
                    new_width <= u32::MAX,
                    height <= u32::MAX,
            ;
            assert(new_width * height >= 0) by (nonlinear_arith);
        }
        (new_width as u64) * (height as u64) / (width as u64)
    };
    if nh64 > u32::MAX as u64 {
        return false;
    }
    proof {
        assert(4 * new_width * nh64 <= 4 * u32::MAX * u32::MAX) by (nonlinear_arith)
            requires
                new_width <= u32::MAX,
                nh64 <= u32::MAX,
        ;
        assert(4 * new_width * nh64 >= 0) by (nonlinear_arith);
    }
    4u128 * (new_width as u128) * (nh64 as u128) <= usize::MAX as u128
}

/// The rows that a crop keeps of an image `height` rows high.
pub fn crop_rows(height: u32, pos: CropPosition, crop_height: u32) -> (r: u32)
    ensures
        r == crop_window(height, pos, crop_height).1,
{
    match pos {
        CropPosition::Full => height,
        _ => if crop_height <= height {
            crop_height
        } else {
            height
        },
    }
}

/// Scales `img` to `new_width`, keeping its aspect ratio, with Lanczos3
/// resampling; `None` where the result would not fit in memory.
pub fn resize_to_width(img: &RgbaImage, new_width: u32) -> (r: Option<RgbaImage>)
    requires
        img@.wf(),
    ensures
        r is Some <==> resize_fits(img.width, img.height, new_width),
        r matches Some(out) ==> out.width == new_width && out.height == scaled_height(
            img.width,
            img.height,
            new_width,
        ) && out@.wf(),
{
    if !fits_resize(img.width, img.height, new_width) {
        return None;
    }
    let nh: u32 = scaled_height_exec(img.width, img.height, new_width);
    let pixels = resize_rgba(&img.pixels, img.width, img.height, new_width, nh);
    Some(RgbaImage { width: new_width, height: nh, pixels })
}

} // verus!
