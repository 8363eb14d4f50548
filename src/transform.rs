use vstd::prelude::*;
use crate::enums::{Game, Operation};
use crate::options::{JobView, MergedOption};
use crate::raster::{
    blur_regions, blur_regions_fit, blurred_all, crop, crop_rows, crop_window, cropped, fits_resize,
    resize_fits, resize_to_width, scaled_height, ImageView, RgbaImage, BLUR_KERNEL,
};

verus! {

/// Why one image of a batch could not be transformed.
#[derive(Clone, Copy, Debug, PartialEq, Eq, Structural)]
pub enum TransformError {
    /// A region operation got an image whose width is not the job's source width.
    WidthMismatch { expected: u32, actual: u32 },
    /// The blur of a region reported an error.
    BlurFailed,
    /// The resized image would not fit in memory.
    TooLarge,
}

/// A region operation of a game profile rejects an image whose width is not
/// the job's source width.
pub open spec fn width_rejected(job: JobView, width: u32) -> bool {
    job.game != Game::Unset && job.operation != Operation::Full && width != job.width_from
}

/// The rows that the job's crop keeps of an image `height` rows high.
pub open spec fn cropped_rows(job: JobView, height: u32) -> u32 {
    crop_window(height, job.crop_pos, job.crop_height).1 as u32
}

/// The resize that is due would not fit in memory.
pub open spec fn too_large(job: JobView, width: u32, height: u32) -> bool {
    job.game != Game::Unset && !width_rejected(job, width) && job.resize_due(width)
        && !resize_fits(width, cropped_rows(job, height), job.width_to)
}

/// The size of the image that the job makes of a `width` x `height` image.
pub open spec fn output_size(job: JobView, width: u32, height: u32) -> (u32, u32) {
    if job.game == Game::Unset {
        (width, height)
    } else if job.resize_due(width) {
        (job.width_to, scaled_height(width, cropped_rows(job, height), job.width_to) as u32)
    } else {
        (width, cropped_rows(job, height))
    }
}

/// The blur stage: all regions applied where blur applies, else nothing.
pub open spec fn blur_stage(job: JobView, img: ImageView, out: ImageView) -> bool {
    if job.blur_applies(img.width) {
        blurred_all(img, job.blur, BLUR_KERNEL, out)
    } else {
        out == img
    }
}

/// The resize stage on the cropped image `cut` of an image `width` wide:
/// where resize is due, an image of the target width and the scaled height;
/// else `cut` itself.
pub open spec fn resize_stage(job: JobView, width: u32, cut: ImageView, out: ImageView) -> bool {
    if job.resize_due(width) {
        out.width == job.width_to && out.height == scaled_height(cut.width, cut.height, job.width_to)
            && out.wf()
    } else {
        out == cut
    }
}

/// `out` is an image that the job makes of `img`: without a game profile,
/// the image itself; else blurred where blur applies, cropped, and resized
/// where resize is due.
pub open spec fn transformed(job: JobView, img: ImageView, out: ImageView) -> bool {
    if job.game == Game::Unset {
        out == img
    } else {
        exists|blurred: ImageView|
            blur_stage(job, img, blurred) && #[trigger] resize_stage(
                job,
                img.width,
                cropped(blurred, job.crop_pos, job.crop_height),
                out,
            )
    }
}

/// Applies the job's region blur, crop and resize to one decoded image.
pub fn transform_image(mo: &MergedOption, img: RgbaImage) -> (r: Result<RgbaImage, TransformError>)
    requires
        img@.wf(),
    ensures
        r matches Ok(out) ==> transformed(mo@, img@, out@) && out@.wf() && (out.width, out.height)
            == output_size(mo@, img.width, img.height),
        width_rejected(mo@, img.width) <==> r matches Err(TransformError::WidthMismatch { .. }),
        r matches Err(TransformError::WidthMismatch { expected, actual }) ==> expected
            == mo.width_from && actual == img.width,
        too_large(mo@, img.width, img.height) <==> r == Err::<RgbaImage, TransformError>(
            TransformError::TooLarge,
        ),
        r == Err::<RgbaImage, TransformError>(TransformError::BlurFailed) ==> mo@.blur_applies(
            img.width,
        ) && !width_rejected(mo@, img.width) && !too_large(mo@, img.width, img.height),
        blur_regions_fit(mo.blur@) ==> r != Err::<RgbaImage, TransformError>(
            TransformError::BlurFailed,
        ),
{
    if mo.game == Game::Unset {
        return Ok(img);
    }
    let w = img.width;
    let h = img.height;
    if mo.operation != Operation::Full && w != mo.width_from {
        return Err(TransformError::WidthMismatch { expected: mo.width_from, actual: w });
    }
    if mo.should_resize(w) && !fits_resize(w, crop_rows(h, mo.crop_pos, mo.crop_height), mo.width_to) {
        return Err(TransformError::TooLarge);
    }
    let ghost img0 = img@;
    let mut img = img;
    if mo.should_blur(w) {
        if !blur_regions(&mut img, &mo.blur, BLUR_KERNEL) {
            return Err(TransformError::BlurFailed);
        }
    }
    let ghost blurred = img@;
    let cut = crop(&img, mo.crop_pos, mo.crop_height);
    if mo.should_resize(w) {
        match resize_to_width(&cut, mo.width_to) {
            Some(out) => {
                assert(blur_stage(mo@, img0, blurred) && resize_stage(
                    mo@,
                    w,
                    cropped(blurred, mo.crop_pos, mo.crop_height),
                    out@,
                ));
                Ok(out)
            },
            None => Err(TransformError::TooLarge),
        }
    } else {
        assert(blur_stage(mo@, img0, blurred) && resize_stage(
            mo@,
            w,
            cropped(blurred, mo.crop_pos, mo.crop_height),
            cut@,
        ));
        Ok(cut)
    }
}

/// Without a game profile nothing is blurred, cropped or resized: the output
/// is the decoded image at its own size.
pub proof fn lemma_unset_game_keeps_image(job: JobView, img: ImageView, out: ImageView)
    requires
        job.game == Game::Unset,
    ensures
        transformed(job, img, out) <==> out == img,
        !job.blur_applies(img.width),
        !job.resize_due(img.width),
        !width_rejected(job, img.width),
        !too_large(job, img.width, img.height),
{
}

} // verus!
