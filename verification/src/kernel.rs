//! Kernel source composition: textual substitution of the placeholders of a
//! kernel template.

use vstd::prelude::*;
use crate::text::{decimal, decimal_chars, from_chars, replace_chars, replace_seq, to_chars};

verus! {

/// The per-frame scalars that shape a compute unit and a dispatch.
#[derive(Clone, Copy, Debug, PartialEq, Eq, Structural)]
pub struct KernelParams {
    /// Rows of the input frame.
    pub height: i32,
    /// Rows of the output frame.
    pub output_height: i32,
    /// Bytes per row of the input frame.
    pub stride: i32,
    pub bytes_per_pixel: i32,
    /// Interpolation mode, passed to the kernel as a number.
    pub interpolation: i32,
}

/// Shader-function text of the lens models.
#[derive(Clone, Debug, PartialEq, Eq)]
pub struct ComputeParams {
    /// Functions of the primary distortion model.
    pub distortion_model: String,
    /// Functions of the secondary digital lens, if there is one.
    pub digital_lens: Option<String>,
}

/// The pass-through pair of functions that stands in for an absent digital lens.
pub open spec fn default_digital_lens() -> Seq<char> {
    "float2 digital_undistort_point(float2 uv, __global KernelParams *p) { return uv; }\nfloat2 digital_distort_point(float2 uv, __global KernelParams *p) { return uv; }"@
}

/// The lens-model function block: the primary model's functions followed by
/// the digital lens's, or by the pass-through pair.
pub open spec fn lens_functions(compute: ComputeParams) -> Seq<char> {
    compute.distortion_model@ + (match compute.digital_lens {
        Some(text) => text@,
        None => default_digital_lens(),
    })
}

/// The template with each placeholder replaced, in this order:
/// `LENS_MODEL_FUNCTIONS`, `DATA_CONVERTF`, `DATA_TYPEF`, `DATA_CONVERT`,
/// `DATA_TYPE`, `PIXEL_BYTES`, `INTERPOLATION`.
///
/// `names` holds the scalar type, the scalar conversion, the float type and
/// the float conversion. The longer of two placeholders that share a prefix
/// is replaced first.
pub open spec fn composed_source(
    template: Seq<char>,
    names: (Seq<char>, Seq<char>, Seq<char>, Seq<char>),
    bytes_per_pixel: int,
    interpolation: int,
    lens: Seq<char>,
) -> Seq<char> {
    let with_lens = replace_seq(template, "LENS_MODEL_FUNCTIONS"@, lens);
    let with_convertf = replace_seq(with_lens, "DATA_CONVERTF"@, names.3);
    let with_typef = replace_seq(with_convertf, "DATA_TYPEF"@, names.2);
    let with_convert = replace_seq(with_typef, "DATA_CONVERT"@, names.1);
    let with_type = replace_seq(with_convert, "DATA_TYPE"@, names.0);
    let with_bytes = replace_seq(with_type, "PIXEL_BYTES"@, decimal(bytes_per_pixel));
    replace_seq(with_bytes, "INTERPOLATION"@, decimal(interpolation))
}

/// The lens-model function block of `compute`.
pub fn lens_model_functions(compute: &ComputeParams) -> (text: Vec<char>)
    ensures
        text@ == lens_functions(*compute),
{
    let mut text = to_chars(compute.distortion_model.as_str());
    let second = match &compute.digital_lens {
        Some(lens) => to_chars(lens.as_str()),
        None => to_chars(
            "float2 digital_undistort_point(float2 uv, __global KernelParams *p) { return uv; }\nfloat2 digital_distort_point(float2 uv, __global KernelParams *p) { return uv; }",
        ),
    };
    text.extend_from_slice(second.as_slice());
    text
}

/// Composes the kernel source from a template, the pixel-format names, the
/// frame parameters and the lens models.
pub fn compose_kernel_source(
    template: &str,
    ocl_names: (&str, &str, &str, &str),
    params: &KernelParams,
    compute_params: &ComputeParams,
) -> (source: String)
    ensures
        source@ == composed_source(
            template@,
            (ocl_names.0@, ocl_names.1@, ocl_names.2@, ocl_names.3@),
            params.bytes_per_pixel as int,
            params.interpolation as int,
            lens_functions(*compute_params),
        ),
{
    let lens = lens_model_functions(compute_params);
    let text = to_chars(template);
    let text = replace_chars(&text, &to_chars("LENS_MODEL_FUNCTIONS"), &lens);
    let text = replace_chars(&text, &to_chars("DATA_CONVERTF"), &to_chars(ocl_names.3));
    let text = replace_chars(&text, &to_chars("DATA_TYPEF"), &to_chars(ocl_names.2));
    let text = replace_chars(&text, &to_chars("DATA_CONVERT"), &to_chars(ocl_names.1));
    let text = replace_chars(&text, &to_chars("DATA_TYPE"), &to_chars(ocl_names.0));
    let text = replace_chars(
        &text,
        &to_chars("PIXEL_BYTES"),
        &decimal_chars(params.bytes_per_pixel),
    );
    let text = replace_chars(
        &text,
        &to_chars("INTERPOLATION"),
        &decimal_chars(params.interpolation),
    );
    from_chars(&text)
}

} // verus!
