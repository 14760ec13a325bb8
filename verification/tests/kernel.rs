use gpu_dispatch::kernel::{
    compose_kernel_source, lens_model_functions, ComputeParams, KernelParams,
};

const TEMPLATE: &str = "LENS_MODEL_FUNCTIONS;\n\
__kernel void undistort_image(__global const uchar *src, __global uchar *dst, \
__global const void *params, __global const float *matrices, __global const uchar *drawing) {\n\
    DATA_TYPEF sum = DATA_CONVERTF(*(__global DATA_TYPE *)&src[0]);\n\
    *(__global DATA_TYPE *)&dst[0] = DATA_CONVERT(sum);\n\
    int step = PIXEL_BYTES; int mode = INTERPOLATION;\n\
}\n";

const TOKENS: [&str; 7] = [
    "LENS_MODEL_FUNCTIONS",
    "DATA_CONVERTF",
    "DATA_TYPEF",
    "DATA_CONVERT",
    "DATA_TYPE",
    "PIXEL_BYTES",
    "INTERPOLATION",
];

const IDENTITY_LENS: &str = "float2 digital_undistort_point(float2 uv, __global KernelParams *p) { return uv; }\n\
float2 digital_distort_point(float2 uv, __global KernelParams *p) { return uv; }";

fn params(bytes_per_pixel: i32, interpolation: i32) -> KernelParams {
    KernelParams { height: 4, output_height: 4, stride: 16, bytes_per_pixel, interpolation }
}

fn lens() -> ComputeParams {
    ComputeParams {
        distortion_model: "float2 undistort_point(float2 uv, __global KernelParams *p) { return uv; }\n\
float2 distort_point(float2 uv, __global KernelParams *p) { return uv; }\n"
            .to_string(),
        digital_lens: Some(IDENTITY_LENS.to_string()),
    }
}

#[test]
fn composed_source_has_no_placeholder_left() {
    let source = compose_kernel_source(
        TEMPLATE,
        ("uchar4", "convert_uchar4", "float4", "convert_float4"),
        &params(4, 1),
        &lens(),
    );
    for token in TOKENS {
        assert!(!source.contains(token), "{} is left", token);
    }
}

#[test]
fn template_holds_each_placeholder_once() {
    // DATA_TYPE also counts inside DATA_TYPEF, DATA_CONVERT inside DATA_CONVERTF.
    assert_eq!(TEMPLATE.matches("LENS_MODEL_FUNCTIONS").count(), 1);
    assert_eq!(TEMPLATE.matches("DATA_CONVERTF").count(), 1);
    assert_eq!(TEMPLATE.matches("DATA_TYPEF").count(), 1);
    assert_eq!(TEMPLATE.matches("PIXEL_BYTES").count(), 1);
    assert_eq!(TEMPLATE.matches("INTERPOLATION").count(), 1);
}

#[test]
fn composed_source_exact_text() {
    let compute = ComputeParams { distortion_model: "F;".to_string(), digital_lens: Some("G;".to_string()) };
    let source = compose_kernel_source(
        "LENS_MODEL_FUNCTIONS|DATA_TYPE|DATA_CONVERT|DATA_TYPEF|DATA_CONVERTF|PIXEL_BYTES|INTERPOLATION",
        ("uchar4", "convert_uchar4", "float4", "convert_float4"),
        &params(4, 1),
        &compute,
    );
    assert_eq!(source, "F;G;|uchar4|convert_uchar4|float4|convert_float4|4|1");
}

#[test]
fn longer_placeholder_wins_over_its_prefix() {
    let compute = ComputeParams { distortion_model: String::new(), digital_lens: Some(String::new()) };
    let source = compose_kernel_source(
        "DATA_TYPEF DATA_TYPE DATA_CONVERTF DATA_CONVERT",
        ("T", "C", "TF", "CF"),
        &params(1, 0),
        &compute,
    );
    assert_eq!(source, "TF T CF C");
}

#[test]
fn numbers_are_rendered_in_decimal() {
    let compute = ComputeParams { distortion_model: String::new(), digital_lens: Some(String::new()) };
    let source = compose_kernel_source(
        "PIXEL_BYTES,INTERPOLATION",
        ("a", "b", "c", "d"),
        &params(16, -2),
        &compute,
    );
    assert_eq!(source, "16,-2");
}

#[test]
fn every_occurrence_is_replaced() {
    let compute = ComputeParams { distortion_model: String::new(), digital_lens: Some(String::new()) };
    let source = compose_kernel_source(
        "PIXEL_BYTES PIXEL_BYTES DATA_TYPE DATA_TYPE",
        ("uchar", "b", "c", "d"),
        &params(3, 0),
        &compute,
    );
    assert_eq!(source, "3 3 uchar uchar");
}

#[test]
fn absent_digital_lens_gets_the_pass_through_pair() {
    let compute = ComputeParams { distortion_model: "primary;".to_string(), digital_lens: None };
    let text: String = lens_model_functions(&compute).iter().collect();
    assert_eq!(text, format!("primary;{}", IDENTITY_LENS));
    let source = compose_kernel_source("LENS_MODEL_FUNCTIONS", ("a", "b", "c", "d"), &params(4, 1), &compute);
    assert_eq!(source, format!("primary;{}", IDENTITY_LENS));
    assert!(source.contains("float2 digital_undistort_point(float2 uv, __global KernelParams *p)"));
    assert!(source.contains("float2 digital_distort_point(float2 uv, __global KernelParams *p)"));
}

#[test]
fn present_digital_lens_follows_the_primary_model() {
    let compute = ComputeParams {
        distortion_model: "primary;".to_string(),
        digital_lens: Some("secondary;".to_string()),
    };
    let text: String = lens_model_functions(&compute).iter().collect();
    assert_eq!(text, "primary;secondary;");
}

#[test]
fn template_without_placeholders_is_unchanged() {
    let source = compose_kernel_source(
        "__kernel void f() {}",
        ("uchar4", "convert_uchar4", "float4", "convert_float4"),
        &params(4, 1),
        &lens(),
    );
    assert_eq!(source, "__kernel void f() {}");
}
