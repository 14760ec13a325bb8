use gpu_dispatch::buffers::{BufferDescription, BufferSource, FrameSize};
use gpu_dispatch::error::GpuError;
use gpu_dispatch::kernel::{ComputeParams, KernelParams};
use gpu_dispatch::unit::{
    scaled_len, BufferSpec, HostAccess, ImageSpec, KernelAccess, OclWrapper, TextureRef, WorkGrid,
};

const NAMES: (&str, &str, &str, &str) = ("uchar4", "convert_uchar4", "float4", "convert_float4");

fn params() -> KernelParams {
    KernelParams { height: 4, output_height: 6, stride: 16, bytes_per_pixel: 4, interpolation: 1 }
}

fn lens() -> ComputeParams {
    ComputeParams { distortion_model: "M;".to_string(), digital_lens: Some("D;".to_string()) }
}

fn describe(buffer_source: BufferSource) -> BufferDescription {
    BufferDescription {
        buffer_source,
        input_size: FrameSize { width: 4, height: 4, row_bytes: 20 },
        output_size: FrameSize { width: 8, height: 6, row_bytes: 32 },
    }
}

fn build(p: &KernelParams, buffers: &BufferDescription) -> Result<OclWrapper, GpuError> {
    OclWrapper::new(p, NAMES, "LENS_MODEL_FUNCTIONS k(PIXEL_BYTES)", &lens(), buffers, 100, 256)
}

fn upload(len: usize) -> BufferSpec {
    BufferSpec {
        len,
        kernel_access: KernelAccess::ReadOnly,
        host_access: HostAccess::WriteOnly,
        host_allocated: false,
    }
}

fn device_only(len: usize, kernel_access: KernelAccess) -> BufferSpec {
    BufferSpec { len, kernel_access, host_access: HostAccess::NoAccess, host_allocated: false }
}

#[test]
fn host_unit_is_sized_by_the_slices() {
    let buffers = describe(BufferSource::Cpu { input_len: 64, output_len: 96 });
    let unit = build(&params(), &buffers).unwrap();
    assert_eq!(unit.src, upload(64));
    assert_eq!(
        unit.dst,
        BufferSpec {
            len: 96,
            kernel_access: KernelAccess::WriteOnly,
            host_access: HostAccess::ReadOnly,
            host_allocated: true,
        }
    );
    assert_eq!(unit.image_src, None);
    assert_eq!(unit.image_dst, None);
    assert_eq!(unit.adopted_queue, None);
}

#[test]
fn auxiliary_buffers_and_grid() {
    let buffers = describe(BufferSource::Cpu { input_len: 64, output_len: 96 });
    let unit = build(&params(), &buffers).unwrap();
    assert_eq!(unit.kernel, "M;D; k(4)");
    assert_eq!(unit.global_work_size, WorkGrid { width: 8, height: 6 });
    assert_eq!(unit.buf_params, upload(256));
    assert_eq!(unit.buf_drawing, upload(100));
    // Nine coefficients for each of the six output rows.
    assert_eq!(unit.buf_matrices, upload(54));
}

#[test]
fn external_queue_unit_is_sized_by_rows() {
    let buffers = describe(BufferSource::ExternalQueue { queue: 0x10, input: 0x20, output: 0x30 });
    let unit = build(&params(), &buffers).unwrap();
    assert_eq!(unit.src, device_only(80, KernelAccess::ReadOnly));
    assert_eq!(unit.dst, device_only(192, KernelAccess::ReadWrite));
    assert_eq!(unit.adopted_queue, Some(0x10));
    assert_eq!(unit.image_src, None);
    assert_eq!(unit.image_dst, None);
}

#[test]
fn null_external_queue_is_not_adopted() {
    let buffers = describe(BufferSource::ExternalQueue { queue: 0, input: 0x20, output: 0x30 });
    let unit = build(&params(), &buffers).unwrap();
    assert_eq!(unit.adopted_queue, None);
    assert_eq!(unit.src.len, 80);
}

#[test]
fn gl_unit_has_two_images_and_staging_buffers() {
    let buffers = describe(BufferSource::SharedTextureA { context: 0x40, input: 7, output: 8 });
    let unit = build(&params(), &buffers).unwrap();
    assert_eq!(unit.src, device_only(80, KernelAccess::ReadOnly));
    assert_eq!(unit.dst, device_only(192, KernelAccess::ReadWrite));
    assert_eq!(
        unit.image_src,
        Some(ImageSpec {
            texture: TextureRef::Gl(7),
            access: KernelAccess::ReadOnly,
            width: 4,
            height: 4,
            row_pitch: 20,
        })
    );
    assert_eq!(
        unit.image_dst,
        Some(ImageSpec {
            texture: TextureRef::Gl(8),
            access: KernelAccess::WriteOnly,
            width: 8,
            height: 6,
            row_pitch: 32,
        })
    );
    assert_eq!(unit.adopted_queue, None);
}

#[test]
fn d3d11_unit_is_sized_by_pixels() {
    let buffers = describe(BufferSource::SharedTextureB { device: 0x50, input: 0x60, output: 0x70 });
    let unit = build(&params(), &buffers).unwrap();
    // 4 x 4 pixels and 8 x 6 pixels, four bytes each.
    assert_eq!(unit.src, device_only(64, KernelAccess::ReadOnly));
    assert_eq!(unit.dst, device_only(192, KernelAccess::ReadWrite));
    assert_eq!(
        unit.image_src,
        Some(ImageSpec {
            texture: TextureRef::D3d11(0x60),
            access: KernelAccess::ReadOnly,
            width: 4,
            height: 4,
            row_pitch: 20,
        })
    );
    assert_eq!(
        unit.image_dst,
        Some(ImageSpec {
            texture: TextureRef::D3d11(0x70),
            access: KernelAccess::WriteOnly,
            width: 8,
            height: 6,
            row_pitch: 32,
        })
    );
}

#[test]
fn d3d11_same_resource_shares_one_image() {
    let buffers = describe(BufferSource::SharedTextureB { device: 0x50, input: 0x60, output: 0x60 });
    let unit = build(&params(), &buffers).unwrap();
    let shared = ImageSpec {
        texture: TextureRef::D3d11(0x60),
        access: KernelAccess::ReadWrite,
        width: 4,
        height: 4,
        row_pitch: 20,
    };
    assert_eq!(unit.image_src, Some(shared));
    assert_eq!(unit.image_dst, Some(shared));
    assert_eq!(unit.src.len, 64);
    assert_eq!(unit.dst.len, 64);
}

#[test]
fn degenerate_geometry_is_rejected() {
    let buffers = describe(BufferSource::Cpu { input_len: 64, output_len: 96 });
    let cases = [
        KernelParams { height: 3, ..params() },
        KernelParams { output_height: 3, ..params() },
        KernelParams { stride: 0, ..params() },
        KernelParams { height: -4, ..params() },
        KernelParams { output_height: i32::MIN, ..params() },
        KernelParams { stride: -1, ..params() },
    ];
    for p in cases {
        assert_eq!(build(&p, &buffers), Err(GpuError::ConfigurationInvalid));
    }
}

#[test]
fn smallest_geometry_is_accepted() {
    let buffers = describe(BufferSource::Cpu { input_len: 0, output_len: 0 });
    let p = KernelParams { height: 4, output_height: 4, stride: 1, bytes_per_pixel: 0, interpolation: 0 };
    let unit = build(&p, &buffers).unwrap();
    assert_eq!(unit.buf_matrices.len, 36);
    assert_eq!(unit.src.len, 0);
}

#[test]
fn unrepresentable_lengths_are_rejected() {
    let mut buffers = describe(BufferSource::ExternalQueue { queue: 0, input: 1, output: 2 });
    buffers.input_size = FrameSize { width: 4, height: 2, row_bytes: usize::MAX };
    assert_eq!(build(&params(), &buffers), Err(GpuError::ConfigurationInvalid));
    let mut buffers = describe(BufferSource::SharedTextureA { context: 1, input: 1, output: 2 });
    buffers.output_size = FrameSize { width: 4, height: usize::MAX, row_bytes: 2 };
    assert_eq!(build(&params(), &buffers), Err(GpuError::ConfigurationInvalid));
    let mut buffers = describe(BufferSource::SharedTextureB { device: 1, input: 1, output: 2 });
    buffers.input_size = FrameSize { width: usize::MAX, height: 1, row_bytes: 2 };
    assert_eq!(build(&params(), &buffers), Err(GpuError::ConfigurationInvalid));
    // The same sizes do no harm where the slices give the lengths.
    let mut buffers = describe(BufferSource::Cpu { input_len: 64, output_len: 96 });
    buffers.input_size = FrameSize { width: usize::MAX, height: 2, row_bytes: usize::MAX };
    assert!(build(&params(), &buffers).is_ok());
}

#[test]
fn negative_bytes_per_pixel_cannot_size_a_texture() {
    let buffers = describe(BufferSource::SharedTextureB { device: 1, input: 1, output: 2 });
    let p = KernelParams { bytes_per_pixel: -4, ..params() };
    assert_eq!(build(&p, &buffers), Err(GpuError::ConfigurationInvalid));
}

#[test]
fn scaled_len_exact_values() {
    assert_eq!(scaled_len(4, 4, 4), Some(64));
    assert_eq!(scaled_len(1920, 1080, 4), Some(8_294_400));
    assert_eq!(scaled_len(7, 0, 4), Some(0));
    assert_eq!(scaled_len(7, 3, 0), Some(0));
    assert_eq!(scaled_len(usize::MAX, usize::MAX, 0), Some(0));
    assert_eq!(scaled_len(0, 5, -1), Some(0));
    assert_eq!(scaled_len(1, 1, -1), None);
    assert_eq!(scaled_len(usize::MAX, 1, 1), Some(usize::MAX));
    assert_eq!(scaled_len(usize::MAX, 1, 2), None);
    assert_eq!(scaled_len(usize::MAX, 2, 1), None);
}
