//! The compute unit: one compiled kernel bound to one set of device buffers
//! and images, described by the plain values a caller needs to create them.

use vstd::prelude::*;
use crate::buffers::{BufferDescription, BufferSource, FrameSize};
use crate::error::GpuError;
use crate::kernel::{
    compose_kernel_source, composed_source, lens_functions, ComputeParams, KernelParams,
};

verus! {

/// How the kernel may access a memory object.
#[derive(Clone, Copy, Debug, PartialEq, Eq, Structural)]
pub enum KernelAccess {
    ReadOnly,
    WriteOnly,
    ReadWrite,
}

/// How the host may access a memory object.
#[derive(Clone, Copy, Debug, PartialEq, Eq, Structural)]
pub enum HostAccess {
    WriteOnly,
    ReadOnly,
    NoAccess,
}

/// A device buffer to allocate: its length in elements and its access flags.
#[derive(Clone, Copy, Debug, PartialEq, Eq, Structural)]
pub struct BufferSpec {
    pub len: usize,
    pub kernel_access: KernelAccess,
    pub host_access: HostAccess,
    /// Whether the buffer is to be allocated in host-accessible memory.
    pub host_allocated: bool,
}

/// The texture a device image is bound to.
#[derive(Clone, Copy, Debug, PartialEq, Eq, Structural)]
pub enum TextureRef {
    /// An OpenGL-style texture id.
    Gl(u32),
    /// The address of a DirectX-style texture resource.
    D3d11(usize),
}

/// A two-dimensional device image bound to a texture of a graphics API.
#[derive(Clone, Copy, Debug, PartialEq, Eq, Structural)]
pub struct ImageSpec {
    pub texture: TextureRef,
    pub access: KernelAccess,
    pub width: usize,
    pub height: usize,
    pub row_pitch: usize,
}

impl ImageSpec {
    /// Pixels in the image: its width times its height, the depth being one.
    pub open spec fn pixel_count(&self) -> int {
        self.width as int * self.height as int
    }
}

/// The two-dimensional grid of work items a kernel runs over.
#[derive(Clone, Copy, Debug, PartialEq, Eq, Structural)]
pub struct WorkGrid {
    pub width: usize,
    pub height: usize,
}

/// The shape of a compute unit: the kernel source to compile, the work grid,
/// and every buffer and image the kernel is bound to.
///
/// The kernel takes, in this order, the source buffer, the destination
/// buffer, the parameter buffer, the matrix buffer and the overlay buffer.
#[derive(Clone, Debug, PartialEq, Eq)]
pub struct OclWrapper {
    /// Composed kernel source text.
    pub kernel: String,
    /// One work item per output pixel.
    pub global_work_size: WorkGrid,
    /// An external queue whose device and context the unit adopts.
    pub adopted_queue: Option<usize>,
    pub src: BufferSpec,
    pub dst: BufferSpec,
    pub image_src: Option<ImageSpec>,
    pub image_dst: Option<ImageSpec>,
    /// Raw bytes of the per-frame parameters.
    pub buf_params: BufferSpec,
    /// Overlay bytes drawn over the output.
    pub buf_drawing: BufferSpec,
    /// Matrix coefficients, counted in coefficients rather than bytes.
    pub buf_matrices: BufferSpec,
}

/// Frames need at least four rows on either side and a stride of at least one byte.
pub open spec fn geometry_valid(params: KernelParams) -> bool {
    params.height >= 4 && params.output_height >= 4 && params.stride >= 1
}

/// The image bound to `texture`, with the extent of `size`.
pub open spec fn image_for(texture: TextureRef, access: KernelAccess, size: FrameSize) -> ImageSpec {
    ImageSpec { texture, access, width: size.width, height: size.height, row_pitch: size.row_bytes }
}

/// The source and destination images of a unit: none without shared
/// textures; a read-only and a write-only image for two textures; one
/// read-write image, with the input's extent, where input and output are the
/// same DirectX-style resource.
pub open spec fn planned_images(buffers: BufferDescription) -> (
    Option<ImageSpec>,
    Option<ImageSpec>,
) {
    match buffers.buffer_source {
        BufferSource::SharedTextureA { input, output, .. } => (
            Some(image_for(TextureRef::Gl(input), KernelAccess::ReadOnly, buffers.input_size)),
            Some(image_for(TextureRef::Gl(output), KernelAccess::WriteOnly, buffers.output_size)),
        ),
        BufferSource::SharedTextureB { input, output, .. } => if input == output {
            (
                Some(
                    image_for(TextureRef::D3d11(input), KernelAccess::ReadWrite, buffers.input_size),
                ),
                Some(
                    image_for(TextureRef::D3d11(input), KernelAccess::ReadWrite, buffers.input_size),
                ),
            )
        } else {
            (
                Some(
                    image_for(TextureRef::D3d11(input), KernelAccess::ReadOnly, buffers.input_size),
                ),
                Some(
                    image_for(
                        TextureRef::D3d11(output),
                        KernelAccess::WriteOnly,
                        buffers.output_size,
                    ),
                ),
            )
        },
        _ => (None, None),
    }
}

/// Byte lengths of the source and destination buffers: the caller's slice
/// lengths for host memory; the image's pixel count times the bytes per pixel
/// for DirectX-style textures; bytes per row times rows otherwise.
pub open spec fn staging_bytes(params: KernelParams, buffers: BufferDescription) -> (int, int) {
    match buffers.buffer_source {
        BufferSource::Cpu { input_len, output_len } => (input_len as int, output_len as int),
        BufferSource::SharedTextureB { .. } => (
            planned_images(buffers).0->0.pixel_count() * params.bytes_per_pixel,
            planned_images(buffers).1->0.pixel_count() * params.bytes_per_pixel,
        ),
        _ => (buffers.input_size.byte_count(), buffers.output_size.byte_count()),
    }
}

/// Coefficients the matrix buffer holds: nine for each output row.
pub open spec fn matrix_capacity(params: KernelParams) -> int {
    9 * params.output_height
}

/// Every length of the unit can be represented.
pub open spec fn representable(params: KernelParams, buffers: BufferDescription) -> bool {
    &&& 0 <= staging_bytes(params, buffers).0 <= usize::MAX
    &&& 0 <= staging_bytes(params, buffers).1 <= usize::MAX
    &&& matrix_capacity(params) <= usize::MAX
}

/// A buffer the host fills and the kernel reads.
pub open spec fn upload_buffer(len: usize) -> BufferSpec {
    BufferSpec {
        len,
        kernel_access: KernelAccess::ReadOnly,
        host_access: HostAccess::WriteOnly,
        host_allocated: false,
    }
}

/// The source buffer: read by the kernel; written by the host for host
/// memory, out of the host's reach otherwise.
pub open spec fn source_buffer(len: usize, source: BufferSource) -> BufferSpec {
    BufferSpec {
        len,
        kernel_access: KernelAccess::ReadOnly,
        host_access: if source is Cpu {
            HostAccess::WriteOnly
        } else {
            HostAccess::NoAccess
        },
        host_allocated: false,
    }
}

/// The destination buffer: for host memory write-only for the kernel, read
/// by the host and allocated in host-accessible memory; read-write for the
/// kernel and out of the host's reach otherwise.
pub open spec fn destination_buffer(len: usize, source: BufferSource) -> BufferSpec {
    if source is Cpu {
        BufferSpec {
            len,
            kernel_access: KernelAccess::WriteOnly,
            host_access: HostAccess::ReadOnly,
            host_allocated: true,
        }
    } else {
        BufferSpec {
            len,
            kernel_access: KernelAccess::ReadWrite,
            host_access: HostAccess::NoAccess,
            host_allocated: false,
        }
    }
}

/// The external queue a unit adopts: the one supplied, unless it is null.
pub open spec fn adopted_queue_of(source: BufferSource) -> Option<usize> {
    match source {
        BufferSource::ExternalQueue { queue, .. } => if queue != 0 {
            Some(queue)
        } else {
            None
        },
        _ => None,
    }
}

/// `width * height * scale`, or `None` when that is negative or does not fit.
pub fn scaled_len(width: usize, height: usize, scale: i32) -> (len: Option<usize>)
    ensures
        len == (if 0 <= width as int * height as int * scale as int <= usize::MAX {
            Some((width as int * height as int * scale as int) as usize)
        } else {
            None
        }),
{
    let ghost w = width as int;
    let ghost h = height as int;
    let ghost s = scale as int;
    if scale < 0 {
        if width == 0 || height == 0 {
            assert(w * h * s == 0) by (nonlinear_arith)
                requires
                    w == 0 || h == 0,
            ;
            Some(0)
        } else {
            assert(w * h * s < 0) by (nonlinear_arith)
                requires
                    w > 0,
                    h > 0,
                    s < 0,
            ;
            None
        }
    } else if scale == 0 {
        assert(w * h * s == 0) by (nonlinear_arith)
            requires
                s == 0,
        ;
        Some(0)
    } else {
        match width.checked_mul(height) {
            Some(pixels) => {
                let len = pixels.checked_mul(scale as usize);
                len
            },
            None => {
                assert(w * h * s > usize::MAX) by (nonlinear_arith)
                    requires
                        w * h > usize::MAX,
                        s >= 1,
                ;
                None
            },
        }
    }
}

impl OclWrapper {
    /// `self` is the unit for the given parameters, names, template, lens
    /// models, buffers and auxiliary lengths.
    pub open spec fn built_for(
        &self,
        params: KernelParams,
        names: (Seq<char>, Seq<char>, Seq<char>, Seq<char>),
        template: Seq<char>,
        compute: ComputeParams,
        buffers: BufferDescription,
        drawing_len: usize,
        params_len: usize,
    ) -> bool {
        &&& self.kernel@ == composed_source(
            template,
            names,
            params.bytes_per_pixel as int,
            params.interpolation as int,
            lens_functions(compute),
        )
        &&& self.global_work_size == WorkGrid {
            width: buffers.output_size.width,
            height: buffers.output_size.height,
        }
        &&& self.adopted_queue == adopted_queue_of(buffers.buffer_source)
        &&& self.src == source_buffer(
            staging_bytes(params, buffers).0 as usize,
            buffers.buffer_source,
        )
        &&& self.dst == destination_buffer(
            staging_bytes(params, buffers).1 as usize,
            buffers.buffer_source,
        )
        &&& self.image_src == planned_images(buffers).0
        &&& self.image_dst == planned_images(buffers).1
        &&& self.buf_params == upload_buffer(params_len)
        &&& self.buf_drawing == upload_buffer(drawing_len)
        &&& self.buf_matrices == upload_buffer(matrix_capacity(params) as usize)
    }

    /// Plans a compute unit: composes the kernel source and fixes the length
    /// and access of every buffer and image.
    ///
    /// `params_len` is the byte length of the raw parameter block and
    /// `drawing_len` that of the overlay. Fails with `ConfigurationInvalid`
    /// exactly when the geometry is degenerate or a length cannot be
    /// represented.
    pub fn new(
        params: &KernelParams,
        ocl_names: (&str, &str, &str, &str),
        template: &str,
        compute_params: &ComputeParams,
        buffers: &BufferDescription,
        drawing_len: usize,
        params_len: usize,
    ) -> (r: Result<OclWrapper, GpuError>)
        ensures
            r is Ok <==> geometry_valid(*params) && representable(*params, *buffers),
            r matches Ok(unit) ==> unit.built_for(
                *params,
                (ocl_names.0@, ocl_names.1@, ocl_names.2@, ocl_names.3@),
                template@,
                *compute_params,
                *buffers,
                drawing_len,
                params_len,
            ),
            r matches Err(e) ==> e == GpuError::ConfigurationInvalid,
    {
        if params.height < 4 || params.output_height < 4 || params.stride < 1 {
            return Err(GpuError::ConfigurationInvalid);
        }
        let kernel = compose_kernel_source(template, ocl_names, params, compute_params);
        let input_size = buffers.input_size;
        let output_size = buffers.output_size;
        let mut image_src: Option<ImageSpec> = None;
        let mut image_dst: Option<ImageSpec> = None;
        let mut adopted_queue: Option<usize> = None;
        let lens: (Option<usize>, Option<usize>) = match buffers.buffer_source {
            BufferSource::Cpu { input_len, output_len } => (Some(input_len), Some(output_len)),
            BufferSource::ExternalQueue { queue, .. } => {
                if queue != 0 {
                    adopted_queue = Some(queue);
                }
                (input_size.byte_len(), output_size.byte_len())
            },
            BufferSource::SharedTextureA { input, output, .. } => {
                image_src = Some(
                    ImageSpec {
                        texture: TextureRef::Gl(input),
                        access: KernelAccess::ReadOnly,
                        width: input_size.width,
                        height: input_size.height,
                        row_pitch: input_size.row_bytes,
                    },
                );
                image_dst = Some(
                    ImageSpec {
                        texture: TextureRef::Gl(output),
                        access: KernelAccess::WriteOnly,
                        width: output_size.width,
                        height: output_size.height,
                        row_pitch: output_size.row_bytes,
                    },
                );
                (input_size.byte_len(), output_size.byte_len())
            },
            BufferSource::SharedTextureB { input, output, .. } => {
                if input == output {
                    let shared = ImageSpec {
                        texture: TextureRef::D3d11(input),
                        access: KernelAccess::ReadWrite,
                        width: input_size.width,
                        height: input_size.height,
                        row_pitch: input_size.row_bytes,
                    };
                    image_src = Some(shared);
                    image_dst = Some(shared);
                    (
                        scaled_len(shared.width, shared.height, params.bytes_per_pixel),
                        scaled_len(shared.width, shared.height, params.bytes_per_pixel),
                    )
                } else {
                    image_src = Some(
                        ImageSpec {
                            texture: TextureRef::D3d11(input),
                            access: KernelAccess::ReadOnly,
                            width: input_size.width,
                            height: input_size.height,
                            row_pitch: input_size.row_bytes,
                        },
                    );
                    image_dst = Some(
                        ImageSpec {
                            texture: TextureRef::D3d11(output),
                            access: KernelAccess::WriteOnly,
                            width: output_size.width,
                            height: output_size.height,
                            row_pitch: output_size.row_bytes,
                        },
                    );
                    (
                        scaled_len(input_size.width, input_size.height, params.bytes_per_pixel),
                        scaled_len(output_size.width, output_size.height, params.bytes_per_pixel),
                    )
                }
            },
        };
        let is_cpu = match buffers.buffer_source {
            BufferSource::Cpu { .. } => true,
            _ => false,
        };
        let rows: usize = params.output_height as usize;
        match (lens.0, lens.1, rows.checked_mul(9)) {
            (Some(src_len), Some(dst_len), Some(coefficients)) => {
                let upload = BufferSpec {
                    len: 0,
                    kernel_access: KernelAccess::ReadOnly,
                    host_access: HostAccess::WriteOnly,
                    host_allocated: false,
                };
                Ok(
                    OclWrapper {
                        kernel,
                        global_work_size: WorkGrid {
                            width: output_size.width,
                            height: output_size.height,
                        },
                        adopted_queue,
                        src: BufferSpec {
                            len: src_len,
                            kernel_access: KernelAccess::ReadOnly,
                            host_access: if is_cpu {
                                HostAccess::WriteOnly
                            } else {
                                HostAccess::NoAccess
                            },
                            host_allocated: false,
                        },
                        dst: BufferSpec {
                            len: dst_len,
                            kernel_access: if is_cpu {
                                KernelAccess::WriteOnly
                            } else {
                                KernelAccess::ReadWrite
                            },
                            host_access: if is_cpu {
                                HostAccess::ReadOnly
                            } else {
                                HostAccess::NoAccess
                            },
                            host_allocated: is_cpu,
                        },
                        image_src,
                        image_dst,
                        buf_params: BufferSpec { len: params_len, ..upload },
                        buf_drawing: BufferSpec { len: drawing_len, ..upload },
                        buf_matrices: BufferSpec { len: coefficients, ..upload },
                    },
                )
            },
            _ => Err(GpuError::ConfigurationInvalid),
        }
    }
}

} // verus!
