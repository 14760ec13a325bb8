//! The per-frame procedure: validate, upload, acquire, run, retrieve.
//!
//! A frame is planned as a sequence of device commands. A frame whose sizes
//! do not match the compute unit is skipped: its plan stops before any
//! command that could touch the output.

use vstd::prelude::*;
use crate::buffers::{BufferDescription, BufferSource};
use crate::error::GpuError;
use crate::kernel::KernelParams;
use crate::kernel::ComputeParams;
use crate::unit::{geometry_valid, representable, scaled_len, ImageSpec, OclWrapper};

verus! {

/// What changes from frame to frame: the scalar parameters and the number of
/// 3x3 row-correction matrices.
#[derive(Clone, Copy, Debug, PartialEq, Eq, Structural)]
pub struct FrameTransform {
    pub kernel_params: KernelParams,
    pub matrix_count: usize,
}

/// The length that did not match; the frame is skipped, the stream goes on.
#[derive(Clone, Copy, Debug, PartialEq, Eq, Structural)]
pub enum SizeMismatch {
    /// The matrix buffer holds fewer than nine coefficients per matrix.
    Matrices,
    /// The source image's byte length differs from the source buffer's.
    SourceImage,
    /// The destination image's byte length differs from the destination buffer's.
    DestinationImage,
    /// The overlay's length differs from the overlay buffer's.
    Overlay,
    /// The caller's input length differs from the source buffer's.
    Input,
    /// The caller's output length differs from the destination buffer's.
    Output,
}

/// The graphics API a shared texture belongs to.
#[derive(Clone, Copy, Debug, PartialEq, Eq, Structural)]
pub enum GraphicsApi {
    Gl,
    D3d11,
}

/// One device command of a frame.
#[derive(Clone, Copy, Debug, PartialEq, Eq, Structural)]
pub enum Command {
    /// Write the overlay bytes to the overlay buffer.
    WriteOverlay,
    /// Write the caller's input bytes to the source buffer.
    WriteInput,
    /// Bind the kernel's source and destination arguments to external memory.
    BindExternalMemory { input: usize, output: usize },
    /// Take the source texture over from the graphics API.
    AcquireSource(GraphicsApi),
    /// Copy the source image into the source buffer.
    CopySourceToBuffer,
    /// Hand the source texture back to the graphics API.
    ReleaseSource(GraphicsApi),
    /// Write the raw parameter block to the parameter buffer.
    WriteParams,
    /// Write all matrices to the matrix buffer.
    WriteMatrices,
    /// Run the kernel over the work grid.
    EnqueueKernel,
    /// Read the destination buffer into the caller's output bytes.
    ReadOutput,
    /// Take the destination texture over from the graphics API.
    AcquireDestination(GraphicsApi),
    /// Copy the destination buffer into the destination image.
    CopyBufferToDestination,
    /// Hand the destination texture back to the graphics API.
    ReleaseDestination(GraphicsApi),
}

/// A command and whether its failure ends the frame. The failure of a command
/// that need not succeed is ignored.
#[derive(Clone, Copy, Debug, PartialEq, Eq, Structural)]
pub struct Step {
    pub command: Command,
    pub must_succeed: bool,
}

/// The commands of one frame, in order, and the mismatch that cut it short.
#[derive(Debug, PartialEq, Eq)]
pub struct FramePlan {
    pub steps: Vec<Step>,
    pub skipped: Option<SizeMismatch>,
}

/// What to do next while carrying out a plan.
#[derive(Clone, Copy, Debug, PartialEq, Eq, Structural)]
pub enum Progress {
    /// Carry out the step with this index.
    Perform(usize),
    /// Every step is done.
    Completed,
    /// A step that had to succeed failed.
    Failed(GpuError),
}

/// A step whose failure ends the frame.
pub open spec fn required(command: Command) -> Step {
    Step { command, must_succeed: true }
}

/// A step whose failure is ignored.
pub open spec fn optional(command: Command) -> Step {
    Step { command, must_succeed: false }
}

/// An image is present and its pixel count times the bytes per pixel differs
/// from the buffer length.
pub open spec fn image_mismatch(image: Option<ImageSpec>, bytes_per_pixel: int, len: usize) -> bool {
    match image {
        Some(img) => img.pixel_count() * bytes_per_pixel != len,
        None => false,
    }
}

/// The first mismatch among those checked before anything is uploaded:
/// matrices, source image, destination image, overlay.
pub open spec fn early_mismatch(unit: OclWrapper, frame: FrameTransform, overlay_len: usize) -> Option<
    SizeMismatch,
> {
    if unit.buf_matrices.len < frame.matrix_count * 9 {
        Some(SizeMismatch::Matrices)
    } else if image_mismatch(
        unit.image_src,
        frame.kernel_params.bytes_per_pixel as int,
        unit.src.len,
    ) {
        Some(SizeMismatch::SourceImage)
    } else if image_mismatch(
        unit.image_dst,
        frame.kernel_params.bytes_per_pixel as int,
        unit.dst.len,
    ) {
        Some(SizeMismatch::DestinationImage)
    } else if overlay_len != 0 && unit.buf_drawing.len != overlay_len {
        Some(SizeMismatch::Overlay)
    } else {
        None
    }
}

/// The mismatch between the caller's host memory and the unit's buffers,
/// checked once the overlay is uploaded.
pub open spec fn host_mismatch(unit: OclWrapper, source: BufferSource) -> Option<SizeMismatch> {
    match source {
        BufferSource::Cpu { input_len, output_len } => if unit.src.len != input_len {
            Some(SizeMismatch::Input)
        } else if unit.dst.len != output_len {
            Some(SizeMismatch::Output)
        } else {
            None
        },
        _ => None,
    }
}

/// The first mismatch of the frame, if any.
pub open spec fn frame_mismatch(
    unit: OclWrapper,
    buffers: BufferDescription,
    frame: FrameTransform,
    overlay_len: usize,
) -> Option<SizeMismatch> {
    match early_mismatch(unit, frame, overlay_len) {
        Some(m) => Some(m),
        None => host_mismatch(unit, buffers.buffer_source),
    }
}

/// The overlay upload: present when the early checks pass and there is an overlay.
pub open spec fn overlay_steps(unit: OclWrapper, frame: FrameTransform, overlay_len: usize) -> Seq<
    Step,
> {
    if early_mismatch(unit, frame, overlay_len) is None && overlay_len != 0 {
        seq![required(Command::WriteOverlay)]
    } else {
        Seq::empty()
    }
}

/// How the input reaches the source buffer.
pub open spec fn acquire_steps(unit: OclWrapper, source: BufferSource) -> Seq<Step> {
    match source {
        BufferSource::Cpu { .. } => seq![required(Command::WriteInput)],
        BufferSource::ExternalQueue { input, output, .. } => seq![
            required(Command::BindExternalMemory { input, output }),
        ],
        BufferSource::SharedTextureA { .. } => if unit.image_src is Some {
            seq![
                required(Command::AcquireSource(GraphicsApi::Gl)),
                optional(Command::CopySourceToBuffer),
                required(Command::ReleaseSource(GraphicsApi::Gl)),
            ]
        } else {
            Seq::empty()
        },
        BufferSource::SharedTextureB { .. } => if unit.image_src is Some {
            seq![
                required(Command::AcquireSource(GraphicsApi::D3d11)),
                optional(Command::CopySourceToBuffer),
                required(Command::ReleaseSource(GraphicsApi::D3d11)),
            ]
        } else {
            Seq::empty()
        },
    }
}

/// The per-frame scalars, the matrices, then the kernel.
pub open spec fn run_steps() -> Seq<Step> {
    seq![
        required(Command::WriteParams),
        required(Command::WriteMatrices),
        required(Command::EnqueueKernel),
    ]
}

/// How the output leaves the destination buffer.
pub open spec fn retrieve_steps(unit: OclWrapper, source: BufferSource) -> Seq<Step> {
    match source {
        BufferSource::Cpu { .. } => seq![required(Command::ReadOutput)],
        BufferSource::ExternalQueue { .. } => Seq::empty(),
        BufferSource::SharedTextureA { .. } => if unit.image_dst is Some {
            seq![
                required(Command::AcquireDestination(GraphicsApi::Gl)),
                optional(Command::CopyBufferToDestination),
                required(Command::ReleaseDestination(GraphicsApi::Gl)),
            ]
        } else {
            Seq::empty()
        },
        BufferSource::SharedTextureB { .. } => if unit.image_dst is Some {
            seq![
                required(Command::AcquireDestination(GraphicsApi::D3d11)),
                optional(Command::CopyBufferToDestination),
                required(Command::ReleaseDestination(GraphicsApi::D3d11)),
            ]
        } else {
            Seq::empty()
        },
    }
}

/// The commands of a frame: the overlay upload, then, unless the frame is
/// skipped, input, scalars, kernel and output, in that order.
pub open spec fn frame_steps(
    unit: OclWrapper,
    buffers: BufferDescription,
    frame: FrameTransform,
    overlay_len: usize,
) -> Seq<Step> {
    if frame_mismatch(unit, buffers, frame, overlay_len) is None {
        overlay_steps(unit, frame, overlay_len) + acquire_steps(unit, buffers.buffer_source)
            + run_steps() + retrieve_steps(unit, buffers.buffer_source)
    } else {
        overlay_steps(unit, frame, overlay_len)
    }
}

/// The command may change what the caller sees as output.
pub open spec fn touches_output(command: Command) -> bool {
    command is EnqueueKernel || command is ReadOutput || command is CopyBufferToDestination
}

/// The command belongs to the part of a frame that precedes the kernel.
pub open spec fn is_upload(command: Command) -> bool {
    !(command is EnqueueKernel) && !is_retrieval(command)
}

/// The command belongs to the part of a frame that follows the kernel.
pub open spec fn is_retrieval(command: Command) -> bool {
    command is ReadOutput || command is AcquireDestination || command
        is CopyBufferToDestination || command is ReleaseDestination
}

/// The step at `k` takes a texture over, the next one may fail without
/// ending the frame, and the one after hands the same texture back.
pub open spec fn bracket_at(steps: Seq<Step>, k: int) -> bool {
    &&& k + 2 < steps.len()
    &&& !steps[k + 1].must_succeed
    &&& match steps[k].command {
        Command::AcquireSource(api) => steps[k + 1].command is CopySourceToBuffer && steps[k
            + 2].command == Command::ReleaseSource(api),
        Command::AcquireDestination(api) => steps[k + 1].command is CopyBufferToDestination
            && steps[k + 2].command == Command::ReleaseDestination(api),
        _ => false,
    }
}

fn image_differs(image: &Option<ImageSpec>, bytes_per_pixel: i32, len: usize) -> (differs: bool)
    ensures
        differs == image_mismatch(*image, bytes_per_pixel as int, len),
{
    match image {
        Some(img) => match scaled_len(img.width, img.height, bytes_per_pixel) {
            Some(bytes) => bytes != len,
            None => true,
        },
        None => false,
    }
}

fn push_bracket(steps: &mut Vec<Step>, acquire: Command, copy: Command, release: Command)
    ensures
        final(steps)@ == old(steps)@ + seq![required(acquire), optional(copy), required(release)],
{
    steps.push(Step { command: acquire, must_succeed: true });
    steps.push(Step { command: copy, must_succeed: false });
    steps.push(Step { command: release, must_succeed: true });
    assert(steps@ =~= old(steps)@ + seq![required(acquire), optional(copy), required(release)]);
}

impl FramePlan {
    /// What follows the step at `at`, given how it ended: the failure of a
    /// step that had to succeed ends the frame with the native status code;
    /// otherwise the next step is due, or the frame is complete.
    pub open spec fn after(&self, at: usize, status: Result<(), i32>) -> Progress {
        if at >= self.steps@.len() {
            Progress::Completed
        } else if status is Err && self.steps@[at as int].must_succeed {
            Progress::Failed(GpuError::DeviceApiFailure(status->Err_0))
        } else if at + 1 < self.steps@.len() {
            Progress::Perform((at + 1) as usize)
        } else {
            Progress::Completed
        }
    }

    /// Where the plan starts.
    pub fn first(&self) -> (next: Progress)
        ensures
            next == (if self.steps@.len() > 0 {
                Progress::Perform(0)
            } else {
                Progress::Completed
            }),
    {
        if self.steps.len() > 0 {
            Progress::Perform(0)
        } else {
            Progress::Completed
        }
    }

    /// What follows the step at `at`, given how it ended.
    pub fn advance(&self, at: usize, status: Result<(), i32>) -> (next: Progress)
        ensures
            next == self.after(at, status),
    {
        if at >= self.steps.len() {
            return Progress::Completed;
        }
        match status {
            Err(code) => {
                if self.steps[at].must_succeed {
                    return Progress::Failed(GpuError::DeviceApiFailure(code));
                }
            },
            Ok(_) => {},
        }
        if at + 1 < self.steps.len() {
            Progress::Perform(at + 1)
        } else {
            Progress::Completed
        }
    }
}

impl OclWrapper {
    /// Plans one frame for this unit.
    ///
    /// `overlay_len` is the byte length of the overlay, zero for none. The
    /// checks are made in a fixed order; the first that fails skips the
    /// frame. Only the host-memory lengths are checked after the overlay
    /// upload, so a frame skipped on their account still uploads its overlay.
    pub fn undistort_image(
        &self,
        buffers: &BufferDescription,
        itm: &FrameTransform,
        overlay_len: usize,
    ) -> (plan: FramePlan)
        ensures
            plan.skipped == frame_mismatch(*self, *buffers, *itm, overlay_len),
            plan.steps@ == frame_steps(*self, *buffers, *itm, overlay_len),
    {
        let mut steps: Vec<Step> = Vec::new();
        let needed = itm.matrix_count.checked_mul(9);
        let short = match needed {
            Some(n) => self.buf_matrices.len < n,
            None => true,
        };
        if short {
            return FramePlan { steps, skipped: Some(SizeMismatch::Matrices) };
        }
        if image_differs(&self.image_src, itm.kernel_params.bytes_per_pixel, self.src.len) {
            return FramePlan { steps, skipped: Some(SizeMismatch::SourceImage) };
        }
        if image_differs(&self.image_dst, itm.kernel_params.bytes_per_pixel, self.dst.len) {
            return FramePlan { steps, skipped: Some(SizeMismatch::DestinationImage) };
        }
        if overlay_len != 0 {
            if self.buf_drawing.len != overlay_len {
                return FramePlan { steps, skipped: Some(SizeMismatch::Overlay) };
            }
            steps.push(Step { command: Command::WriteOverlay, must_succeed: true });
        }
        assert(steps@ =~= overlay_steps(*self, *itm, overlay_len));
        let ghost uploaded = steps@;
        match buffers.buffer_source {
            BufferSource::Cpu { input_len, output_len } => {
                if self.src.len != input_len {
                    return FramePlan { steps, skipped: Some(SizeMismatch::Input) };
                }
                if self.dst.len != output_len {
                    return FramePlan { steps, skipped: Some(SizeMismatch::Output) };
                }
                steps.push(Step { command: Command::WriteInput, must_succeed: true });
            },
            BufferSource::ExternalQueue { input, output, .. } => {
                steps.push(
                    Step {
                        command: Command::BindExternalMemory { input, output },
                        must_succeed: true,
                    },
                );
            },
            BufferSource::SharedTextureA { .. } => {
                if self.image_src.is_some() {
                    push_bracket(
                        &mut steps,
                        Command::AcquireSource(GraphicsApi::Gl),
                        Command::CopySourceToBuffer,
                        Command::ReleaseSource(GraphicsApi::Gl),
                    );
                }
            },
            BufferSource::SharedTextureB { .. } => {
                if self.image_src.is_some() {
                    push_bracket(
                        &mut steps,
                        Command::AcquireSource(GraphicsApi::D3d11),
                        Command::CopySourceToBuffer,
                        Command::ReleaseSource(GraphicsApi::D3d11),
                    );
                }
            },
        }
        assert(steps@ =~= uploaded + acquire_steps(*self, buffers.buffer_source));
        steps.push(Step { command: Command::WriteParams, must_succeed: true });
        steps.push(Step { command: Command::WriteMatrices, must_succeed: true });
        steps.push(Step { command: Command::EnqueueKernel, must_succeed: true });
        assert(steps@ =~= uploaded + acquire_steps(*self, buffers.buffer_source) + run_steps());
        let ghost ran = steps@;
        match buffers.buffer_source {
            BufferSource::Cpu { .. } => {
                steps.push(Step { command: Command::ReadOutput, must_succeed: true });
            },
            BufferSource::ExternalQueue { .. } => {},
            BufferSource::SharedTextureA { .. } => {
                if self.image_dst.is_some() {
                    push_bracket(
                        &mut steps,
                        Command::AcquireDestination(GraphicsApi::Gl),
                        Command::CopyBufferToDestination,
                        Command::ReleaseDestination(GraphicsApi::Gl),
                    );
                }
            },
            BufferSource::SharedTextureB { .. } => {
                if self.image_dst.is_some() {
                    push_bracket(
                        &mut steps,
                        Command::AcquireDestination(GraphicsApi::D3d11),
                        Command::CopyBufferToDestination,
                        Command::ReleaseDestination(GraphicsApi::D3d11),
                    );
                }
            },
        }
        assert(steps@ =~= ran + retrieve_steps(*self, buffers.buffer_source));
        FramePlan { steps, skipped: None }
    }
}

/// A frame is carried out only when every length matches: the matrices fit,
/// each image present fills its staging buffer exactly, an overlay has the
/// length of the overlay buffer, and host slices have the lengths of the
/// source and destination buffers.
pub proof fn lemma_dispatch_implies_matching_lengths(
    unit: OclWrapper,
    buffers: BufferDescription,
    frame: FrameTransform,
    overlay_len: usize,
)
    requires
        frame_mismatch(unit, buffers, frame, overlay_len) is None,
    ensures
        frame.matrix_count * 9 <= unit.buf_matrices.len,
        unit.image_src matches Some(img) ==> img.pixel_count()
            * frame.kernel_params.bytes_per_pixel == unit.src.len,
        unit.image_dst matches Some(img) ==> img.pixel_count()
            * frame.kernel_params.bytes_per_pixel == unit.dst.len,
        overlay_len == 0 || overlay_len == unit.buf_drawing.len,
        buffers.buffer_source matches BufferSource::Cpu { input_len, output_len } ==> input_len
            == unit.src.len && output_len == unit.dst.len,
{
}

/// A unit accepts the frames it was built for: with the buffers and the
/// bytes per pixel it was built with, at most one matrix per output row, and
/// an overlay that is absent or has the planned length, no frame is skipped.
/// Textures of an OpenGL-style context are left out: their staging buffers
/// hold whole rows, which padded rows make longer than the image.
pub proof fn lemma_unit_accepts_its_frames(
    unit: OclWrapper,
    params: KernelParams,
    names: (Seq<char>, Seq<char>, Seq<char>, Seq<char>),
    template: Seq<char>,
    compute: ComputeParams,
    buffers: BufferDescription,
    drawing_len: usize,
    params_len: usize,
    frame: FrameTransform,
    overlay_len: usize,
)
    requires
        geometry_valid(params),
        representable(params, buffers),
        unit.built_for(params, names, template, compute, buffers, drawing_len, params_len),
        !(buffers.buffer_source is SharedTextureA),
        frame.kernel_params.bytes_per_pixel == params.bytes_per_pixel,
        frame.matrix_count <= params.output_height,
        overlay_len == 0 || overlay_len == drawing_len,
    ensures
        frame_mismatch(unit, buffers, frame, overlay_len) is None,
{
}

/// A skipped frame never touches the output: its plan holds at most the
/// overlay upload.
pub proof fn lemma_skipped_frame_leaves_output(
    unit: OclWrapper,
    buffers: BufferDescription,
    frame: FrameTransform,
    overlay_len: usize,
)
    requires
        frame_mismatch(unit, buffers, frame, overlay_len) is Some,
    ensures
        forall|k: int|
            0 <= k < frame_steps(unit, buffers, frame, overlay_len).len() ==> (
            #[trigger] frame_steps(unit, buffers, frame, overlay_len)[k]).command
                is WriteOverlay,
        forall|k: int|
            0 <= k < frame_steps(unit, buffers, frame, overlay_len).len() ==> !touches_output(
                (#[trigger] frame_steps(unit, buffers, frame, overlay_len)[k]).command,
            ),
{
}

/// With host memory, an output length that differs from the destination
/// buffer's skips the frame, and nothing in its plan touches the output.
pub proof fn lemma_output_mismatch_skips_frame(
    unit: OclWrapper,
    buffers: BufferDescription,
    frame: FrameTransform,
    overlay_len: usize,
)
    requires
        buffers.buffer_source matches BufferSource::Cpu { output_len, .. } && output_len
            != unit.dst.len,
    ensures
        frame_mismatch(unit, buffers, frame, overlay_len) is Some,
        forall|k: int|
            0 <= k < frame_steps(unit, buffers, frame, overlay_len).len() ==> !touches_output(
                (#[trigger] frame_steps(unit, buffers, frame, overlay_len)[k]).command,
            ),
{
    lemma_skipped_frame_leaves_output(unit, buffers, frame, overlay_len);
}

/// An overlay whose length differs from the overlay buffer's skips the frame
/// before anything is written: the plan is empty.
pub proof fn lemma_overlay_mismatch_writes_nothing(
    unit: OclWrapper,
    buffers: BufferDescription,
    frame: FrameTransform,
    overlay_len: usize,
)
    requires
        overlay_len != 0,
        overlay_len != unit.buf_drawing.len,
    ensures
        frame_mismatch(unit, buffers, frame, overlay_len) is Some,
        frame_steps(unit, buffers, frame, overlay_len).len() == 0,
{
}

/// Every texture that a plan takes over is handed back two steps later, and
/// the step in between cannot end the frame.
pub proof fn lemma_acquired_textures_are_released(
    unit: OclWrapper,
    buffers: BufferDescription,
    frame: FrameTransform,
    overlay_len: usize,
    k: int,
)
    requires
        0 <= k < frame_steps(unit, buffers, frame, overlay_len).len(),
        frame_steps(unit, buffers, frame, overlay_len)[k].command is AcquireSource
            || frame_steps(unit, buffers, frame, overlay_len)[k].command is AcquireDestination,
    ensures
        bracket_at(frame_steps(unit, buffers, frame, overlay_len), k),
{
    let steps = frame_steps(unit, buffers, frame, overlay_len);
    let a = overlay_steps(unit, frame, overlay_len);
    let b = acquire_steps(unit, buffers.buffer_source);
    let c = run_steps();
    let d = retrieve_steps(unit, buffers.buffer_source);
    if frame_mismatch(unit, buffers, frame, overlay_len) is None {
        assert(steps == a + b + c + d);
        if k < a.len() {
            assert(steps[k] == a[k]);
        } else if k < a.len() + b.len() {
            assert(steps[k] == b[k - a.len()]);
            assert(b.len() == 3 ==> steps[k + 1] == b[1] && steps[k + 2] == b[2]);
        } else if k < a.len() + b.len() + c.len() {
            assert(steps[k] == c[k - a.len() - b.len()]);
        } else {
            assert(steps[k] == d[k - a.len() - b.len() - c.len()]);
            assert(d.len() == 3 ==> steps[k + 1] == d[1] && steps[k + 2] == d[2]);
        }
    } else {
        assert(steps[k] == a[k]);
    }
}

/// A frame that is not skipped runs the kernel exactly once, after every
/// upload and before every retrieval.
pub proof fn lemma_kernel_runs_between_upload_and_retrieval(
    unit: OclWrapper,
    buffers: BufferDescription,
    frame: FrameTransform,
    overlay_len: usize,
)
    requires
        frame_mismatch(unit, buffers, frame, overlay_len) is None,
    ensures
        ({
            let steps = frame_steps(unit, buffers, frame, overlay_len);
            let at = (overlay_steps(unit, frame, overlay_len).len() + acquire_steps(
                unit,
                buffers.buffer_source,
            ).len() + 2) as int;
            &&& at < steps.len()
            &&& steps[at] == required(Command::EnqueueKernel)
            &&& forall|k: int| 0 <= k < at ==> is_upload((#[trigger] steps[k]).command)
            &&& forall|k: int| at < k < steps.len() ==> is_retrieval((#[trigger] steps[k]).command)
        }),
{
    let steps = frame_steps(unit, buffers, frame, overlay_len);
    let a = overlay_steps(unit, frame, overlay_len);
    let b = acquire_steps(unit, buffers.buffer_source);
    let c = run_steps();
    let d = retrieve_steps(unit, buffers.buffer_source);
    let at = (a.len() + b.len() + 2) as int;
    assert(steps == a + b + c + d);
    assert(steps[at] == c[2]);
    assert forall|k: int| 0 <= k < at implies is_upload((#[trigger] steps[k]).command) by {
        if k < a.len() {
            assert(steps[k] == a[k]);
        } else if k < a.len() + b.len() {
            assert(steps[k] == b[k - a.len()]);
        } else {
            assert(steps[k] == c[k - a.len() - b.len()]);
        }
    }
    assert forall|k: int| at < k < steps.len() implies is_retrieval(
        (#[trigger] steps[k]).command,
    ) by {
        assert(steps[k] == d[k - a.len() - b.len() - c.len()]);
    }
}

} // verus!
