//! The active compute context and the rule that decides when it is rebuilt.

use vstd::prelude::*;
use crate::buffers::{BufferDescription, BufferSource};
use crate::unit::OclWrapper;

verus! {

/// Interop properties a compute context is created with.
#[derive(Clone, Copy, Debug, PartialEq, Eq, Structural)]
pub enum ContextProperties {
    /// No interop.
    Plain,
    /// Sharing with the current OpenGL-style graphics context.
    GlSharing,
    /// Sharing with the DirectX-style device at the given address.
    D3d11Device(usize),
}

/// The active context: which device of which platform it was built for, the
/// properties it was built with, and the checksum of the surface it serves.
///
/// `platform` indexes the enumerated platforms, `device` the devices of that
/// platform.
#[derive(Clone, Debug, PartialEq, Eq)]
pub struct CtxWrapper {
    pub device: usize,
    pub context: ContextProperties,
    pub platform: usize,
    /// The device's name, when the driver reported one.
    pub device_name: Option<String>,
    pub surface_checksum: u32,
}

/// The interop properties that suit a buffer source.
pub open spec fn properties_of(source: BufferSource) -> ContextProperties {
    match source {
        BufferSource::SharedTextureA { .. } => ContextProperties::GlSharing,
        BufferSource::SharedTextureB { device, .. } => ContextProperties::D3d11Device(device),
        _ => ContextProperties::Plain,
    }
}

/// The interop properties for an optional buffer description; none without one.
pub open spec fn properties_for(buffers: Option<&BufferDescription>) -> ContextProperties {
    match buffers {
        Some(b) => properties_of(b.buffer_source),
        None => ContextProperties::Plain,
    }
}

/// The checksum a context is tagged with: that of the buffer source, or zero
/// without a description.
pub open spec fn checksum_for(buffers: Option<&BufferDescription>) -> int {
    match buffers {
        Some(b) => b.buffer_source.checksum(),
        None => 0,
    }
}

/// Holder of the one active context.
#[derive(Clone, Debug, PartialEq, Eq)]
pub struct ContextManager {
    pub active: Option<CtxWrapper>,
}

impl ContextManager {
    /// A rebuild is due when no context is active or when the active one was
    /// built for a surface with another checksum.
    pub open spec fn rebuild_due(&self, source: BufferSource) -> bool {
        match self.active {
            Some(ctx) => ctx.surface_checksum != source.checksum(),
            None => true,
        }
    }

    /// A manager without an active context.
    pub fn new() -> (manager: ContextManager)
        ensures
            manager.active is None,
    {
        ContextManager { active: None }
    }

    /// Whether the context has to be rebuilt before it can serve `source`.
    pub fn needs_rebuild(&self, source: &BufferSource) -> (rebuild: bool)
        ensures
            rebuild == self.rebuild_due(*source),
    {
        match &self.active {
            Some(ctx) => ctx.surface_checksum != source.get_checksum(),
            None => true,
        }
    }

    /// Makes `ctx` the active context, discarding the previous one.
    pub fn install(&mut self, ctx: CtxWrapper)
        ensures
            final(self).active == Some(ctx),
    {
        self.active = Some(ctx);
    }
}

/// With a context in place, a rebuild is due exactly when the checksum of the
/// requested source differs from the stored one.
pub proof fn lemma_rebuild_iff_checksum_differs(manager: ContextManager, source: BufferSource)
    requires
        manager.active is Some,
    ensures
        manager.rebuild_due(source) <==> manager.active->0.surface_checksum != source.checksum(),
{
}

/// Once a context tagged with the checksum of `source` is installed, asking
/// again for `source`, or for any source with the same checksum, calls for no
/// rebuild.
pub proof fn lemma_no_rebuild_for_unchanged_source(
    ctx: CtxWrapper,
    source: BufferSource,
    again: BufferSource,
)
    requires
        ctx.surface_checksum == source.checksum(),
        again.checksum() == source.checksum(),
    ensures
        !(ContextManager { active: Some(ctx) }).rebuild_due(again),
{
}

/// Host memory always has the same checksum, whatever the slice lengths, so a
/// stream of host frames never calls for a rebuild on account of its sizes.
pub proof fn lemma_cpu_checksum_is_constant(a: BufferSource, b: BufferSource)
    requires
        a is Cpu,
        b is Cpu,
    ensures
        a.checksum() == b.checksum(),
{
}

impl OclWrapper {
    /// The interop properties to create a context with for `buffers`.
    pub fn get_properties(buffers: Option<&BufferDescription>) -> (props: ContextProperties)
        ensures
            props == properties_for(buffers),
    {
        match buffers {
            Some(b) => match b.buffer_source {
                BufferSource::SharedTextureA { .. } => ContextProperties::GlSharing,
                BufferSource::SharedTextureB { device, .. } => ContextProperties::D3d11Device(
                    device,
                ),
                _ => ContextProperties::Plain,
            },
            None => ContextProperties::Plain,
        }
    }

    /// The name of the active context's device, if there is an active context
    /// and its device reported a name.
    pub fn get_info(manager: &ContextManager) -> (name: Option<String>)
        ensures
            name == (match manager.active {
                Some(ctx) => ctx.device_name,
                None => None,
            }),
    {
        match &manager.active {
            Some(ctx) => match &ctx.device_name {
                Some(name) => Some(name.clone()),
                None => None,
            },
            None => None,
        }
    }
}

} // verus!
