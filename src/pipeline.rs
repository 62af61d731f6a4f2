use vstd::prelude::*;
use crate::artifact::CompiledArtifact;
use crate::constants::ShaderConstants;
use crate::slot::ArtifactSlot;

verus! {

/// Size of the presentation surface, in pixels.
#[derive(Clone, Copy, Debug, PartialEq, Eq, Structural)]
pub struct SurfaceConfig {
    pub width: u32,
    pub height: u32,
}

/// The surface as the manager tracks it: its size, and whether the
/// presentation surface must be configured again before the next draw.
pub struct SurfaceState {
    pub config: SurfaceConfig,
    pub stale: bool,
}

/// The surface after a resize to `width` by `height`.
pub open spec fn resize_step(s: SurfaceState, width: u32, height: u32) -> SurfaceState {
    SurfaceState { config: SurfaceConfig { width, height }, stale: true }
}

/// The surface after the resizes in `sizes`, in order.
pub open spec fn after_resizes(s: SurfaceState, sizes: Seq<(u32, u32)>) -> SurfaceState
    decreases sizes.len(),
{
    if sizes.len() == 0 {
        s
    } else {
        let prev = after_resizes(s, sizes.drop_last());
        resize_step(prev, sizes.last().0, sizes.last().1)
    }
}

/// The configuration a frame must apply before it draws, if any.
pub open spec fn pending_configure(s: SurfaceState) -> Option<SurfaceConfig> {
    if s.stale {
        Some(s.config)
    } else {
        None
    }
}

/// However many resizes come between two frames, the next frame configures
/// the surface, before it draws, to the size the last of them asked for.
pub proof fn lemma_last_resize_wins(s: SurfaceState, sizes: Seq<(u32, u32)>)
    requires
        sizes.len() > 0,
    ensures
        after_resizes(s, sizes).config == (SurfaceConfig {
            width: sizes.last().0,
            height: sizes.last().1,
        }),
        pending_configure(after_resizes(s, sizes)) == Some(
            SurfaceConfig { width: sizes.last().0, height: sizes.last().1 },
        ),
{
}

/// A failure to get the next frame from the presentation surface.
#[derive(Clone, Copy, Debug, PartialEq, Eq, Structural)]
pub enum FrameError {
    /// The surface was lost; it can be configured again.
    Lost,
    /// The device is out of memory; nothing can be done.
    OutOfMemory,
    /// Anything else, such as a timeout.
    Other,
}

/// What to do about a frame that could not be had.
#[derive(Clone, Copy, Debug, PartialEq, Eq, Structural)]
pub enum FrameErrorAction {
    /// Configure the surface again next frame, and go on.
    Recreate,
    /// Leave the event loop: the process should end.
    Exit,
    /// Skip this frame.
    Skip,
}

/// What a frame must do before it draws.
#[derive(Debug)]
pub struct FramePlan {
    /// Configure the presentation surface with this first.
    pub configure: Option<SurfaceConfig>,
    /// Build a pipeline from this artifact, and hand the result to `adopt`.
    pub artifact: Option<CompiledArtifact>,
}

/// One draw: the vertex stage makes a triangle that covers the viewport from
/// the vertex index alone.
#[derive(Clone, Copy, Debug, PartialEq, Eq, Structural)]
pub struct DrawCall {
    pub vertex_count: u32,
    pub instance_count: u32,
    pub constants: ShaderConstants,
}

/// Owns the pipeline that draws, and the surface configuration. Once per
/// frame it looks for a new artifact; a pipeline built from one replaces the
/// active pipeline whole, and a failed build leaves it alone.
#[derive(Debug)]
pub struct PipelineManager<P> {
    active: P,
    adopted: Option<CompiledArtifact>,
    surface: SurfaceConfig,
    stale: bool,
}

impl<P> PipelineManager<P> {
    /// The pipeline that draws.
    pub closed spec fn active(&self) -> P {
        self.active
    }

    /// The artifact the active pipeline was built from; `None` while the
    /// built-in pipeline draws.
    pub closed spec fn adopted(&self) -> Option<CompiledArtifact> {
        self.adopted
    }

    pub closed spec fn surface(&self) -> SurfaceState {
        SurfaceState { config: self.surface, stale: self.stale }
    }

    /// Starts with the built-in pipeline and a surface of the given size,
    /// which the first frame configures.
    pub fn new(fallback: P, width: u32, height: u32) -> (r: Self)
        ensures
            r.active() == fallback,
            r.adopted() is None,
            r.surface() == (SurfaceState { config: SurfaceConfig { width, height }, stale: true }),
    {
        PipelineManager {
            active: fallback,
            adopted: None,
            surface: SurfaceConfig { width, height },
            stale: true,
        }
    }

    pub fn active_pipeline(&self) -> (r: &P)
        ensures
            *r == self.active(),
    {
        &self.active
    }

    pub fn surface_config(&self) -> (r: SurfaceConfig)
        ensures
            r == self.surface().config,
    {
        self.surface
    }

    /// Whether a pipeline built from a published artifact draws, rather than
    /// the built-in one.
    pub fn has_adopted(&self) -> (r: bool)
        ensures
            r == (self.adopted() is Some),
    {
        self.adopted.is_some()
    }

    /// Records a new surface size; the next frame configures the surface to
    /// it before it draws.
    pub fn resize(&mut self, width: u32, height: u32)
        ensures
            final(self).surface() == resize_step(old(self).surface(), width, height),
            final(self).active() == old(self).active(),
            final(self).adopted() == old(self).adopted(),
    {
        self.surface = SurfaceConfig { width, height };
        self.stale = true;
    }

    /// Decides what to do about a frame that could not be had. A lost
    /// surface is configured again with the current size next frame.
    pub fn on_frame_error(&mut self, error: FrameError) -> (r: FrameErrorAction)
        ensures
            r == match error {
                FrameError::Lost => FrameErrorAction::Recreate,
                FrameError::OutOfMemory => FrameErrorAction::Exit,
                FrameError::Other => FrameErrorAction::Skip,
            },
            final(self).surface() == (SurfaceState {
                config: old(self).surface().config,
                stale: old(self).surface().stale || error == FrameError::Lost,
            }),
            final(self).active() == old(self).active(),
            final(self).adopted() == old(self).adopted(),
    {
        match error {
            FrameError::Lost => {
                self.stale = true;
                FrameErrorAction::Recreate
            },
            FrameError::OutOfMemory => FrameErrorAction::Exit,
            FrameError::Other => FrameErrorAction::Skip,
        }
    }

    /// The start of a frame: hands out the surface configuration to apply,
    /// if the surface changed, and takes the artifact waiting in `slot`, if
    /// there is one.
    pub fn begin_frame(&mut self, slot: &mut ArtifactSlot) -> (r: FramePlan)
        ensures
            r.configure == pending_configure(old(self).surface()),
            r.artifact == old(slot)@,
            final(slot)@ is None,
            final(self).surface() == (SurfaceState { config: old(self).surface().config, stale: false }),
            final(self).active() == old(self).active(),
            final(self).adopted() == old(self).adopted(),
    {
        let configure = if self.stale {
            Some(self.surface)
        } else {
            None
        };
        self.stale = false;
        let artifact = slot.take();
        FramePlan { configure, artifact }
    }

    /// Takes in a pipeline built from `artifact`. On success it replaces the
    /// active pipeline; on failure the active pipeline stays, and the
    /// diagnostic comes back for the log.
    pub fn adopt(&mut self, artifact: CompiledArtifact, built: Result<P, String>) -> (r: Result<(), String>)
        ensures
            match built {
                Ok(p) => r is Ok && final(self).active() == p && final(self).adopted() == Some(
                    artifact,
                ),
                Err(msg) => r == Err::<(), String>(msg) && final(self).active() == old(self).active()
                    && final(self).adopted() == old(self).adopted(),
            },
            final(self).surface() == old(self).surface(),
    {
        match built {
            Ok(p) => {
                self.active = p;
                self.adopted = Some(artifact);
                Ok(())
            },
            Err(msg) => Err(msg),
        }
    }

    /// The draw for this frame, at `time_bits` (see `ShaderConstants`): three
    /// vertices, one instance, with the current surface size. `None` while
    /// the surface waits to be configured: no draw goes out at a stale size.
    pub fn draw_call(&self, time_bits: u32) -> (r: Option<DrawCall>)
        ensures
            r == if self.surface().stale {
                None
            } else {
                Some(
                    DrawCall {
                        vertex_count: 3,
                        instance_count: 1,
                        constants: ShaderConstants {
                            width_px: self.surface().config.width,
                            height_px: self.surface().config.height,
                            time_bits,
                        },
                    },
                )
            },
    {
        if self.stale {
            None
        } else {
            Some(
                DrawCall {
                    vertex_count: 3,
                    instance_count: 1,
                    constants: ShaderConstants::new(self.surface.width, self.surface.height, time_bits),
                },
            )
        }
    }
}

} // verus!
