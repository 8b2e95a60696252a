//! Frame orchestration and the window-surface lifecycle.
//!
//! The `Renderer` owns the registry of drawables and the cached surface
//! dimensions the per-frame uniforms are computed from; `render` turns a
//! scene into the ordered list of GPU draw commands for one frame.
//!
//! The `WinitRenderer` is the surface lifecycle controller: an explicit
//! state machine over window-system events (init, resume, suspend,
//! resize) that keeps the presentation-surface configuration consistent
//! with window state. The window system, the GPU device and the surface
//! itself live with the caller; this controller decides every transition
//! and hands back the actions (configure, request a redraw) the caller
//! must perform.

use vstd::prelude::*;
use crate::scalar::{MAX_EXACT_PIXELS, f32_bits_of_px, px_to_f32_bits};
use crate::scene::{Layer, Scene};
use crate::quad::{
    QUAD_BUFFER_CAPACITY, QUAD_SAMPLE_COUNT, DrawableKind, ShaderStage, RenderError, ShaderKey,
    QUAD_TEMPLATE_VERTICES, ShaderModules, ShaderConstants, InstancedQuad, layer_instances,
    Pipeline, pipeline_built, DrawCommand, QuadState,
};

verus! {

/// A registered drawable's own state; one variant per primitive renderer.
pub enum DrawableState {
    Quad(QuadState),
}

impl DrawableState {
    /// The primitive this drawable renders.
    pub open spec fn kind(self) -> DrawableKind {
        match self {
            DrawableState::Quad(_) => DrawableKind::Quad,
        }
    }

    /// The fixed capacity of this drawable's instance buffer.
    pub open spec fn capacity(self) -> usize {
        match self {
            DrawableState::Quad(qs) => qs.capacity,
        }
    }

    /// The instance records this drawable submits for one layer.
    pub open spec fn instances_for(self, layer: Layer, constants: ShaderConstants) -> Seq<
        InstancedQuad,
    > {
        match self {
            DrawableState::Quad(_) => layer_instances(layer, constants),
        }
    }
}

/// One registry slot: a drawable and the pipeline built for it.
pub struct DrawableEntry {
    pub state: DrawableState,
    pub pipeline: Pipeline,
}

/// What a successful registration appends to the registry: the drawable
/// of the requested kind, freshly created with its fixed instance-buffer
/// capacity, and a pipeline built from the module set for the given
/// target format.
pub open spec fn well_built_entry(
    entry: DrawableEntry,
    kind: DrawableKind,
    shaders: ShaderModules,
    format: u64,
) -> bool {
    &&& entry.state matches DrawableState::Quad(qs) && qs.capacity == QUAD_BUFFER_CAPACITY
    &&& entry.state.kind() == kind
    &&& pipeline_built(entry.pipeline, kind, shaders, format)
}

/// A drawable fits a layer when the layer's instances do not exceed the
/// drawable's buffer capacity.
pub open spec fn entry_fits(entry: DrawableEntry, layer: Layer, constants: ShaderConstants) -> bool {
    entry.state.instances_for(layer, constants).len() <= entry.state.capacity()
}

/// Every registered drawable fits the layer.
pub open spec fn layer_fits(
    entries: Seq<DrawableEntry>,
    layer: Layer,
    constants: ShaderConstants,
) -> bool {
    forall|i: int| 0 <= i < entries.len() ==> entry_fits(#[trigger] entries[i], layer, constants)
}

/// Every registered drawable fits every layer of the scene.
pub open spec fn scene_fits(
    layers: Seq<Layer>,
    entries: Seq<DrawableEntry>,
    constants: ShaderConstants,
) -> bool {
    forall|j: int| 0 <= j < layers.len() ==> layer_fits(entries, #[trigger] layers[j], constants)
}

/// The draw commands one layer produces, walking the registry in
/// registration order; a drawable that submits nothing contributes no
/// command.
pub open spec fn layer_draws(
    entries: Seq<DrawableEntry>,
    layer: Layer,
    constants: ShaderConstants,
) -> Seq<(Pipeline, Seq<InstancedQuad>)>
    decreases entries.len(),
{
    if entries.len() == 0 {
        Seq::empty()
    } else {
        let e = entries.last();
        let insts = e.state.instances_for(layer, constants);
        layer_draws(entries.drop_last(), layer, constants) + if insts.len() == 0 {
            Seq::<(Pipeline, Seq<InstancedQuad>)>::empty()
        } else {
            seq![(e.pipeline, insts)]
        }
    }
}

/// The draw commands of a whole frame: layers in scene order, and for
/// each layer the drawables in registration order.
pub open spec fn scene_draws(
    layers: Seq<Layer>,
    entries: Seq<DrawableEntry>,
    constants: ShaderConstants,
) -> Seq<(Pipeline, Seq<InstancedQuad>)>
    decreases layers.len(),
{
    if layers.len() == 0 {
        Seq::empty()
    } else {
        scene_draws(layers.drop_last(), entries, constants) + layer_draws(
            entries,
            layers.last(),
            constants,
        )
    }
}

/// One draw command of a frame, bound to the pipeline that executes it.
pub struct LayerDraw {
    pub pipeline: Pipeline,
    pub command: DrawCommand,
}

/// What one draw command contributes to the frame: its pipeline and its
/// instance records.
pub open spec fn draw_view(d: LayerDraw) -> (Pipeline, Seq<InstancedQuad>) {
    (d.pipeline, d.command.instances@)
}

/// The frame as a sequence of pipeline/instance pairs.
pub open spec fn draws_view(draws: Seq<LayerDraw>) -> Seq<(Pipeline, Seq<InstancedQuad>)> {
    draws.map_values(|d: LayerDraw| draw_view(d))
}

/// Dimensions are clamped to the largest exactly representable pixel
/// count before entering the per-frame uniforms.
pub open spec fn clamp_px(v: u32) -> u32 {
    if v > MAX_EXACT_PIXELS {
        MAX_EXACT_PIXELS
    } else {
        v
    }
}

/// Everything one frame submits to the GPU: the shared uniform block and
/// the ordered draw commands.
pub struct FrameCommands {
    pub constants: ShaderConstants,
    pub draws: Vec<LayerDraw>,
}

/// Owns the registry of drawables, the target format pipelines are built
/// for, and the cached surface dimensions the per-frame uniforms use.
pub struct Renderer {
    pub width: u32,
    pub height: u32,
    pub format: u64,
    pub drawables: Vec<DrawableEntry>,
}

impl Renderer {
    /// The per-frame uniform block computed from the cached dimensions.
    pub open spec fn constants(self) -> ShaderConstants {
        ShaderConstants {
            surface_width: f32_bits_of_px(clamp_px(self.width)),
            surface_height: f32_bits_of_px(clamp_px(self.height)),
        }
    }

    /// A renderer with no drawables registered.
    pub fn new(width: u32, height: u32, format: u64) -> (r: Renderer)
        ensures
            r.width == width,
            r.height == height,
            r.format == format,
            r.drawables@ =~= Seq::<DrawableEntry>::empty(),
    {
        Renderer { width, height, format, drawables: Vec::new() }
    }

    /// Updates the cached dimensions the per-frame uniforms are computed
    /// from; the presentation surface itself is the lifecycle
    /// controller's to reconfigure.
    pub fn resize(&mut self, width: u32, height: u32)
        ensures
            *final(self) == (Renderer { width, height, ..*old(self) }),
    {
        self.width = width;
        self.height = height;
    }

    /// The per-frame uniforms for the current dimensions.
    pub fn frame_constants(&self) -> (c: ShaderConstants)
        ensures
            c == self.constants(),
    {
        let w = if self.width > MAX_EXACT_PIXELS {
            MAX_EXACT_PIXELS
        } else {
            self.width
        };
        let h = if self.height > MAX_EXACT_PIXELS {
            MAX_EXACT_PIXELS
        } else {
            self.height
        };
        ShaderConstants { surface_width: px_to_f32_bits(w), surface_height: px_to_f32_bits(h) }
    }

    /// Constructs the drawable of the given kind, builds its pipeline for
    /// the current target format, and appends it to the registry;
    /// registration order determines per-layer draw order. A pipeline
    /// build failure is surfaced here and registers nothing.
    pub fn add_drawable(&mut self, kind: DrawableKind, shaders: &ShaderModules) -> (r: Result<
        (),
        RenderError,
    >)
        ensures
            r is Ok <==> shaders.has_shader(kind, ShaderStage::Vertex) && shaders.has_shader(
                kind,
                ShaderStage::Fragment,
            ),
            r is Ok ==> {
                &&& final(self).drawables@.len() == old(self).drawables@.len() + 1
                &&& final(self).drawables@.subrange(0, old(self).drawables@.len() as int) == old(
                    self,
                ).drawables@
                &&& well_built_entry(final(self).drawables@.last(), kind, *shaders, old(self).format)
                &&& final(self).width == old(self).width
                &&& final(self).height == old(self).height
                &&& final(self).format == old(self).format
            },
            r matches Err(e) ==> *final(self) == *old(self) && (e matches
            RenderError::MissingShader { kind: k, stage } && k == kind && !shaders.has_shader(
                kind,
                stage,
            )),
    {
        let state = match kind {
            DrawableKind::Quad => DrawableState::Quad(QuadState::new()),
        };
        let built = match &state {
            DrawableState::Quad(qs) => qs.create_pipeline(shaders, self.format),
        };
        let pipeline = match built {
            Ok(p) => p,
            Err(e) => {
                return Err(e);
            },
        };
        let ghost before = self.drawables@;
        self.drawables.push(DrawableEntry { state, pipeline });
        proof {
            assert(self.drawables@.subrange(0, before.len() as int) =~= before);
        }
        Ok(())
    }

    /// Opens one frame: computes the per-frame uniforms from the cached
    /// dimensions and walks the scene's layers in order, each layer
    /// through every registered drawable in registration order. Returns
    /// the frame's draw commands, or the capacity error of the first
    /// drawable whose instance buffer a layer overflows.
    pub fn render(&self, scene: &Scene) -> (r: Result<FrameCommands, RenderError>)
        ensures
            r is Ok <==> scene_fits(scene.layers@, self.drawables@, self.constants()),
            r matches Ok(fc) ==> fc.constants == self.constants() && draws_view(fc.draws@)
                == scene_draws(scene.layers@, self.drawables@, self.constants()),
            r matches Ok(fc) ==> forall|t: int|
                0 <= t < fc.draws@.len() ==> (#[trigger] fc.draws@[t]).command.vertices_per_instance
                    == QUAD_TEMPLATE_VERTICES && fc.draws@[t].command.constants == self.constants(),
            r matches Err(e) ==> e matches RenderError::CapacityExceeded { requested, capacity }
                && requested > capacity,
    {
        let constants = self.frame_constants();
        let mut draws: Vec<LayerDraw> = Vec::new();
        let mut j: usize = 0;
        while j < scene.layers.len()
            invariant
                j <= scene.layers@.len(),
                constants == self.constants(),
                draws_view(draws@) == scene_draws(
                    scene.layers@.take(j as int),
                    self.drawables@,
                    self.constants(),
                ),
                forall|t: int|
                    0 <= t < j ==> layer_fits(
                        self.drawables@,
                        #[trigger] scene.layers@[t],
                        self.constants(),
                    ),
                forall|t: int|
                    0 <= t < draws@.len() ==> (#[trigger] draws@[t]).command.vertices_per_instance
                        == QUAD_TEMPLATE_VERTICES && draws@[t].command.constants
                        == self.constants(),
            decreases scene.layers@.len() - j,
        {
            let layer = &scene.layers[j];
            let mut i: usize = 0;
            while i < self.drawables.len()
                invariant
                    j < scene.layers@.len(),
                    i <= self.drawables@.len(),
                    constants == self.constants(),
                    draws_view(draws@) == scene_draws(
                        scene.layers@.take(j as int),
                        self.drawables@,
                        self.constants(),
                    ) + layer_draws(
                        self.drawables@.take(i as int),
                        scene.layers@[j as int],
                        self.constants(),
                    ),
                    forall|t: int|
                        0 <= t < j ==> layer_fits(
                            self.drawables@,
                            #[trigger] scene.layers@[t],
                            self.constants(),
                        ),
                    forall|t: int|
                        0 <= t < i ==> entry_fits(
                            #[trigger] self.drawables@[t],
                            scene.layers@[j as int],
                            self.constants(),
                        ),
                    *layer == scene.layers@[j as int],
                    forall|t: int|
                        0 <= t < draws@.len() ==> (#[trigger] draws@[t]).command.vertices_per_instance
                            == QUAD_TEMPLATE_VERTICES && draws@[t].command.constants
                            == self.constants(),
                decreases self.drawables@.len() - i,
            {
                let entry = &self.drawables[i];
                let step = match &entry.state {
                    DrawableState::Quad(qs) => qs.draw(constants, layer),
                };
                proof {
                    assert(self.drawables@.take(i + 1 as int).drop_last() =~= self.drawables@.take(
                        i as int,
                    ));
                    assert(self.drawables@.take(i + 1 as int).last() == self.drawables@[i as int]);
                }
                match step {
                    Ok(Some(cmd)) => {
                        let next = LayerDraw { pipeline: entry.pipeline, command: cmd };
                        proof {
                            assert(draws_view(draws@.push(next)) =~= draws_view(draws@).push(
                                draw_view(next),
                            ));
                            assert(draws_view(draws@).push(draw_view(next)) =~= draws_view(draws@)
                                + seq![draw_view(next)]);
                        }
                        draws.push(next);
                    },
                    Ok(None) => {
                        proof {
                            assert(layer_draws(
                                self.drawables@.take(i + 1 as int),
                                scene.layers@[j as int],
                                self.constants(),
                            ) =~= layer_draws(
                                self.drawables@.take(i as int),
                                scene.layers@[j as int],
                                self.constants(),
                            ));
                        }
                    },
                    Err(e) => {
                        proof {
                            assert(!entry_fits(
                                self.drawables@[i as int],
                                scene.layers@[j as int],
                                self.constants(),
                            ));
                            assert(!layer_fits(
                                self.drawables@,
                                scene.layers@[j as int],
                                self.constants(),
                            ));
                            assert(!scene_fits(scene.layers@, self.drawables@, self.constants()));
                        }
                        return Err(e);
                    },
                }
                i = i + 1;
            }
            proof {
                assert(self.drawables@.take(self.drawables@.len() as int) =~= self.drawables@);
                assert(scene.layers@.take(j + 1 as int).drop_last() =~= scene.layers@.take(
                    j as int,
                ));
                assert(scene.layers@.take(j + 1 as int).last() == scene.layers@[j as int]);
            }
            j = j + 1;
        }
        proof {
            assert(scene.layers@.take(scene.layers@.len() as int) =~= scene.layers@);
        }
        Ok(FrameCommands { constants, draws })
    }

    /// Rebuilds every registered drawable's pipeline from a freshly
    /// reloaded shader module set, for the current target format. Fails
    /// with the missing-shader error if the new set no longer resolves a
    /// stage some registered drawable needs; the registry itself is left
    /// as it was either way.
    pub fn reload_shaders(&mut self, shaders: &ShaderModules) -> (r: Result<(), RenderError>)
        ensures
            final(self).width == old(self).width,
            final(self).height == old(self).height,
            final(self).format == old(self).format,
            final(self).drawables@.len() == old(self).drawables@.len(),
            forall|i: int|
                0 <= i < old(self).drawables@.len() ==> final(self).drawables@[i].state == old(
                    self,
                ).drawables@[i].state,
            r is Ok <==> forall|i: int|
                0 <= i < old(self).drawables@.len() ==> shaders.has_shader(
                    (#[trigger] old(self).drawables@[i]).state.kind(),
                    ShaderStage::Vertex,
                ) && shaders.has_shader(old(self).drawables@[i].state.kind(), ShaderStage::Fragment),
            r is Ok ==> forall|i: int|
                0 <= i < final(self).drawables@.len() ==> pipeline_built(
                    (#[trigger] final(self).drawables@[i]).pipeline,
                    final(self).drawables@[i].state.kind(),
                    *shaders,
                    old(self).format,
                ),
            r matches Err(e) ==> e matches RenderError::MissingShader { kind, stage }
                && !shaders.has_shader(kind, stage),
    {
        let mut i: usize = 0;
        while i < self.drawables.len()
            invariant
                i <= self.drawables@.len(),
                self.width == old(self).width,
                self.height == old(self).height,
                self.format == old(self).format,
                self.drawables@.len() == old(self).drawables@.len(),
                forall|j: int|
                    0 <= j < old(self).drawables@.len() ==> self.drawables@[j].state == old(
                        self,
                    ).drawables@[j].state,
                forall|j: int|
                    0 <= j < i ==> shaders.has_shader(
                        (#[trigger] old(self).drawables@[j]).state.kind(),
                        ShaderStage::Vertex,
                    ) && shaders.has_shader(
                        old(self).drawables@[j].state.kind(),
                        ShaderStage::Fragment,
                    ),
                forall|j: int|
                    0 <= j < i ==> pipeline_built(
                        (#[trigger] self.drawables@[j]).pipeline,
                        self.drawables@[j].state.kind(),
                        *shaders,
                        old(self).format,
                    ),
            decreases self.drawables@.len() - i,
        {
            let rebuilt = match &self.drawables[i].state {
                DrawableState::Quad(qs) => qs.create_pipeline(shaders, self.format),
            };
            match rebuilt {
                Ok(p) => {
                    self.drawables[i].pipeline = p;
                },
                Err(e) => {
                    return Err(e);
                },
            }
            i = i + 1;
        }
        Ok(())
    }

    /// Registers the default drawable set: the quad renderer.
    pub fn add_default_drawables(&mut self, shaders: &ShaderModules) -> (r: Result<
        (),
        RenderError,
    >)
        ensures
            r is Ok <==> shaders.has_shader(DrawableKind::Quad, ShaderStage::Vertex)
                && shaders.has_shader(DrawableKind::Quad, ShaderStage::Fragment),
            r is Ok ==> {
                &&& final(self).drawables@.len() == old(self).drawables@.len() + 1
                &&& final(self).drawables@.subrange(0, old(self).drawables@.len() as int) == old(
                    self,
                ).drawables@
                &&& well_built_entry(
                    final(self).drawables@.last(),
                    DrawableKind::Quad,
                    *shaders,
                    old(self).format,
                )
                &&& final(self).width == old(self).width
                &&& final(self).height == old(self).height
                &&& final(self).format == old(self).format
            },
            r is Err ==> *final(self) == *old(self),
    {
        self.add_drawable(DrawableKind::Quad, shaders)
    }
}

/// Where the presentation surface stands in its lifecycle.
#[derive(Clone, Copy, Debug, PartialEq, Eq, Structural)]
pub enum SurfaceState {
    /// No surface has existed yet.
    Uninitialized,
    /// A surface is bound to the window and configured.
    Active,
    /// The window is suspended; the surface was dropped and drawing is a
    /// no-op until the next resume.
    Suspended,
}

/// The presentation surface's negotiated parameters. Format and alpha
/// mode are carried as the opaque identifiers the caller negotiated from
/// the adapter's capability lists.
#[derive(Clone, Copy, Debug, PartialEq, Eq, Structural)]
pub struct SurfaceConfig {
    pub format: u64,
    pub alpha_mode: u64,
    pub width: u32,
    pub height: u32,
}

/// A window-system lifecycle event, reduced to the values the state
/// machine decides on. `Resumed` carries the format and alpha mode the
/// caller negotiated for the freshly created surface.
#[derive(Clone, Copy, Debug, PartialEq, Eq, Structural)]
pub enum WindowLifecycleEvent {
    NewEvents { is_init: bool },
    Resumed { format: u64, alpha_mode: u64 },
    Suspended,
    Resized { width: u32, height: u32 },
    Other,
}

/// What the caller must do after an event: reconfigure the surface with
/// the controller's current configuration, and/or ask the window for a
/// redraw.
#[derive(Clone, Copy, Debug, PartialEq, Eq, Structural)]
pub struct EventActions {
    pub configure_surface: bool,
    pub request_redraw: bool,
}

/// No action.
pub open spec fn no_actions() -> EventActions {
    EventActions { configure_surface: false, request_redraw: false }
}

/// How one frame's presentation attempt ended, as reported by the
/// presentation surface when a frame target was requested.
#[derive(Clone, Copy, Debug, PartialEq, Eq, Structural)]
pub enum AcquireOutcome {
    /// A frame target was acquired; the frame was rendered and presented.
    Acquired,
    /// The surface was lost; recoverable by reconfiguring it.
    Lost,
    /// The device is out of memory; fatal for this frame.
    OutOfMemory,
    /// Any other acquisition failure; fatal for this frame.
    OtherError,
}

/// The controller's verdict on one frame.
#[derive(Clone, Copy, Debug, PartialEq, Eq, Structural)]
pub struct FrameStatus {
    /// The frame was rendered and presented.
    pub presented: bool,
    /// The caller should reconfigure the surface with the current
    /// configuration and retry next frame.
    pub reconfigure_surface: bool,
}

/// What one frame submits: nothing (no surface is active; an idle no-op,
/// not an error), or the frame's draw commands.
pub enum FramePlan {
    Idle,
    Render(FrameCommands),
}

/// The surface lifecycle controller: reacts to window-system events to
/// keep the presentation surface consistent with window state, and turns
/// scenes into frames while the surface is active.
pub struct WinitRenderer {
    pub state: SurfaceState,
    /// Set while the window system delivers its startup events: the very
    /// first resize is spurious and must not reconfigure anything.
    pub window_initializing: bool,
    pub surface_config: SurfaceConfig,
    pub renderer: Renderer,
}

/// The state after a resize request: zero-area resizes are ignored
/// entirely (a zero-size surface cannot be configured), otherwise the
/// surface configuration and the renderer's cached dimensions take the
/// new values.
pub open spec fn resized_state(s: WinitRenderer, width: u32, height: u32) -> WinitRenderer {
    if width == 0 || height == 0 {
        s
    } else {
        WinitRenderer {
            surface_config: SurfaceConfig { width, height, ..s.surface_config },
            renderer: Renderer { width, height, ..s.renderer },
            ..s
        }
    }
}

/// Whether a resize must reconfigure the live surface: only when a
/// surface is active and the dimensions actually change, so repeating a
/// resize has no further observable effect.
pub open spec fn resize_configures(s: WinitRenderer, width: u32, height: u32) -> bool {
    &&& width != 0
    &&& height != 0
    &&& s.state is Active
    &&& !(s.surface_config.width == width && s.surface_config.height == height)
}

/// The state after one window-system event.
pub open spec fn event_transition(s: WinitRenderer, e: WindowLifecycleEvent) -> WinitRenderer {
    match e {
        WindowLifecycleEvent::NewEvents { is_init } => WinitRenderer {
            window_initializing: is_init,
            ..s
        },
        WindowLifecycleEvent::Resumed { format, alpha_mode } => WinitRenderer {
            state: SurfaceState::Active,
            surface_config: SurfaceConfig { format, alpha_mode, ..s.surface_config },
            ..s
        },
        WindowLifecycleEvent::Suspended => WinitRenderer { state: SurfaceState::Suspended, ..s },
        WindowLifecycleEvent::Resized { width, height } => if s.window_initializing {
            s
        } else {
            resized_state(s, width, height)
        },
        WindowLifecycleEvent::Other => s,
    }
}

/// The actions one window-system event demands of the caller.
pub open spec fn event_actions(s: WinitRenderer, e: WindowLifecycleEvent) -> EventActions {
    match e {
        WindowLifecycleEvent::NewEvents { .. } => no_actions(),
        WindowLifecycleEvent::Resumed { .. } => EventActions {
            configure_surface: true,
            request_redraw: true,
        },
        WindowLifecycleEvent::Suspended => no_actions(),
        WindowLifecycleEvent::Resized { width, height } => if s.window_initializing {
            no_actions()
        } else {
            EventActions {
                configure_surface: resize_configures(s, width, height),
                request_redraw: true,
            }
        },
        WindowLifecycleEvent::Other => no_actions(),
    }
}

/// One registration's effect on the whole controller: the registry grew
/// by the freshly created drawable of the requested kind with its
/// pipeline built from the module set, existing entries are preserved in
/// order, and everything else — the lifecycle state, the init flag, the
/// surface configuration, the renderer's dimensions and target format —
/// is as it was.
pub open spec fn registered(
    before: WinitRenderer,
    after: WinitRenderer,
    kind: DrawableKind,
    shaders: ShaderModules,
) -> bool {
    &&& after.state == before.state
    &&& after.window_initializing == before.window_initializing
    &&& after.surface_config == before.surface_config
    &&& after.renderer.width == before.renderer.width
    &&& after.renderer.height == before.renderer.height
    &&& after.renderer.format == before.renderer.format
    &&& after.renderer.drawables@.len() == before.renderer.drawables@.len() + 1
    &&& after.renderer.drawables@.subrange(0, before.renderer.drawables@.len() as int)
        == before.renderer.drawables@
    &&& well_built_entry(after.renderer.drawables@.last(), kind, shaders, before.renderer.format)
}

impl WinitRenderer {
    /// A controller for a window whose surface was just created and
    /// configured with the negotiated format and alpha mode; the
    /// renderer starts with no drawables registered.
    pub fn new(width: u32, height: u32, format: u64, alpha_mode: u64) -> (w: WinitRenderer)
        ensures
            w.state is Active,
            !w.window_initializing,
            w.surface_config == (SurfaceConfig { format, alpha_mode, width, height }),
            w.renderer.width == width,
            w.renderer.height == height,
            w.renderer.format == format,
            w.renderer.drawables@ =~= Seq::<DrawableEntry>::empty(),
    {
        WinitRenderer {
            state: SurfaceState::Active,
            window_initializing: false,
            surface_config: SurfaceConfig { format, alpha_mode, width, height },
            renderer: Renderer::new(width, height, format),
        }
    }

    /// Adopts a freshly created surface: refreshes the configuration's
    /// format and alpha mode and marks the surface active. The caller
    /// configures the surface with the resulting configuration.
    fn update_surface(&mut self, format: u64, alpha_mode: u64)
        ensures
            *final(self) == event_transition(
                *old(self),
                WindowLifecycleEvent::Resumed { format, alpha_mode },
            ),
    {
        self.surface_config.format = format;
        self.surface_config.alpha_mode = alpha_mode;
        self.state = SurfaceState::Active;
    }

    /// Drops the presentation surface; drawing becomes an idle no-op.
    fn clear_surface(&mut self)
        ensures
            *final(self) == event_transition(*old(self), WindowLifecycleEvent::Suspended),
    {
        self.state = SurfaceState::Suspended;
    }

    /// Applies a resize: ignores zero-area requests, otherwise records
    /// the new dimensions and tells the renderer. Returns whether the
    /// caller must reconfigure the live surface — only when one is active
    /// and the dimensions actually changed.
    pub fn resize(&mut self, width: u32, height: u32) -> (configure: bool)
        ensures
            *final(self) == resized_state(*old(self), width, height),
            configure == resize_configures(*old(self), width, height),
    {
        if width == 0 || height == 0 {
            return false;
        }
        let changed = !(self.surface_config.width == width && self.surface_config.height
            == height);
        self.surface_config.width = width;
        self.surface_config.height = height;
        self.renderer.resize(width, height);
        let active = match self.state {
            SurfaceState::Active => true,
            _ => false,
        };
        active && changed
    }

    /// Feeds one window-system event through the state machine and
    /// returns the actions the caller must perform.
    pub fn handle_event(&mut self, event: WindowLifecycleEvent) -> (r: EventActions)
        ensures
            *final(self) == event_transition(*old(self), event),
            r == event_actions(*old(self), event),
    {
        match event {
            WindowLifecycleEvent::NewEvents { is_init } => {
                self.window_initializing = is_init;
                EventActions { configure_surface: false, request_redraw: false }
            },
            WindowLifecycleEvent::Resumed { format, alpha_mode } => {
                self.update_surface(format, alpha_mode);
                EventActions { configure_surface: true, request_redraw: true }
            },
            WindowLifecycleEvent::Suspended => {
                self.clear_surface();
                EventActions { configure_surface: false, request_redraw: false }
            },
            WindowLifecycleEvent::Resized { width, height } => {
                if self.window_initializing {
                    return EventActions { configure_surface: false, request_redraw: false };
                }
                let configure_surface = self.resize(width, height);
                EventActions { configure_surface, request_redraw: true }
            },
            WindowLifecycleEvent::Other => {
                EventActions { configure_surface: false, request_redraw: false }
            },
        }
    }

    /// Plans one frame. With no active surface the frame is an idle
    /// no-op — a success that presents nothing. Otherwise the scene is
    /// rendered into draw commands; a layer that overflows a drawable's
    /// instance buffer fails the frame with the capacity error.
    pub fn draw(&self, scene: &Scene) -> (r: Result<FramePlan, RenderError>)
        ensures
            !(self.state is Active) <==> (r matches Ok(p) && p is Idle),
            r matches Ok(p) ==> (p matches FramePlan::Render(fc) ==> {
                &&& self.state is Active
                &&& fc.constants == self.renderer.constants()
                &&& draws_view(fc.draws@) == scene_draws(
                    scene.layers@,
                    self.renderer.drawables@,
                    self.renderer.constants(),
                )
                &&& forall|t: int|
                    0 <= t < fc.draws@.len() ==> (#[trigger] fc.draws@[t]).command.vertices_per_instance
                        == QUAD_TEMPLATE_VERTICES && fc.draws@[t].command.constants
                        == self.renderer.constants()
            }),
            self.state is Active ==> (r is Ok <==> scene_fits(
                scene.layers@,
                self.renderer.drawables@,
                self.renderer.constants(),
            )),
            r matches Err(e) ==> e matches RenderError::CapacityExceeded { requested, capacity }
                && requested > capacity,
    {
        let active = match self.state {
            SurfaceState::Active => true,
            _ => false,
        };
        if !active {
            return Ok(FramePlan::Idle);
        }
        match self.renderer.render(scene) {
            Ok(fc) => Ok(FramePlan::Render(fc)),
            Err(e) => Err(e),
        }
    }

    /// Judges one frame by how acquiring its target ended: an acquired
    /// frame was rendered and presented; a lost surface drops the frame
    /// and asks the caller to reconfigure and retry; out-of-memory and
    /// any other failure drop the frame with nothing to retry.
    pub fn complete_frame(&self, outcome: AcquireOutcome) -> (r: FrameStatus)
        requires
            self.state is Active,
        ensures
            r.presented <==> outcome is Acquired,
            r.reconfigure_surface <==> outcome is Lost,
    {
        match outcome {
            AcquireOutcome::Acquired => FrameStatus { presented: true, reconfigure_surface: false },
            AcquireOutcome::Lost => FrameStatus { presented: false, reconfigure_surface: true },
            AcquireOutcome::OutOfMemory => FrameStatus {
                presented: false,
                reconfigure_surface: false,
            },
            AcquireOutcome::OtherError => FrameStatus {
                presented: false,
                reconfigure_surface: false,
            },
        }
    }

    /// The shader watcher's signal: shaders were recompiled, so every
    /// registered drawable's pipeline is rebuilt from the new module set
    /// and, on success, the caller must request one redraw — the only
    /// message that ever flows from the watcher to the render loop.
    pub fn on_shaders_reloaded(&mut self, shaders: &ShaderModules) -> (r: Result<
        EventActions,
        RenderError,
    >)
        ensures
            final(self).state == old(self).state,
            final(self).window_initializing == old(self).window_initializing,
            final(self).surface_config == old(self).surface_config,
            final(self).renderer.width == old(self).renderer.width,
            final(self).renderer.height == old(self).renderer.height,
            final(self).renderer.format == old(self).renderer.format,
            final(self).renderer.drawables@.len() == old(self).renderer.drawables@.len(),
            forall|i: int|
                0 <= i < old(self).renderer.drawables@.len()
                    ==> final(self).renderer.drawables@[i].state == (#[trigger] old(
                    self,
                ).renderer.drawables@[i]).state,
            r is Ok ==> forall|i: int|
                0 <= i < final(self).renderer.drawables@.len() ==> pipeline_built(
                    (#[trigger] final(self).renderer.drawables@[i]).pipeline,
                    final(self).renderer.drawables@[i].state.kind(),
                    *shaders,
                    old(self).renderer.format,
                ),
            r matches Ok(a) ==> a == (EventActions {
                configure_surface: false,
                request_redraw: true,
            }),
            r is Ok <==> forall|i: int|
                0 <= i < old(self).renderer.drawables@.len() ==> shaders.has_shader(
                    (#[trigger] old(self).renderer.drawables@[i]).state.kind(),
                    ShaderStage::Vertex,
                ) && shaders.has_shader(
                    old(self).renderer.drawables@[i].state.kind(),
                    ShaderStage::Fragment,
                ),
            r matches Err(e) ==> e matches RenderError::MissingShader { kind, stage }
                && !shaders.has_shader(kind, stage),
    {
        match self.renderer.reload_shaders(shaders) {
            Ok(()) => Ok(EventActions { configure_surface: false, request_redraw: true }),
            Err(e) => Err(e),
        }
    }

    /// Registers a drawable of the given kind with the renderer, building
    /// its pipeline from the shader module set.
    pub fn add_drawable(&mut self, kind: DrawableKind, shaders: &ShaderModules) -> (r: Result<
        (),
        RenderError,
    >)
        ensures
            r is Ok <==> shaders.has_shader(kind, ShaderStage::Vertex) && shaders.has_shader(
                kind,
                ShaderStage::Fragment,
            ),
            r is Ok ==> registered(*old(self), *final(self), kind, *shaders),
            r is Err ==> *final(self) == *old(self),
    {
        self.renderer.add_drawable(kind, shaders)
    }

    /// Registers a drawable and hands the controller back, for chained
    /// construction.
    pub fn with_drawable(self, kind: DrawableKind, shaders: &ShaderModules) -> (r: Result<
        WinitRenderer,
        RenderError,
    >)
        ensures
            r is Ok <==> shaders.has_shader(kind, ShaderStage::Vertex) && shaders.has_shader(
                kind,
                ShaderStage::Fragment,
            ),
            r matches Ok(w) ==> registered(self, w, kind, *shaders),
    {
        let mut this = self;
        match this.add_drawable(kind, shaders) {
            Ok(()) => Ok(this),
            Err(e) => Err(e),
        }
    }

    /// Registers the default drawable set: the quad renderer.
    pub fn add_default_drawables(&mut self, shaders: &ShaderModules) -> (r: Result<
        (),
        RenderError,
    >)
        ensures
            r is Ok <==> shaders.has_shader(DrawableKind::Quad, ShaderStage::Vertex)
                && shaders.has_shader(DrawableKind::Quad, ShaderStage::Fragment),
            r is Ok ==> registered(*old(self), *final(self), DrawableKind::Quad, *shaders),
            r is Err ==> *final(self) == *old(self),
    {
        self.add_drawable(DrawableKind::Quad, shaders)
    }

    /// Registers the default drawable set and hands the controller back,
    /// for chained construction.
    pub fn with_default_drawables(self, shaders: &ShaderModules) -> (r: Result<
        WinitRenderer,
        RenderError,
    >)
        ensures
            r is Ok <==> shaders.has_shader(DrawableKind::Quad, ShaderStage::Vertex)
                && shaders.has_shader(DrawableKind::Quad, ShaderStage::Fragment),
            r matches Ok(w) ==> registered(self, w, DrawableKind::Quad, *shaders),
    {
        self.with_drawable(DrawableKind::Quad, shaders)
    }
}

/// The state after a whole sequence of window-system events, applied in
/// order.
pub open spec fn run_events(s: WinitRenderer, events: Seq<WindowLifecycleEvent>) -> WinitRenderer
    decreases events.len(),
{
    if events.len() == 0 {
        s
    } else {
        run_events(event_transition(s, events.first()), events.drop_first())
    }
}

/// Law: resizing is idempotent. Repeating a resize with the same
/// dimensions leaves the controller — the surface configuration
/// included — exactly as the first resize left it, and demands no
/// further reconfigure of the surface.
pub proof fn lemma_resize_idempotent(s: WinitRenderer, width: u32, height: u32)
    ensures
        resized_state(resized_state(s, width, height), width, height) == resized_state(
            s,
            width,
            height,
        ),
        !resize_configures(resized_state(s, width, height), width, height),
{
}

/// Law: after a suspend, every frame is an idle no-op until the next
/// resume. No sequence of events free of `Resumed` brings the controller
/// out of the suspended state, and `draw` plans nothing while it holds.
pub proof fn lemma_suspend_idles_until_resume(
    s: WinitRenderer,
    events: Seq<WindowLifecycleEvent>,
)
    requires
        forall|i: int| 0 <= i < events.len() ==> !(#[trigger] events[i] is Resumed),
    ensures
        run_events(event_transition(s, WindowLifecycleEvent::Suspended), events).state
            is Suspended,
{
    lemma_suspended_stays(event_transition(s, WindowLifecycleEvent::Suspended), events);
}

/// A suspended controller stays suspended under any events but a resume.
proof fn lemma_suspended_stays(s: WinitRenderer, events: Seq<WindowLifecycleEvent>)
    requires
        s.state is Suspended,
        forall|i: int| 0 <= i < events.len() ==> !(#[trigger] events[i] is Resumed),
    ensures
        run_events(s, events).state is Suspended,
    decreases events.len(),
{
    if events.len() > 0 {
        let next = event_transition(s, events.first());
        assert(next.state is Suspended);
        assert(forall|i: int|
            0 <= i < events.drop_first().len() ==> !(#[trigger] events.drop_first()[i]
                is Resumed));
        lemma_suspended_stays(next, events.drop_first());
    }
}

/// Law: the spurious initial resize is suppressed. After the startup
/// `NewEvents` marks the window as initializing, a resize changes
/// nothing and triggers no surface reconfigure and no redraw.
pub proof fn lemma_initial_resize_suppressed(s: WinitRenderer, width: u32, height: u32)
    ensures
        event_transition(
            event_transition(s, WindowLifecycleEvent::NewEvents { is_init: true }),
            WindowLifecycleEvent::Resized { width, height },
        ) == event_transition(s, WindowLifecycleEvent::NewEvents { is_init: true }),
        event_actions(
            event_transition(s, WindowLifecycleEvent::NewEvents { is_init: true }),
            WindowLifecycleEvent::Resized { width, height },
        ) == no_actions(),
{
}

/// Law: a zero-area resize is ignored, not an error. The controller —
/// the last valid nonzero configuration included — is left intact, and
/// no surface reconfigure is demanded.
pub proof fn lemma_zero_resize_ignored(s: WinitRenderer, width: u32, height: u32)
    requires
        width == 0 || height == 0,
    ensures
        event_transition(s, WindowLifecycleEvent::Resized { width, height }) == s,
        !event_actions(s, WindowLifecycleEvent::Resized { width, height }).configure_surface,
{
}

/// The adapter's first reported surface format and alpha mode win: a
/// deterministic (not necessarily optimal) negotiation policy.
pub fn negotiate_surface_params(formats: &Vec<u64>, alpha_modes: &Vec<u64>) -> (r: (u64, u64))
    requires
        formats@.len() > 0,
        alpha_modes@.len() > 0,
    ensures
        r.0 == formats@[0],
        r.1 == alpha_modes@[0],
{
    (formats[0], alpha_modes[0])
}

} // verus!
