//! A GPU-accelerated 2D scene compositor core.
//!
//! The library turns a declarative scene description (layers of colored,
//! optionally blurred rectangles) into per-frame instanced draw commands,
//! and drives the window-surface lifecycle state machine that keeps a
//! presentation surface consistent with window-system events (resume,
//! suspend, resize, transient surface loss).
//!
//! All scalar quantities that the presentation layer treats as 32-bit
//! floating-point values (positions, sizes, colors, blur radii) are carried
//! here as their raw bit patterns, so that the compositing logic moves them
//! without interpreting them.

mod quad;
mod scalar;
mod scene;
mod winit_renderer;

pub use scalar::{
    ONE_BITS, POS_ZERO_BITS, NEG_ZERO_BITS, MAX_EXACT_PIXELS, zero_bits, is_zero_bits,
    floor_log2, f32_bits_of_px, px_to_f32_bits,
};
pub use scene::{Color, white, Rect, Quad, Layer, Scene};
pub use quad::{
    QUAD_BUFFER_CAPACITY, QUAD_TEMPLATE_VERTICES, QUAD_SAMPLE_COUNT, DrawableKind, ShaderStage,
    RenderError, ShaderKey, ShaderModules, ShaderConstants, InstancedQuad, instanced_of, quad_of,
    lemma_instance_round_trip, background_quad, layer_instances, lemma_empty_layer_draws_nothing,
    lemma_background_precedes_quads, Pipeline, pipeline_built, DrawCommand, QuadState,
};
pub use winit_renderer::{
    DrawableState, DrawableEntry, well_built_entry, registered, entry_fits, layer_fits, scene_fits, layer_draws, scene_draws,
    LayerDraw, draw_view, draws_view, clamp_px, Renderer, FrameCommands, SurfaceState,
    SurfaceConfig, WindowLifecycleEvent, EventActions, no_actions, AcquireOutcome, FrameStatus,
    FramePlan, WinitRenderer, resized_state, resize_configures, event_transition, event_actions,
    negotiate_surface_params, run_events, lemma_resize_idempotent,
    lemma_suspend_idles_until_resume, lemma_initial_resize_suppressed, lemma_zero_resize_ignored,
};
