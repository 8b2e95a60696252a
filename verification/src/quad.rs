//! The quad-batch drawable: converts a layer's quads (plus a synthesized
//! background quad, when the layer asks for one) into GPU instance
//! records, and builds the render pipeline for the quad primitive.
//!
//! The drawable owns a GPU-resident instance buffer of fixed capacity;
//! the number of instances submitted in one frame must not exceed it.

use vstd::prelude::*;
use crate::scalar::{ONE_BITS, POS_ZERO_BITS, is_zero_bits};
use crate::scene::{Color, white, Quad, Layer};

verus! {

/// Number of instance records the GPU-resident buffer holds; fixed at
/// creation time and never grown.
pub const QUAD_BUFFER_CAPACITY: usize = 100000;

/// Vertices in the fixed quad template: two triangles.
pub const QUAD_TEMPLATE_VERTICES: u32 = 6;

/// Multisample count used by every quad pipeline, for anti-aliased edges.
pub const QUAD_SAMPLE_COUNT: u32 = 4;

/// The primitive renderers the registry can hold. The quad renderer is
/// the one specified here; glyph, sprite and path renderers plug into the
/// same contract elsewhere.
#[derive(Clone, Copy, Debug, PartialEq, Eq, Structural)]
pub enum DrawableKind {
    Quad,
}

/// A shader stage within a pipeline.
#[derive(Clone, Copy, Debug, PartialEq, Eq, Structural)]
pub enum ShaderStage {
    Vertex,
    Fragment,
}

/// Everything that can go wrong while registering a drawable or
/// submitting a frame.
#[derive(Clone, Copy, Debug, PartialEq, Eq, Structural)]
pub enum RenderError {
    /// The shader module set has no entry for the named primitive and stage.
    MissingShader { kind: DrawableKind, stage: ShaderStage },
    /// A layer asked for more instances than the fixed buffer holds.
    CapacityExceeded { requested: usize, capacity: usize },
}

/// One compiled shader binary, keyed by the primitive it belongs to and
/// the stage it fills.
#[derive(Clone, Copy, Debug, PartialEq, Eq, Structural)]
pub struct ShaderKey {
    pub kind: DrawableKind,
    pub stage: ShaderStage,
}

/// The set of compiled shader binaries available for pipeline builds;
/// lookup by primitive and stage fails if the entry is absent.
pub struct ShaderModules {
    pub available: Vec<ShaderKey>,
}

impl ShaderModules {
    /// Whether a shader for the given primitive and stage is present.
    pub open spec fn has_shader(self, kind: DrawableKind, stage: ShaderStage) -> bool {
        exists|i: int|
            0 <= i < self.available@.len() && self.available@[i] == (ShaderKey { kind, stage })
    }

    /// An empty module set.
    pub fn new() -> (s: ShaderModules)
        ensures
            s.available@ =~= Seq::<ShaderKey>::empty(),
    {
        ShaderModules { available: Vec::new() }
    }

    /// Records one compiled shader binary.
    pub fn insert(&mut self, kind: DrawableKind, stage: ShaderStage)
        ensures
            final(self).available@ =~= old(self).available@.push(ShaderKey { kind, stage }),
    {
        self.available.push(ShaderKey { kind, stage });
    }

    /// Finds the shader for the given primitive and stage, or reports it
    /// missing.
    pub fn lookup(&self, kind: DrawableKind, stage: ShaderStage) -> (r: Result<
        usize,
        RenderError,
    >)
        ensures
            r matches Ok(i) ==> i < self.available@.len() && self.available@[i as int] == (
            ShaderKey { kind, stage }),
            r is Ok <==> self.has_shader(kind, stage),
            r matches Err(e) ==> e == (RenderError::MissingShader { kind, stage }),
    {
        let mut i: usize = 0;
        while i < self.available.len()
            invariant
                i <= self.available@.len(),
                forall|j: int|
                    0 <= j < i ==> self.available@[j] != (ShaderKey { kind, stage }),
            decreases self.available@.len() - i,
        {
            let entry = self.available[i];
            if entry.kind == kind && entry.stage == stage {
                return Ok(i);
            }
            i = i + 1;
        }
        Err(RenderError::MissingShader { kind, stage })
    }

    /// The vertex shader for a primitive, or a missing-shader error.
    pub fn get_vertex(&self, kind: DrawableKind) -> (r: Result<usize, RenderError>)
        ensures
            r is Ok <==> self.has_shader(kind, ShaderStage::Vertex),
            r matches Ok(i) ==> i < self.available@.len() && self.available@[i as int] == (
            ShaderKey { kind, stage: ShaderStage::Vertex }),
            r matches Err(e) ==> e == (RenderError::MissingShader {
                kind,
                stage: ShaderStage::Vertex,
            }),
    {
        self.lookup(kind, ShaderStage::Vertex)
    }

    /// The fragment shader for a primitive, or a missing-shader error.
    pub fn get_fragment(&self, kind: DrawableKind) -> (r: Result<usize, RenderError>)
        ensures
            r is Ok <==> self.has_shader(kind, ShaderStage::Fragment),
            r matches Ok(i) ==> i < self.available@.len() && self.available@[i as int] == (
            ShaderKey { kind, stage: ShaderStage::Fragment }),
            r matches Err(e) ==> e == (RenderError::MissingShader {
                kind,
                stage: ShaderStage::Fragment,
            }),
    {
        self.lookup(kind, ShaderStage::Fragment)
    }
}

/// The shared per-frame uniform block pushed to every drawable: the
/// surface size as float bit patterns.
#[derive(Clone, Copy, Debug, PartialEq, Eq, Structural)]
pub struct ShaderConstants {
    pub surface_width: u32,
    pub surface_height: u32,
}

/// A fixed-layout per-primitive record, ready for direct upload to the
/// GPU-resident instance array. Every field is a float bit pattern.
#[derive(Clone, Copy, Debug, PartialEq, Eq, Structural)]
pub struct InstancedQuad {
    pub pos_x: u32,
    pub pos_y: u32,
    pub size_x: u32,
    pub size_y: u32,
    pub color_r: u32,
    pub color_g: u32,
    pub color_b: u32,
    pub color_a: u32,
    pub blur_radius: u32,
}

/// The instance record a quad maps to.
pub open spec fn instanced_of(q: Quad) -> InstancedQuad {
    InstancedQuad {
        pos_x: q.x,
        pos_y: q.y,
        size_x: q.width,
        size_y: q.height,
        color_r: q.color.r,
        color_g: q.color.g,
        color_b: q.color.b,
        color_a: q.color.a,
        blur_radius: q.blur_radius,
    }
}

/// The quad an instance record denotes.
pub open spec fn quad_of(i: InstancedQuad) -> Quad {
    Quad {
        x: i.pos_x,
        y: i.pos_y,
        width: i.size_x,
        height: i.size_y,
        color: Color { r: i.color_r, g: i.color_g, b: i.color_b, a: i.color_a },
        blur_radius: i.blur_radius,
    }
}

impl Quad {
    /// Converts this quad to its GPU instance record.
    pub fn to_instanced(&self) -> (r: InstancedQuad)
        ensures
            r == instanced_of(*self),
    {
        InstancedQuad {
            pos_x: self.x,
            pos_y: self.y,
            size_x: self.width,
            size_y: self.height,
            color_r: self.color.r,
            color_g: self.color.g,
            color_b: self.color.b,
            color_a: self.color.a,
            blur_radius: self.blur_radius,
        }
    }

    /// Reads a quad back out of its GPU instance record.
    pub fn from_instanced(i: &InstancedQuad) -> (q: Quad)
        ensures
            q == quad_of(*i),
    {
        Quad {
            x: i.pos_x,
            y: i.pos_y,
            width: i.size_x,
            height: i.size_y,
            color: Color { r: i.color_r, g: i.color_g, b: i.color_b, a: i.color_a },
            blur_radius: i.blur_radius,
        }
    }
}

/// A quad and its instance record carry the same bits: converting a quad
/// to its GPU record and back returns the quad unchanged, and a record
/// rebuilt from the quad it denotes is the same record.
pub proof fn lemma_instance_round_trip(q: Quad, i: InstancedQuad)
    ensures
        quad_of(instanced_of(q)) == q,
        instanced_of(quad_of(i)) == i,
{
}

/// The background quad synthesized beneath a layer's explicit quads:
/// it covers the clip rectangle (or the whole surface when no clip is
/// set), uses the layer's background color (opaque white when only a
/// blur is asked for), and carries the layer's background blur radius.
pub open spec fn background_quad(layer: Layer, constants: ShaderConstants) -> Quad {
    Quad {
        x: if layer.clip is Some {
            layer.clip->0.x
        } else {
            POS_ZERO_BITS
        },
        y: if layer.clip is Some {
            layer.clip->0.y
        } else {
            POS_ZERO_BITS
        },
        width: if layer.clip is Some {
            layer.clip->0.width
        } else {
            constants.surface_width
        },
        height: if layer.clip is Some {
            layer.clip->0.height
        } else {
            constants.surface_height
        },
        color: if layer.background_color is Some {
            layer.background_color->0
        } else {
            Color { r: ONE_BITS, g: ONE_BITS, b: ONE_BITS, a: ONE_BITS }
        },
        blur_radius: layer.background_blur_radius,
    }
}

/// The full instance sequence one layer submits: the synthesized
/// background record, when the layer has one, followed by the layer's
/// explicit quads in their given order.
pub open spec fn layer_instances(layer: Layer, constants: ShaderConstants) -> Seq<InstancedQuad> {
    let explicit = layer.quads@.map_values(|q: Quad| instanced_of(q));
    if layer.has_background() {
        seq![instanced_of(background_quad(layer, constants))] + explicit
    } else {
        explicit
    }
}

/// A layer with no quads and no background submits nothing: no GPU
/// write and no draw call are issued for it.
pub proof fn lemma_empty_layer_draws_nothing(layer: Layer, constants: ShaderConstants)
    requires
        layer.quads@.len() == 0,
        !layer.has_background(),
    ensures
        layer_instances(layer, constants).len() == 0,
{
}

/// A layer with a background submits one more instance than it has
/// quads; the background record comes first and the explicit quads
/// follow in order.
pub proof fn lemma_background_precedes_quads(layer: Layer, constants: ShaderConstants)
    requires
        layer.has_background(),
    ensures
        layer_instances(layer, constants).len() == layer.quads@.len() + 1,
        layer_instances(layer, constants)[0] == instanced_of(background_quad(layer, constants)),
        forall|i: int|
            0 <= i < layer.quads@.len() ==> layer_instances(layer, constants)[i + 1]
                == instanced_of(layer.quads@[i]),
{
}

/// A compiled render pipeline for one drawable: named shaders, the
/// target's pixel format, alpha blending and multisampling settings.
#[derive(Clone, Copy, Debug, PartialEq, Eq, Structural)]
pub struct Pipeline {
    pub kind: DrawableKind,
    pub vertex_shader: usize,
    pub fragment_shader: usize,
    pub format: u64,
    pub sample_count: u32,
    pub alpha_blending: bool,
}

/// The GPU work one layer submits through one drawable: the instance
/// records to upload at offset zero of the drawable's buffer, and one
/// instanced draw of the fixed quad template.
pub struct DrawCommand {
    pub constants: ShaderConstants,
    pub instances: Vec<InstancedQuad>,
    pub vertices_per_instance: u32,
}

/// What a pipeline build owes: the pipeline belongs to the given
/// primitive, targets the given format with alpha blending and the fixed
/// multisample count, and both of its stage indices resolve in the
/// module set to that primitive's vertex and fragment shaders.
pub open spec fn pipeline_built(
    p: Pipeline,
    kind: DrawableKind,
    shaders: ShaderModules,
    format: u64,
) -> bool {
    &&& p.kind == kind
    &&& p.format == format
    &&& p.sample_count == QUAD_SAMPLE_COUNT
    &&& p.alpha_blending
    &&& p.vertex_shader < shaders.available@.len()
    &&& shaders.available@[p.vertex_shader as int] == (ShaderKey {
        kind,
        stage: ShaderStage::Vertex,
    })
    &&& p.fragment_shader < shaders.available@.len()
    &&& shaders.available@[p.fragment_shader as int] == (ShaderKey {
        kind,
        stage: ShaderStage::Fragment,
    })
}

/// The quad-batch drawable: owns the fixed-capacity instance buffer.
pub struct QuadState {
    pub capacity: usize,
}

impl QuadState {
    /// Allocates the drawable's GPU-side state; the instance buffer has
    /// the fixed capacity and is never resized.
    pub fn new() -> (s: QuadState)
        ensures
            s.capacity == QUAD_BUFFER_CAPACITY,
    {
        QuadState { capacity: QUAD_BUFFER_CAPACITY }
    }

    /// Compiles the quad render pipeline from the named "quad" vertex and
    /// fragment shaders, for the given target format. Fails with the
    /// missing-shader error when the module set cannot resolve a stage —
    /// the vertex stage is reported first — so a broken shader build is
    /// surfaced instead of rendering stale geometry.
    pub fn create_pipeline(&self, shaders: &ShaderModules, format: u64) -> (r: Result<
        Pipeline,
        RenderError,
    >)
        ensures
            r is Ok <==> shaders.has_shader(DrawableKind::Quad, ShaderStage::Vertex)
                && shaders.has_shader(DrawableKind::Quad, ShaderStage::Fragment),
            r matches Ok(p) ==> pipeline_built(p, DrawableKind::Quad, *shaders, format),
            r matches Err(e) ==> {
                &&& e matches RenderError::MissingShader { kind, stage }
                &&& kind == DrawableKind::Quad
                &&& !shaders.has_shader(DrawableKind::Quad, stage)
            },
    {
        let vertex_shader = match shaders.get_vertex(DrawableKind::Quad) {
            Ok(i) => i,
            Err(e) => {
                return Err(e);
            },
        };
        let fragment_shader = match shaders.get_fragment(DrawableKind::Quad) {
            Ok(i) => i,
            Err(e) => {
                return Err(e);
            },
        };
        Ok(
            Pipeline {
                kind: DrawableKind::Quad,
                vertex_shader,
                fragment_shader,
                format,
                sample_count: QUAD_SAMPLE_COUNT,
                alpha_blending: true,
            },
        )
    }

    /// The instance records one layer submits: the synthesized background
    /// first, when the layer has one, then the explicit quads in order.
    pub fn build_instances(&self, constants: ShaderConstants, layer: &Layer) -> (v: Vec<
        InstancedQuad,
    >)
        ensures
            v@ == layer_instances(*layer, constants),
    {
        let mut out: Vec<InstancedQuad> = Vec::new();
        if layer.background_color.is_some() || !is_zero_bits(layer.background_blur_radius) {
            let color = match layer.background_color {
                Some(c) => c,
                None => white(),
            };
            let bg = match layer.clip {
                Some(clip) => Quad::new(clip.x, clip.y, clip.width, clip.height, color),
                None => Quad::new(
                    POS_ZERO_BITS,
                    POS_ZERO_BITS,
                    constants.surface_width,
                    constants.surface_height,
                    color,
                ),
            };
            let bg = bg.with_background_blur(layer.background_blur_radius);
            proof {
                assert(bg == background_quad(*layer, constants));
            }
            out.push(bg.to_instanced());
        }
        let ghost head = out@;
        let mut i: usize = 0;
        while i < layer.quads.len()
            invariant
                i <= layer.quads@.len(),
                out@ == head + layer.quads@.take(i as int).map_values(
                    |q: Quad| instanced_of(q),
                ),
            decreases layer.quads@.len() - i,
        {
            let inst = layer.quads[i].to_instanced();
            out.push(inst);
            proof {
                assert(layer.quads@.take(i + 1 as int) =~= layer.quads@.take(i as int).push(
                    layer.quads@[i as int],
                ));
                assert(layer.quads@.take(i + 1 as int).map_values(|q: Quad| instanced_of(q))
                    =~= layer.quads@.take(i as int).map_values(|q: Quad| instanced_of(q)).push(
                    instanced_of(layer.quads@[i as int]),
                ));
            }
            i = i + 1;
        }
        proof {
            assert(layer.quads@.take(layer.quads@.len() as int) =~= layer.quads@);
            assert(out@ =~= layer_instances(*layer, constants));
        }
        out
    }

    /// Converts one layer to GPU work: uploads the layer's instance
    /// records (background first) to the buffer at offset zero and issues
    /// one instanced draw of the six-vertex quad template. A layer that
    /// submits nothing issues no GPU write or draw call at all; a layer
    /// that submits more instances than the buffer holds is refused with
    /// the capacity error, never truncated.
    pub fn draw(&self, constants: ShaderConstants, layer: &Layer) -> (r: Result<
        Option<DrawCommand>,
        RenderError,
    >)
        ensures
            r matches Ok(Some(cmd)) ==> {
                &&& cmd.instances@ == layer_instances(*layer, constants)
                &&& 0 < cmd.instances@.len() <= self.capacity
                &&& cmd.constants == constants
                &&& cmd.vertices_per_instance == QUAD_TEMPLATE_VERTICES
            },
            r is Ok && r->Ok_0 is None <==> layer_instances(*layer, constants).len() == 0,
            r matches Err(e) ==> e matches RenderError::CapacityExceeded { requested, capacity }
                && requested == layer_instances(*layer, constants).len() && capacity
                == self.capacity,
            r is Err <==> layer_instances(*layer, constants).len() > self.capacity,
    {
        let instances = self.build_instances(constants, layer);
        if instances.len() == 0 {
            return Ok(None);
        }
        if instances.len() > self.capacity {
            return Err(
                RenderError::CapacityExceeded {
                    requested: instances.len(),
                    capacity: self.capacity,
                },
            );
        }
        Ok(Some(DrawCommand { constants, instances, vertices_per_instance: QUAD_TEMPLATE_VERTICES }))
    }
}

} // verus!
