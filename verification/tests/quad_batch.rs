use scene_compositor::{
    Color, DrawableKind, Layer, Quad, QuadState, RenderError, ShaderConstants, ShaderModules,
    ShaderStage, white, QUAD_BUFFER_CAPACITY, QUAD_SAMPLE_COUNT, QUAD_TEMPLATE_VERTICES,
};

fn constants(width: f32, height: f32) -> ShaderConstants {
    ShaderConstants { surface_width: width.to_bits(), surface_height: height.to_bits() }
}

fn colored(r: f32, g: f32, b: f32, a: f32) -> Color {
    Color { r: r.to_bits(), g: g.to_bits(), b: b.to_bits(), a: a.to_bits() }
}

fn quad_at(x: f32, y: f32, w: f32, h: f32, color: Color) -> Quad {
    Quad::new(x.to_bits(), y.to_bits(), w.to_bits(), h.to_bits(), color)
}

#[test]
fn empty_layer_issues_nothing() {
    let qs = QuadState::new();
    let layer = Layer::new();
    let r = qs.draw(constants(800.0, 600.0), &layer);
    match r {
        Ok(None) => {}
        _ => panic!("an empty layer must issue no GPU write or draw call"),
    }
}

#[test]
fn background_precedes_explicit_quads() {
    let qs = QuadState::new();
    let mut layer = Layer::new();
    layer.background_color = Some(colored(0.25, 0.5, 0.75, 1.0));
    let q1 = quad_at(1.0, 2.0, 3.0, 4.0, colored(0.1, 0.2, 0.3, 0.4));
    let q2 = quad_at(5.0, 6.0, 7.0, 8.0, colored(0.9, 0.8, 0.7, 0.6));
    layer.quads.push(q1);
    layer.quads.push(q2);
    let cmd = qs
        .draw(constants(800.0, 600.0), &layer)
        .expect("fits well under capacity")
        .expect("three instances are submitted");
    assert_eq!(cmd.instances.len(), 3);
    assert_eq!(cmd.vertices_per_instance, QUAD_TEMPLATE_VERTICES);
    // The synthesized background comes first and covers the full surface.
    assert_eq!(cmd.instances[0].pos_x, 0.0f32.to_bits());
    assert_eq!(cmd.instances[0].pos_y, 0.0f32.to_bits());
    assert_eq!(cmd.instances[0].size_x, 800.0f32.to_bits());
    assert_eq!(cmd.instances[0].size_y, 600.0f32.to_bits());
    assert_eq!(cmd.instances[0].color_r, 0.25f32.to_bits());
    // The explicit quads follow in their given order.
    assert_eq!(cmd.instances[1], q1.to_instanced());
    assert_eq!(cmd.instances[2], q2.to_instanced());
}

#[test]
fn background_covers_clip_extent() {
    let qs = QuadState::new();
    let mut layer = Layer::new();
    layer.background_color = Some(colored(0.0, 0.0, 0.0, 1.0));
    layer.clip = Some(scene_compositor::Rect {
        x: 16.0f32.to_bits(),
        y: 32.0f32.to_bits(),
        width: 128.0f32.to_bits(),
        height: 64.0f32.to_bits(),
    });
    let cmd = qs
        .draw(constants(800.0, 600.0), &layer)
        .unwrap()
        .expect("the background alone is one instance");
    assert_eq!(cmd.instances.len(), 1);
    assert_eq!(cmd.instances[0].pos_x, 16.0f32.to_bits());
    assert_eq!(cmd.instances[0].pos_y, 32.0f32.to_bits());
    assert_eq!(cmd.instances[0].size_x, 128.0f32.to_bits());
    assert_eq!(cmd.instances[0].size_y, 64.0f32.to_bits());
}

#[test]
fn blur_without_color_gets_white_background() {
    let qs = QuadState::new();
    let mut layer = Layer::new();
    layer.background_blur_radius = 12.5f32.to_bits();
    let cmd = qs
        .draw(constants(640.0, 480.0), &layer)
        .unwrap()
        .expect("a nonzero blur synthesizes a background");
    assert_eq!(cmd.instances.len(), 1);
    let w = white();
    assert_eq!(cmd.instances[0].color_r, w.r);
    assert_eq!(cmd.instances[0].color_g, w.g);
    assert_eq!(cmd.instances[0].color_b, w.b);
    assert_eq!(cmd.instances[0].color_a, w.a);
    assert_eq!(cmd.instances[0].color_r, 1.0f32.to_bits());
    assert_eq!(cmd.instances[0].blur_radius, 12.5f32.to_bits());
}

#[test]
fn negative_zero_blur_is_still_no_background() {
    let qs = QuadState::new();
    let mut layer = Layer::new();
    layer.background_blur_radius = (-0.0f32).to_bits();
    match qs.draw(constants(640.0, 480.0), &layer) {
        Ok(None) => {}
        _ => panic!("a blur radius of -0.0 is zero: no background"),
    }
}

#[test]
fn quad_round_trips_through_instance_record() {
    let q = quad_at(10.25, -3.5, 200.125, 96.0, colored(0.125, 0.875, 0.333, 0.5))
        .with_background_blur(4.75f32.to_bits());
    let inst = q.to_instanced();
    let back = Quad::from_instanced(&inst);
    assert_eq!(back, q);
    // Bit for bit, through the float values as well.
    assert_eq!(f32::from_bits(back.x), 10.25);
    assert_eq!(f32::from_bits(back.y), -3.5);
    assert_eq!(f32::from_bits(back.width), 200.125);
    assert_eq!(f32::from_bits(back.height), 96.0);
    assert_eq!(f32::from_bits(back.color.g), 0.875);
    assert_eq!(f32::from_bits(back.blur_radius), 4.75);
}

#[test]
fn exactly_capacity_succeeds_capacity_plus_one_errs() {
    let qs = QuadState::new();
    let template = quad_at(0.0, 0.0, 1.0, 1.0, colored(1.0, 0.0, 0.0, 1.0));
    let mut layer = Layer::new();
    for _ in 0..QUAD_BUFFER_CAPACITY {
        layer.quads.push(template);
    }
    let cmd = qs
        .draw(constants(800.0, 600.0), &layer)
        .expect("exactly the buffer capacity fits")
        .expect("capacity-many instances are submitted");
    assert_eq!(cmd.instances.len(), QUAD_BUFFER_CAPACITY);

    layer.quads.push(template);
    match qs.draw(constants(800.0, 600.0), &layer) {
        Err(RenderError::CapacityExceeded { requested, capacity }) => {
            assert_eq!(requested, QUAD_BUFFER_CAPACITY + 1);
            assert_eq!(capacity, QUAD_BUFFER_CAPACITY);
        }
        _ => panic!("one instance past capacity must take the overflow error path"),
    }
}

#[test]
fn missing_shaders_fail_pipeline_build() {
    let qs = QuadState::new();
    let mut shaders = ShaderModules::new();
    match qs.create_pipeline(&shaders, 3) {
        Err(RenderError::MissingShader { kind: DrawableKind::Quad, stage: ShaderStage::Vertex }) => {
        }
        _ => panic!("an empty module set must miss the vertex shader"),
    }
    shaders.insert(DrawableKind::Quad, ShaderStage::Vertex);
    match qs.create_pipeline(&shaders, 3) {
        Err(RenderError::MissingShader {
            kind: DrawableKind::Quad,
            stage: ShaderStage::Fragment,
        }) => {}
        _ => panic!("with only a vertex shader the fragment stage is missing"),
    }
    shaders.insert(DrawableKind::Quad, ShaderStage::Fragment);
    let p = qs.create_pipeline(&shaders, 3).expect("both stages resolve");
    assert_eq!(p.format, 3);
    assert_eq!(p.sample_count, QUAD_SAMPLE_COUNT);
    assert!(p.alpha_blending);
    assert_eq!(p.kind, DrawableKind::Quad);
}
