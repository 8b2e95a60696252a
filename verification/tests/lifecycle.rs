use scene_compositor::{
    AcquireOutcome, Color, DrawableKind, FramePlan, Layer, Quad, Scene, ShaderModules,
    ShaderStage, SurfaceState, WindowLifecycleEvent, WinitRenderer, negotiate_surface_params,
    px_to_f32_bits, is_zero_bits, Renderer,
};

fn full_shader_set() -> ShaderModules {
    let mut shaders = ShaderModules::new();
    shaders.insert(DrawableKind::Quad, ShaderStage::Vertex);
    shaders.insert(DrawableKind::Quad, ShaderStage::Fragment);
    shaders
}

fn one_quad_layer() -> Layer {
    let mut layer = Layer::new();
    layer.quads.push(Quad::new(
        1.0f32.to_bits(),
        2.0f32.to_bits(),
        3.0f32.to_bits(),
        4.0f32.to_bits(),
        Color {
            r: 1.0f32.to_bits(),
            g: 0.0f32.to_bits(),
            b: 0.0f32.to_bits(),
            a: 1.0f32.to_bits(),
        },
    ));
    layer
}

#[test]
fn pixel_counts_convert_to_exact_float_bits() {
    for v in [0u32, 1, 2, 3, 5, 255, 256, 640, 600, 800, 1023, 1920, 4096, 0x00FF_FFFF] {
        assert_eq!(px_to_f32_bits(v), (v as f32).to_bits(), "pixel count {v}");
    }
}

#[test]
fn zero_bit_patterns_match_float_zeroes() {
    assert!(is_zero_bits(0.0f32.to_bits()));
    assert!(is_zero_bits((-0.0f32).to_bits()));
    assert!(!is_zero_bits(1.0f32.to_bits()));
    assert!(!is_zero_bits(f32::MIN_POSITIVE.to_bits()));
}

#[test]
fn negotiation_takes_first_reported_options() {
    let formats = vec![7u64, 8, 9];
    let alpha_modes = vec![2u64, 1];
    assert_eq!(negotiate_surface_params(&formats, &alpha_modes), (7, 2));
}

#[test]
fn suspend_makes_draw_idle_until_resume() {
    let mut w = WinitRenderer::new(800, 600, 1, 1);
    let shaders = full_shader_set();
    w.add_default_drawables(&shaders).unwrap();
    let mut scene = Scene::new();
    scene.layers.push(one_quad_layer());

    match w.draw(&scene).unwrap() {
        FramePlan::Render(fc) => assert_eq!(fc.draws.len(), 1),
        FramePlan::Idle => panic!("an active surface renders"),
    }

    w.handle_event(WindowLifecycleEvent::Suspended);
    assert_eq!(w.state, SurfaceState::Suspended);
    for _ in 0..3 {
        match w.draw(&scene).unwrap() {
            FramePlan::Idle => {}
            FramePlan::Render(_) => panic!("a suspended surface draws nothing"),
        }
        w.handle_event(WindowLifecycleEvent::Resized { width: 320, height: 240 });
    }

    let actions = w.handle_event(WindowLifecycleEvent::Resumed { format: 1, alpha_mode: 1 });
    assert!(actions.configure_surface);
    assert!(actions.request_redraw);
    assert_eq!(w.state, SurfaceState::Active);
    match w.draw(&scene).unwrap() {
        FramePlan::Render(_) => {}
        FramePlan::Idle => panic!("a resumed surface renders again"),
    }
}

#[test]
fn initial_resize_is_suppressed() {
    let mut w = WinitRenderer::new(800, 600, 1, 1);
    w.handle_event(WindowLifecycleEvent::NewEvents { is_init: true });
    let actions = w.handle_event(WindowLifecycleEvent::Resized { width: 1024, height: 768 });
    assert!(!actions.configure_surface);
    assert!(!actions.request_redraw);
    assert_eq!(w.surface_config.width, 800);
    assert_eq!(w.surface_config.height, 600);

    w.handle_event(WindowLifecycleEvent::NewEvents { is_init: false });
    let actions = w.handle_event(WindowLifecycleEvent::Resized { width: 1024, height: 768 });
    assert!(actions.configure_surface);
    assert!(actions.request_redraw);
    assert_eq!(w.surface_config.width, 1024);
    assert_eq!(w.surface_config.height, 768);
}

#[test]
fn zero_area_resize_keeps_last_valid_configuration() {
    let mut w = WinitRenderer::new(800, 600, 5, 6);
    let actions = w.handle_event(WindowLifecycleEvent::Resized { width: 0, height: 0 });
    assert!(!actions.configure_surface);
    assert_eq!(w.surface_config.width, 800);
    assert_eq!(w.surface_config.height, 600);
    assert_eq!(w.surface_config.format, 5);
    assert_eq!(w.surface_config.alpha_mode, 6);

    let actions = w.handle_event(WindowLifecycleEvent::Resized { width: 0, height: 300 });
    assert!(!actions.configure_surface);
    assert_eq!(w.surface_config.height, 600);
}

#[test]
fn repeated_resize_reconfigures_only_once() {
    let mut w = WinitRenderer::new(800, 600, 1, 1);
    assert!(w.resize(640, 480));
    assert!(!w.resize(640, 480));
    assert_eq!(w.surface_config.width, 640);
    assert_eq!(w.surface_config.height, 480);
}

#[test]
fn frame_completion_classifies_outcomes() {
    let w = WinitRenderer::new(800, 600, 1, 1);
    let ok = w.complete_frame(AcquireOutcome::Acquired);
    assert!(ok.presented && !ok.reconfigure_surface);
    let lost = w.complete_frame(AcquireOutcome::Lost);
    assert!(!lost.presented && lost.reconfigure_surface);
    let oom = w.complete_frame(AcquireOutcome::OutOfMemory);
    assert!(!oom.presented && !oom.reconfigure_surface);
    let other = w.complete_frame(AcquireOutcome::OtherError);
    assert!(!other.presented && !other.reconfigure_surface);
}

#[test]
fn render_walks_layers_in_scene_order() {
    let mut renderer = Renderer::new(800, 600, 1);
    renderer.add_default_drawables(&full_shader_set()).unwrap();
    let mut scene = Scene::new();
    let mut first = Layer::new();
    first.background_color = Some(Color {
        r: 0.5f32.to_bits(),
        g: 0.5f32.to_bits(),
        b: 0.5f32.to_bits(),
        a: 1.0f32.to_bits(),
    });
    scene.layers.push(first);
    scene.layers.push(Layer::new()); // contributes no draw call
    scene.layers.push(one_quad_layer());

    let fc = renderer.render(&scene).unwrap();
    assert_eq!(fc.constants.surface_width, 800.0f32.to_bits());
    assert_eq!(fc.constants.surface_height, 600.0f32.to_bits());
    assert_eq!(fc.draws.len(), 2);
    // First the backgrounded layer, then the quad layer; the empty layer is skipped.
    assert_eq!(fc.draws[0].command.instances.len(), 1);
    assert_eq!(fc.draws[0].command.instances[0].color_r, 0.5f32.to_bits());
    assert_eq!(fc.draws[1].command.instances.len(), 1);
    assert_eq!(fc.draws[1].command.instances[0].pos_x, 1.0f32.to_bits());
}

#[test]
fn shader_reload_rebuilds_pipelines_for_current_format() {
    let mut w = WinitRenderer::new(800, 600, 1, 1);
    let shaders = full_shader_set();
    w.add_default_drawables(&shaders).unwrap();
    let actions = w.on_shaders_reloaded(&shaders).expect("the set still resolves");
    assert!(actions.request_redraw);
    assert!(!actions.configure_surface);

    let incomplete = {
        let mut s = ShaderModules::new();
        s.insert(DrawableKind::Quad, ShaderStage::Vertex);
        s
    };
    match w.on_shaders_reloaded(&incomplete) {
        Err(scene_compositor::RenderError::MissingShader { stage: ShaderStage::Fragment, .. }) => {}
        _ => panic!("a reload that loses the fragment shader must fail"),
    }
}

#[test]
fn registration_fails_loudly_without_shaders() {
    let w = WinitRenderer::new(800, 600, 1, 1);
    let empty = ShaderModules::new();
    match w.with_default_drawables(&empty) {
        Err(scene_compositor::RenderError::MissingShader { .. }) => {}
        _ => panic!("registration surfaces the pipeline build failure"),
    }
    let w = WinitRenderer::new(800, 600, 1, 1);
    let w = w.with_default_drawables(&full_shader_set()).unwrap();
    // The builder hands back the same controller, but for the new entry.
    assert_eq!(w.state, SurfaceState::Active);
    assert_eq!(w.surface_config.width, 800);
    assert_eq!(w.surface_config.height, 600);
    assert_eq!(w.surface_config.format, 1);
    let mut scene = Scene::new();
    scene.layers.push(one_quad_layer());
    match w.draw(&scene).unwrap() {
        FramePlan::Render(fc) => assert_eq!(fc.draws.len(), 1),
        FramePlan::Idle => panic!("active surface with a registered drawable renders"),
    }
}
