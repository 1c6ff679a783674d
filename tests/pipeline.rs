use effects::{
    check_framebuffers, frame_time, reduced, Allocation, BlurMainEffectShaderProgram,
    BlurScaleEffectShaderProgram, EffectRenderer, EffectShaderProgram, Error, Filter, GlHandles,
    ShaderError, ShaderProgram, Size, UniformName, UniformSet, UniformValue, BLUR_ITERATIONS,
};

fn handles() -> GlHandles {
    GlHandles {
        vao: 1,
        vbo: 2,
        scene_framebuffer: 10,
        scene_texture: 20,
        blur_framebuffer: 11,
        blur_texture: 21,
        horizontal_framebuffer: 12,
        horizontal_texture: 22,
        vertical_framebuffer: 13,
        vertical_texture: 23,
    }
}

fn composite_program() -> ShaderProgram {
    ShaderProgram {
        id: 100,
        uniforms: vec![
            (UniformName::RenderedTexture, 3),
            (UniformName::BlurTexture, 4),
            (UniformName::Time, 5),
        ],
    }
}

fn downsample_program() -> ShaderProgram {
    ShaderProgram {
        id: 101,
        uniforms: vec![(UniformName::RenderedTexture, 6), (UniformName::BlurScale, 7)],
    }
}

fn blur_program() -> ShaderProgram {
    ShaderProgram {
        id: 102,
        uniforms: vec![(UniformName::RenderedTexture, 8), (UniformName::Horizontal, 9)],
    }
}

fn renderer(width: u32, height: u32) -> EffectRenderer {
    EffectRenderer::new(
        Ok(composite_program()),
        Ok(downsample_program()),
        Ok(blur_program()),
        handles(),
        Size { width, height },
    )
    .unwrap()
}

fn size(width: u32, height: u32) -> Size {
    Size { width, height }
}

#[test]
fn end_to_end_1600_by_1200() {
    let mut r = renderer(1600, 1200);
    assert_eq!(r.scene.size, size(1600, 1200));
    assert_eq!(r.blur_base.size, size(50, 37));
    assert_eq!(r.pingpong.horizontal.size, size(50, 37));
    assert_eq!(r.pingpong.vertical.size, size(50, 37));

    let plan = r.draw(0);
    assert_eq!(plan.blur.len(), 4);
    assert_eq!(BLUR_ITERATIONS, 4);
    let c = &plan.composite;
    assert_eq!(c.framebuffer, 0);
    assert_eq!(c.program, 100);
    assert_eq!(c.viewport, size(1600, 1200));
    assert_eq!(c.texture0, 20);
    assert_eq!(c.texture1, Some(23));
    assert_eq!(r.pingpong.vertical.texture, 23);
    assert_eq!(r.pingpong.vertical.size, size(50, 37));
}

#[test]
fn construction_allocations() {
    let r = renderer(1600, 1200);
    let a = r.allocations();
    assert_eq!(
        a,
        vec![
            Allocation { framebuffer: 10, texture: 20, size: size(1600, 1200), filter: Filter::Nearest },
            Allocation { framebuffer: 11, texture: 21, size: size(50, 37), filter: Filter::Linear },
            Allocation { framebuffer: 12, texture: 22, size: size(50, 37), filter: Filter::Linear },
            Allocation { framebuffer: 13, texture: 23, size: size(50, 37), filter: Filter::Linear },
        ]
    );
}

#[test]
fn downsample_pass() {
    let mut r = renderer(1600, 1200);
    let plan = r.draw(0);
    let d = &plan.downsample;
    assert_eq!(d.program, 101);
    assert_eq!(d.framebuffer, 11);
    assert_eq!(d.viewport, size(50, 37));
    assert_eq!(d.texture0, 20);
    assert_eq!(d.texture1, None);
    assert_eq!(d.writes, Some(21));
    assert_eq!(
        d.uniforms,
        vec![
            UniformSet { location: 6, value: UniformValue::Int(0) },
            UniformSet { location: 7, value: UniformValue::Float(32) },
        ]
    );
}

#[test]
fn blur_passes_alternate_and_chain() {
    let mut r = renderer(1600, 1200);
    let plan = r.draw(0);
    let expected = [(21, 12, 22, 1), (22, 13, 23, 0), (23, 12, 22, 1), (22, 13, 23, 0)];
    for (pass, (read, fb, write, horizontal)) in plan.blur.iter().zip(expected.iter()) {
        assert_eq!(pass.program, 102);
        assert_eq!(pass.texture0, *read);
        assert_eq!(pass.framebuffer, *fb);
        assert_eq!(pass.writes, Some(*write));
        assert_eq!(pass.viewport, size(50, 37));
        assert_eq!(
            pass.uniforms,
            vec![
                UniformSet { location: 8, value: UniformValue::Int(0) },
                UniformSet { location: 9, value: UniformValue::Int(*horizontal) },
            ]
        );
    }
}

#[test]
fn composite_reads_last_written_target() {
    let mut r = renderer(640, 480);
    let plan = r.draw(7);
    let last = plan.blur.last().unwrap();
    assert_eq!(plan.composite.texture1, last.writes);
    assert_eq!(plan.blur[0].texture0, plan.downsample.writes.unwrap());
    for k in 1..plan.blur.len() {
        assert_eq!(Some(plan.blur[k].texture0), plan.blur[k - 1].writes);
        assert_ne!(plan.blur[k].writes, Some(plan.blur[k].texture0));
    }
}

#[test]
fn composite_uniforms_time_first() {
    let mut r = renderer(1600, 1200);
    let plan = r.draw(1_700_000_000_123);
    assert_eq!(
        plan.composite.uniforms,
        vec![
            UniformSet { location: 5, value: UniformValue::Float(23) },
            UniformSet { location: 3, value: UniformValue::Int(0) },
            UniformSet { location: 4, value: UniformValue::Int(1) },
        ]
    );
}

#[test]
fn draw_twice_is_identical_but_for_time() {
    let mut r = renderer(1600, 1200);
    let a = r.draw(1041);
    let b = r.draw(1099);
    assert_eq!(a.downsample.uniforms, b.downsample.uniforms);
    assert_eq!(a.downsample.texture0, b.downsample.texture0);
    assert_eq!(a.downsample.writes, b.downsample.writes);
    assert_eq!(a.blur.len(), b.blur.len());
    for (x, y) in a.blur.iter().zip(b.blur.iter()) {
        assert_eq!(x.texture0, y.texture0);
        assert_eq!(x.writes, y.writes);
        assert_eq!(x.framebuffer, y.framebuffer);
        assert_eq!(x.uniforms, y.uniforms);
    }
    assert_eq!(a.composite.texture1, b.composite.texture1);
    assert_eq!(a.composite.uniforms[1..], b.composite.uniforms[1..]);
    assert_eq!(a.composite.uniforms[0].value, UniformValue::Float(41));
    assert_eq!(b.composite.uniforms[0].value, UniformValue::Float(99));
    assert!(r.pingpong.next_horizontal);
}

#[test]
fn malformed_composite_shader_fails() {
    let r = EffectRenderer::new(
        Err(ShaderError::Compile),
        Ok(downsample_program()),
        Ok(blur_program()),
        handles(),
        size(1600, 1200),
    );
    assert!(matches!(r, Err(Error::Shader(ShaderError::Compile))));
}

#[test]
fn malformed_downsample_shader_fails() {
    let r = EffectRenderer::new(
        Ok(composite_program()),
        Err(ShaderError::Compile),
        Ok(blur_program()),
        handles(),
        size(1600, 1200),
    );
    assert!(matches!(r, Err(Error::Shader(ShaderError::Compile))));
}

#[test]
fn malformed_blur_shader_fails() {
    let r = EffectRenderer::new(
        Ok(composite_program()),
        Ok(downsample_program()),
        Err(ShaderError::Link),
        handles(),
        size(1600, 1200),
    );
    assert!(matches!(r, Err(Error::Shader(ShaderError::Link))));
}

#[test]
fn first_failing_stage_is_reported() {
    let r = EffectRenderer::new(
        Ok(composite_program()),
        Err(ShaderError::Link),
        Err(ShaderError::Compile),
        handles(),
        size(1600, 1200),
    );
    assert!(matches!(r, Err(Error::Shader(ShaderError::Link))));
}

#[test]
fn resize_sets_every_target() {
    let mut r = renderer(1600, 1200);
    for (w, h) in [(1920u32, 1080u32), (33, 31), (1, 1), (4096, 2160)] {
        let a = r.resize(w, h);
        assert_eq!(r.scene.size, size(w, h));
        assert_eq!(r.blur_base.size, size(w / 32, h / 32));
        assert_eq!(r.pingpong.horizontal.size, size(w / 32, h / 32));
        assert_eq!(r.pingpong.vertical.size, size(w / 32, h / 32));
        assert_eq!(a.len(), 4);
        assert_eq!(a[0].size, size(w, h));
        assert_eq!(a[1].size, size(w / 32, h / 32));
        assert_eq!(a[3].size, size(w / 32, h / 32));
    }
}

#[test]
fn resize_to_empty_is_ignored() {
    let mut r = renderer(1600, 1200);
    assert!(r.resize(0, 600).is_empty());
    assert!(r.resize(800, 0).is_empty());
    assert!(r.resize(0, 0).is_empty());
    assert_eq!(r.scene.size, size(1600, 1200));
    assert_eq!(r.blur_base.size, size(50, 37));
    assert_eq!(r.pingpong.horizontal.size, size(50, 37));
    assert_eq!(r.pingpong.vertical.size, size(50, 37));
}

#[test]
fn draw_after_resize_uses_new_sizes() {
    let mut r = renderer(1600, 1200);
    r.resize(800, 600);
    let plan = r.draw(0);
    let sized = |t: u32| r.allocations().iter().find(|a| a.texture == t).map(|a| a.size);
    assert_eq!(sized(plan.downsample.texture0), Some(size(800, 600)));
    assert_eq!(plan.downsample.viewport, size(25, 18));
    for p in &plan.blur {
        assert_eq!(sized(p.texture0), Some(size(25, 18)));
        assert_eq!(sized(p.writes.unwrap()), Some(size(25, 18)));
        assert_eq!(p.viewport, size(25, 18));
    }
    assert_eq!(sized(plan.composite.texture0), Some(size(800, 600)));
    assert_eq!(sized(plan.composite.texture1.unwrap()), Some(size(25, 18)));
    assert_eq!(plan.composite.viewport, size(800, 600));
}

#[test]
fn small_surface_gives_empty_blur_targets() {
    let mut r = renderer(1600, 1200);
    r.resize(20, 40);
    assert_eq!(r.blur_base.size, size(0, 1));
}

#[test]
fn setup_binds_scene_framebuffer() {
    let r = renderer(1600, 1200);
    assert_eq!(r.setup(), 10);
}

#[test]
fn absent_uniforms_are_skipped() {
    let p = EffectShaderProgram::new(Ok(ShaderProgram { id: 5, uniforms: vec![(UniformName::Time, 2)] }))
        .unwrap();
    assert_eq!(p.id(), 5);
    assert_eq!(p.u_framebuffer_texture, None);
    assert_eq!(p.u_framebuffer_blur_texture, None);
    assert_eq!(p.u_time, Some(2));
    assert!(p.update_uniforms().is_empty());
    assert_eq!(p.update_frame_uniforms(12), vec![UniformSet { location: 2, value: UniformValue::Float(12) }]);

    let s = BlurScaleEffectShaderProgram::new(Ok(ShaderProgram { id: 6, uniforms: vec![] })).unwrap();
    assert_eq!(s.id(), 6);
    assert!(s.update_uniforms(32).is_empty());

    let b = BlurMainEffectShaderProgram::new(Ok(ShaderProgram {
        id: 7,
        uniforms: vec![(UniformName::Horizontal, 0)],
    }))
    .unwrap();
    assert_eq!(b.id(), 7);
    assert_eq!(b.update_uniforms(false), vec![UniformSet { location: 0, value: UniformValue::Int(0) }]);
    assert_eq!(b.update_uniforms(true), vec![UniformSet { location: 0, value: UniformValue::Int(1) }]);
}

#[test]
fn stage_errors_pass_through() {
    assert!(matches!(EffectShaderProgram::new(Err(ShaderError::Link)), Err(ShaderError::Link)));
    assert!(matches!(BlurScaleEffectShaderProgram::new(Err(ShaderError::Compile)), Err(ShaderError::Compile)));
    assert!(matches!(BlurMainEffectShaderProgram::new(Err(ShaderError::Compile)), Err(ShaderError::Compile)));
}

#[test]
fn uniform_lookup_takes_first_match() {
    let p = ShaderProgram {
        id: 1,
        uniforms: vec![(UniformName::Time, 4), (UniformName::BlurScale, 9), (UniformName::Time, 8)],
    };
    assert_eq!(p.get_uniform_location(UniformName::Time), Some(4));
    assert_eq!(p.get_uniform_location(UniformName::BlurScale), Some(9));
    assert_eq!(p.get_uniform_location(UniformName::Horizontal), None);
    assert_eq!(ShaderProgram { id: 2, uniforms: vec![] }.get_uniform_location(UniformName::Time), None);
    assert_eq!(UniformName::BlurTexture.as_str(), "blurTexture");
    assert_eq!(UniformName::RenderedTexture.as_str(), "renderedTexture");
    assert_eq!(UniformName::Time.as_str(), "time");
    assert_eq!(UniformName::BlurScale.as_str(), "blur_scale");
    assert_eq!(UniformName::Horizontal.as_str(), "horizontal");
}

#[test]
fn framebuffer_status_check() {
    assert_eq!(check_framebuffers(&vec![true, true, true, true]), Ok(()));
    assert_eq!(check_framebuffers(&vec![true, false, true]), Err(Error::FramebufferIncomplete));
    assert_eq!(check_framebuffers(&vec![]), Ok(()));
}

#[test]
fn time_value_wraps_at_period() {
    assert_eq!(frame_time(0), 0);
    assert_eq!(frame_time(99), 99);
    assert_eq!(frame_time(100), 0);
    assert_eq!(frame_time(u64::MAX), 15);
}

#[test]
fn reduced_size_truncates() {
    assert_eq!(reduced(size(1600, 1200), 32), size(50, 37));
    assert_eq!(reduced(size(31, 64), 32), size(0, 2));
    assert_eq!(reduced(size(7, 9), 1), size(7, 9));
}

#[test]
fn handles_must_be_distinct() {
    assert!(handles().are_distinct());
    let mut h = handles();
    h.vertical_texture = h.scene_texture;
    assert!(!h.are_distinct());
    let mut h = handles();
    h.blur_framebuffer = 0;
    assert!(!h.are_distinct());
    let mut h = handles();
    h.horizontal_texture = 0;
    assert!(!h.are_distinct());
}

#[test]
fn constructor_resolves_stage_uniforms() {
    let r = renderer(1600, 1200);
    assert_eq!(r.program.u_framebuffer_texture, Some(3));
    assert_eq!(r.program.u_framebuffer_blur_texture, Some(4));
    assert_eq!(r.program.u_time, Some(5));
    assert_eq!(r.blur_scale_program.u_framebuffer_texture, Some(6));
    assert_eq!(r.blur_scale_program.u_blur_scale, Some(7));
    assert_eq!(r.blur_main_program.u_frame_buffer_texture, Some(8));
    assert_eq!(r.blur_main_program.u_horizontal, Some(9));
}
