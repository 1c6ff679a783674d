use vstd::prelude::*;

use crate::shader::{
    location_of, BlurMainEffectShaderProgram, BlurScaleEffectShaderProgram, EffectShaderProgram,
    ShaderError, ShaderProgram, UniformName, UniformSet,
};
use crate::target::{reduced, reduced_spec, Allocation, Filter, PingPong, RenderTarget, Size};

verus! {

/// Factor by which the blur targets are smaller than the surface, per side.
pub const BLUR_SCALE: u32 = 32;

/// Number of one-axis blur passes per frame (horizontal first).
pub const BLUR_ITERATIONS: usize = 4;

/// The time uniform is the wall clock in milliseconds modulo this period.
pub const TIME_PERIOD: u64 = 100;

/// Why the pipeline could not be set up.
#[derive(Clone, Copy, Debug, PartialEq, Eq, Structural)]
pub enum Error {
    /// One of the three shader stages failed to compile or link.
    Shader(ShaderError),
    /// The driver reported a framebuffer as incomplete.
    FramebufferIncomplete,
}

/// The driver objects that the pipeline owns: the quad's vertex array and
/// buffer, and a framebuffer and color texture for each of its four targets.
#[derive(Clone, Copy, Debug, PartialEq, Eq, Structural)]
pub struct GlHandles {
    pub vao: u32,
    pub vbo: u32,
    pub scene_framebuffer: u32,
    pub scene_texture: u32,
    pub blur_framebuffer: u32,
    pub blur_texture: u32,
    pub horizontal_framebuffer: u32,
    pub horizontal_texture: u32,
    pub vertical_framebuffer: u32,
    pub vertical_texture: u32,
}

impl GlHandles {
    /// Each target has a framebuffer and a texture of its own, and no handle
    /// is 0 (the default framebuffer, or no texture).
    pub open spec fn distinct(self) -> bool {
        &&& self.scene_framebuffer != 0
        &&& self.blur_framebuffer != 0
        &&& self.horizontal_framebuffer != 0
        &&& self.vertical_framebuffer != 0
        &&& self.scene_texture != 0
        &&& self.blur_texture != 0
        &&& self.horizontal_texture != 0
        &&& self.vertical_texture != 0
        &&& self.scene_framebuffer != self.blur_framebuffer
        &&& self.scene_framebuffer != self.horizontal_framebuffer
        &&& self.scene_framebuffer != self.vertical_framebuffer
        &&& self.blur_framebuffer != self.horizontal_framebuffer
        &&& self.blur_framebuffer != self.vertical_framebuffer
        &&& self.horizontal_framebuffer != self.vertical_framebuffer
        &&& self.scene_texture != self.blur_texture
        &&& self.scene_texture != self.horizontal_texture
        &&& self.scene_texture != self.vertical_texture
        &&& self.blur_texture != self.horizontal_texture
        &&& self.blur_texture != self.vertical_texture
        &&& self.horizontal_texture != self.vertical_texture
    }

    pub fn are_distinct(&self) -> (r: bool)
        ensures
            r == self.distinct(),
    {
        self.scene_framebuffer != 0 && self.blur_framebuffer != 0
            && self.horizontal_framebuffer != 0 && self.vertical_framebuffer != 0
            && self.scene_texture != 0 && self.blur_texture != 0
            && self.horizontal_texture != 0 && self.vertical_texture != 0
            && self.scene_framebuffer != self.blur_framebuffer
            && self.scene_framebuffer != self.horizontal_framebuffer
            && self.scene_framebuffer != self.vertical_framebuffer
            && self.blur_framebuffer != self.horizontal_framebuffer
            && self.blur_framebuffer != self.vertical_framebuffer
            && self.horizontal_framebuffer != self.vertical_framebuffer
            && self.scene_texture != self.blur_texture
            && self.scene_texture != self.horizontal_texture
            && self.scene_texture != self.vertical_texture
            && self.blur_texture != self.horizontal_texture
            && self.blur_texture != self.vertical_texture
            && self.horizontal_texture != self.vertical_texture
    }
}

/// One full-screen quad draw: the program in use, the framebuffer drawn
/// into (0 is the screen) and its viewport, the texture bound to unit 0 and
/// the one bound to unit 1 if any, the texture that the draw writes, and the
/// uniform updates made before it.
#[derive(Debug)]
pub struct Pass {
    pub program: u32,
    pub framebuffer: u32,
    pub viewport: Size,
    pub texture0: u32,
    pub texture1: Option<u32>,
    pub writes: Option<u32>,
    pub uniforms: Vec<UniformSet>,
}

pub struct PassView {
    pub program: u32,
    pub framebuffer: u32,
    pub viewport: Size,
    pub texture0: u32,
    pub texture1: Option<u32>,
    pub writes: Option<u32>,
    pub uniforms: Seq<UniformSet>,
}

impl View for Pass {
    type V = PassView;

    open spec fn view(&self) -> PassView {
        PassView {
            program: self.program,
            framebuffer: self.framebuffer,
            viewport: self.viewport,
            texture0: self.texture0,
            texture1: self.texture1,
            writes: self.writes,
            uniforms: self.uniforms@,
        }
    }
}

/// The passes of one frame, in the order they run: downsample, the blur
/// passes, composite.
#[derive(Debug)]
pub struct FramePlan {
    pub downsample: Pass,
    pub blur: Vec<Pass>,
    pub composite: Pass,
}

pub struct FrameView {
    pub downsample: PassView,
    pub blur: Seq<PassView>,
    pub composite: PassView,
}

impl View for FramePlan {
    type V = FrameView;

    open spec fn view(&self) -> FrameView {
        FrameView {
            downsample: self.downsample@,
            blur: self.blur@.map_values(|p: Pass| p@),
            composite: self.composite@,
        }
    }
}

/// The time value handed to the composite shader.
pub fn frame_time(now_millis: u64) -> (r: u32)
    ensures
        r == now_millis % TIME_PERIOD,
{
    (now_millis % TIME_PERIOD) as u32
}

/// Succeeds exactly when every framebuffer status reads complete.
pub fn check_framebuffers(complete: &Vec<bool>) -> (r: Result<(), Error>)
    ensures
        r is Ok <==> forall|i: int| 0 <= i < complete@.len() ==> complete@[i],
        r is Err ==> r == Err::<(), Error>(Error::FramebufferIncomplete),
{
    let mut i: usize = 0;
    while i < complete.len()
        invariant
            0 <= i <= complete@.len(),
            forall|j: int| 0 <= j < i ==> complete@[j],
        decreases complete@.len() - i,
    {
        if !complete[i] {
            return Err(Error::FramebufferIncomplete);
        }
        i = i + 1;
    }
    Ok(())
}

/// The first failure among the three stages, in the order they are built.
pub open spec fn first_error(
    a: Result<ShaderProgram, ShaderError>,
    b: Result<ShaderProgram, ShaderError>,
    c: Result<ShaderProgram, ShaderError>,
) -> Option<ShaderError> {
    if a is Err {
        Some(a->Err_0)
    } else if b is Err {
        Some(b->Err_0)
    } else if c is Err {
        Some(c->Err_0)
    } else {
        None
    }
}

/// The whole pipeline: quad, scene capture at surface size, blur base and
/// ping-pong pair at the reduced size, and the three shader stages.
#[derive(Debug)]
pub struct EffectRenderer {
    pub vao: u32,
    pub vbo: u32,
    pub size: Size,
    pub blur_scale: u32,
    pub scene: RenderTarget,
    pub blur_base: RenderTarget,
    pub pingpong: PingPong,
    pub program: EffectShaderProgram,
    pub blur_scale_program: BlurScaleEffectShaderProgram,
    pub blur_main_program: BlurMainEffectShaderProgram,
}

impl EffectRenderer {
    pub open spec fn handles(&self) -> GlHandles {
        GlHandles {
            vao: self.vao,
            vbo: self.vbo,
            scene_framebuffer: self.scene.framebuffer,
            scene_texture: self.scene.texture,
            blur_framebuffer: self.blur_base.framebuffer,
            blur_texture: self.blur_base.texture,
            horizontal_framebuffer: self.pingpong.horizontal.framebuffer,
            horizontal_texture: self.pingpong.horizontal.texture,
            vertical_framebuffer: self.pingpong.vertical.framebuffer,
            vertical_texture: self.pingpong.vertical.texture,
        }
    }

    /// The size of the downsampled targets for the current surface.
    pub open spec fn reduced_size(&self) -> Size {
        reduced_spec(self.size, self.blur_scale)
    }

    /// Between frames: the scene target has the surface size, the three
    /// blur targets the reduced size, filters are fixed, handles are
    /// distinct, and the ping-pong pair will start with a horizontal pass.
    pub open spec fn wf(&self) -> bool {
        &&& self.blur_scale == BLUR_SCALE
        &&& self.scene.size == self.size
        &&& self.blur_base.size == self.reduced_size()
        &&& self.pingpong.horizontal.size == self.reduced_size()
        &&& self.pingpong.vertical.size == self.reduced_size()
        &&& self.scene.filter == Filter::Nearest
        &&& self.blur_base.filter == Filter::Linear
        &&& self.pingpong.horizontal.filter == Filter::Linear
        &&& self.pingpong.vertical.filter == Filter::Linear
        &&& self.pingpong.next_horizontal
        &&& self.handles().distinct()
    }

    /// The size at which a texture of the pipeline is currently allocated.
    pub open spec fn allocated_size(&self, texture: u32) -> Option<Size> {
        if texture == self.scene.texture {
            Some(self.scene.size)
        } else if texture == self.blur_base.texture {
            Some(self.blur_base.size)
        } else if texture == self.pingpong.horizontal.texture {
            Some(self.pingpong.horizontal.size)
        } else if texture == self.pingpong.vertical.texture {
            Some(self.pingpong.vertical.size)
        } else {
            None
        }
    }

    /// The four targets' allocations: scene, blur base, horizontal,
    /// vertical.
    pub open spec fn allocations_spec(&self) -> Seq<Allocation> {
        seq![
            self.scene.allocation_spec(),
            self.blur_base.allocation_spec(),
            self.pingpong.horizontal.allocation_spec(),
            self.pingpong.vertical.allocation_spec(),
        ]
    }

    /// The state after a resize request: unchanged for an empty surface,
    /// else every target reallocated for the new size.
    pub open spec fn resized(self, width: u32, height: u32) -> EffectRenderer {
        if width == 0 || height == 0 {
            self
        } else {
            let size = Size { width: width, height: height };
            let small = reduced_spec(size, self.blur_scale);
            EffectRenderer {
                size: size,
                scene: self.scene.resized_spec(size),
                blur_base: self.blur_base.resized_spec(small),
                pingpong: PingPong {
                    horizontal: self.pingpong.horizontal.resized_spec(small),
                    vertical: self.pingpong.vertical.resized_spec(small),
                    ..self.pingpong
                },
                ..self
            }
        }
    }

    /// The target written by blur pass `k`: horizontal passes (even `k`)
    /// write the horizontal target, vertical ones the vertical target.
    pub open spec fn blur_write(&self, k: int) -> RenderTarget {
        if k % 2 == 0 { self.pingpong.horizontal } else { self.pingpong.vertical }
    }

    /// The texture read by blur pass `k`: the downsampled scene for the first
    /// pass, else what the pass before wrote.
    pub open spec fn blur_source(&self, k: int) -> u32 {
        if k <= 0 { self.blur_base.texture } else { self.blur_write(k - 1).texture }
    }

    pub open spec fn downsample_pass(&self) -> PassView {
        PassView {
            program: self.blur_scale_program.program.id,
            framebuffer: self.blur_base.framebuffer,
            viewport: self.blur_base.size,
            texture0: self.scene.texture,
            texture1: None,
            writes: Some(self.blur_base.texture),
            uniforms: self.blur_scale_program.uniforms_spec(self.blur_scale),
        }
    }

    pub open spec fn blur_pass(&self, k: int) -> PassView {
        PassView {
            program: self.blur_main_program.program.id,
            framebuffer: self.blur_write(k).framebuffer,
            viewport: self.blur_base.size,
            texture0: self.blur_source(k),
            texture1: None,
            writes: Some(self.blur_write(k).texture),
            uniforms: self.blur_main_program.uniforms_spec(k % 2 == 0),
        }
    }

    pub open spec fn composite_pass(&self, time: u32) -> PassView {
        PassView {
            program: self.program.program.id,
            framebuffer: 0,
            viewport: self.size,
            texture0: self.scene.texture,
            texture1: Some(self.blur_source(BLUR_ITERATIONS as int)),
            writes: None,
            uniforms: self.program.frame_uniforms_spec(time) + self.program.uniforms_spec(),
        }
    }

    /// The passes of a frame drawn with the given time value.
    pub open spec fn frame(&self, time: u32) -> FrameView {
        FrameView {
            downsample: self.downsample_pass(),
            blur: Seq::new(BLUR_ITERATIONS as nat, |k: int| self.blur_pass(k)),
            composite: self.composite_pass(time),
        }
    }

    /// Builds the pipeline at the surface's size from the three compiled
    /// stages (composite, downsample, blur) and the driver objects. Fails
    /// with the first stage's error, and then yields no pipeline at all.
    pub fn new(
        program: Result<ShaderProgram, ShaderError>,
        blur_scale_program: Result<ShaderProgram, ShaderError>,
        blur_main_program: Result<ShaderProgram, ShaderError>,
        handles: GlHandles,
        size: Size,
    ) -> (r: Result<Self, Error>)
        requires
            handles.distinct(),
        ensures
            r is Err <==> first_error(program, blur_scale_program, blur_main_program) is Some,
            r is Err ==> r == Err::<Self, Error>(
                Error::Shader(first_error(program, blur_scale_program, blur_main_program)->Some_0),
            ),
            r matches Ok(p) ==> {
                &&& p.wf()
                &&& p.size == size
                &&& p.handles() == handles
                &&& p.program.program == program->Ok_0
                &&& p.blur_scale_program.program == blur_scale_program->Ok_0
                &&& p.blur_main_program.program == blur_main_program->Ok_0
                &&& p.program.u_framebuffer_texture == location_of(
                    p.program.program.uniforms@,
                    UniformName::RenderedTexture,
                )
                &&& p.program.u_framebuffer_blur_texture == location_of(
                    p.program.program.uniforms@,
                    UniformName::BlurTexture,
                )
                &&& p.program.u_time == location_of(p.program.program.uniforms@, UniformName::Time)
                &&& p.blur_scale_program.u_framebuffer_texture == location_of(
                    p.blur_scale_program.program.uniforms@,
                    UniformName::RenderedTexture,
                )
                &&& p.blur_scale_program.u_blur_scale == location_of(
                    p.blur_scale_program.program.uniforms@,
                    UniformName::BlurScale,
                )
                &&& p.blur_main_program.u_frame_buffer_texture == location_of(
                    p.blur_main_program.program.uniforms@,
                    UniformName::RenderedTexture,
                )
                &&& p.blur_main_program.u_horizontal == location_of(
                    p.blur_main_program.program.uniforms@,
                    UniformName::Horizontal,
                )
            },
    {
        let program = match EffectShaderProgram::new(program) {
            Ok(p) => p,
            Err(e) => return Err(Error::Shader(e)),
        };
        let blur_scale_program = match BlurScaleEffectShaderProgram::new(blur_scale_program) {
            Ok(p) => p,
            Err(e) => return Err(Error::Shader(e)),
        };
        let blur_main_program = match BlurMainEffectShaderProgram::new(blur_main_program) {
            Ok(p) => p,
            Err(e) => return Err(Error::Shader(e)),
        };
        let small = reduced(size, BLUR_SCALE);
        let scene = RenderTarget {
            framebuffer: handles.scene_framebuffer,
            texture: handles.scene_texture,
            size: size,
            filter: Filter::Nearest,
        };
        let blur_base = RenderTarget {
            framebuffer: handles.blur_framebuffer,
            texture: handles.blur_texture,
            size: small,
            filter: Filter::Linear,
        };
        let horizontal = RenderTarget {
            framebuffer: handles.horizontal_framebuffer,
            texture: handles.horizontal_texture,
            size: small,
            filter: Filter::Linear,
        };
        let vertical = RenderTarget {
            framebuffer: handles.vertical_framebuffer,
            texture: handles.vertical_texture,
            size: small,
            filter: Filter::Linear,
        };
        Ok(EffectRenderer {
            vao: handles.vao,
            vbo: handles.vbo,
            size: size,
            blur_scale: BLUR_SCALE,
            scene: scene,
            blur_base: blur_base,
            pingpong: PingPong { horizontal: horizontal, vertical: vertical, next_horizontal: true },
            program: program,
            blur_scale_program: blur_scale_program,
            blur_main_program: blur_main_program,
        })
    }

    /// What the driver must allocate for the current sizes.
    pub fn allocations(&self) -> (r: Vec<Allocation>)
        ensures
            r@ == self.allocations_spec(),
    {
        let mut r: Vec<Allocation> = Vec::new();
        r.push(self.scene.allocation());
        r.push(self.blur_base.allocation());
        r.push(self.pingpong.horizontal.allocation());
        r.push(self.pingpong.vertical.allocation());
        proof {
            assert(r@ =~= self.allocations_spec());
        }
        r
    }

    /// Begins a frame: the framebuffer that the scene is to be drawn into
    /// (and cleared) in place of the screen.
    pub fn setup(&self) -> (r: u32)
        ensures
            r == self.scene.framebuffer,
    {
        self.scene.framebuffer
    }

    /// Follows the surface to a new size. An empty surface is ignored;
    /// otherwise the returned allocations are to be made.
    pub fn resize(&mut self, width: u32, height: u32) -> (r: Vec<Allocation>)
        requires
            old(self).wf(),
        ensures
            *final(self) == old(self).resized(width, height),
            final(self).wf(),
            width == 0 || height == 0 ==> r@.len() == 0,
            width > 0 && height > 0 ==> r@ == final(self).allocations_spec(),
    {
        if width == 0 || height == 0 {
            return Vec::new();
        }
        let size = Size { width: width, height: height };
        let small = reduced(size, self.blur_scale);
        self.size = size;
        self.scene.resize(size);
        self.blur_base.resize(small);
        self.pingpong.resize(small);
        self.allocations()
    }

    /// Plans a frame: downsample, the blur passes over the ping-pong pair,
    /// then the composite onto the screen. The pipeline is left as it was.
    pub fn draw(&mut self, now_millis: u64) -> (r: FramePlan)
        requires
            old(self).wf(),
        ensures
            *final(self) == *old(self),
            r@ == old(self).frame((now_millis % TIME_PERIOD) as u32),
    {
        let time = frame_time(now_millis);
        let small = self.blur_base.size;
        let downsample = Pass {
            program: self.blur_scale_program.id(),
            framebuffer: self.blur_base.framebuffer,
            viewport: small,
            texture0: self.scene.texture,
            texture1: None,
            writes: Some(self.blur_base.texture),
            uniforms: self.blur_scale_program.update_uniforms(self.blur_scale),
        };

        self.pingpong.reset();
        let mut source = self.blur_base.texture;
        let mut blur: Vec<Pass> = Vec::new();
        let mut i: usize = 0;
        while i < BLUR_ITERATIONS
            invariant
                i <= BLUR_ITERATIONS,
                *self == (EffectRenderer {
                    pingpong: PingPong { next_horizontal: i % 2 == 0, ..old(self).pingpong },
                    ..*old(self)
                }),
                small == old(self).blur_base.size,
                source == old(self).blur_source(i as int),
                blur@.len() == i,
                forall|k: int| 0 <= k < i ==> #[trigger] blur@[k]@ == old(self).blur_pass(k),
            decreases BLUR_ITERATIONS - i,
        {
            let ghost old_blur = blur@;
            let horizontal = self.pingpong.next_horizontal;
            let target = self.pingpong.write_target();
            let uniforms = self.blur_main_program.update_uniforms(horizontal);
            blur.push(Pass {
                program: self.blur_main_program.id(),
                framebuffer: target.framebuffer,
                viewport: small,
                texture0: source,
                texture1: None,
                writes: Some(target.texture),
                uniforms: uniforms,
            });
            proof {
                assert(target == old(self).blur_write(i as int));
                assert(blur@[i as int]@ == old(self).blur_pass(i as int));
                assert forall|k: int| 0 <= k < i + 1 implies #[trigger] blur@[k]@ == old(self).blur_pass(k) by {
                    if k < i {
                        assert(blur@[k] == old_blur[k]);
                    }
                }
            }
            self.pingpong.advance();
            source = self.pingpong.read_target().texture;
            i = i + 1;
        }

        let mut uniforms = self.program.update_frame_uniforms(time);
        let mut rest = self.program.update_uniforms();
        uniforms.append(&mut rest);
        let composite = Pass {
            program: self.program.id(),
            framebuffer: 0,
            viewport: self.size,
            texture0: self.scene.texture,
            texture1: Some(source),
            writes: None,
            uniforms: uniforms,
        };
        let r = FramePlan { downsample, blur, composite };
        proof {
            assert(r@.blur =~= old(self).frame(time).blur);
        }
        r
    }
}

} // verus!
