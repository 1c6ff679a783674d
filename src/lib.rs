//! Multi-pass glow pipeline: scene capture, downsample, separable ping-pong
//! blur and a final composite, modelled as plain values. The graphics driver
//! is driven by the caller from the passes and allocations computed here.
pub mod laws;
pub mod pipeline;
pub mod shader;
pub mod target;

pub use pipeline::{
    check_framebuffers, frame_time, EffectRenderer, Error, FramePlan, GlHandles, Pass,
    BLUR_ITERATIONS, BLUR_SCALE, TIME_PERIOD,
};
pub use shader::{
    BlurMainEffectShaderProgram, BlurScaleEffectShaderProgram, EffectShaderProgram, ShaderError,
    ShaderProgram, UniformName, UniformSet, UniformValue,
};
pub use target::{reduced, Allocation, Filter, PingPong, RenderTarget, Size};
