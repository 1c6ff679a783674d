use vstd::prelude::*;

verus! {

/// The named uniforms that the three effect shaders may declare.
#[derive(Clone, Copy, Debug, PartialEq, Eq, Structural)]
pub enum UniformName {
    RenderedTexture,
    BlurTexture,
    Time,
    BlurScale,
    Horizontal,
}

impl UniformName {
    /// The identifier under which the shader source declares this uniform.
    pub fn as_str(&self) -> (r: &'static str)
        ensures
            *self == UniformName::RenderedTexture ==> r@ == "renderedTexture"@,
            *self == UniformName::BlurTexture ==> r@ == "blurTexture"@,
            *self == UniformName::Time ==> r@ == "time"@,
            *self == UniformName::BlurScale ==> r@ == "blur_scale"@,
            *self == UniformName::Horizontal ==> r@ == "horizontal"@,
    {
        match self {
            UniformName::RenderedTexture => "renderedTexture",
            UniformName::BlurTexture => "blurTexture",
            UniformName::Time => "time",
            UniformName::BlurScale => "blur_scale",
            UniformName::Horizontal => "horizontal",
        }
    }
}

/// Why a shader stage could not be built.
#[derive(Clone, Copy, Debug, PartialEq, Eq, Structural)]
pub enum ShaderError {
    /// A shader source did not compile.
    Compile,
    /// The compiled shaders did not link into a program.
    Link,
}

/// A linked shader program: its handle and the locations of the uniforms
/// that the driver reported as active.
#[derive(Debug)]
pub struct ShaderProgram {
    pub id: u32,
    pub uniforms: Vec<(UniformName, i32)>,
}

/// The location of `name` among the active uniforms: the first entry that
/// carries that name, or none.
pub open spec fn location_of(entries: Seq<(UniformName, i32)>, name: UniformName) -> Option<i32>
    decreases entries.len(),
{
    if entries.len() == 0 {
        None
    } else if entries[0].0 == name {
        Some(entries[0].1)
    } else {
        location_of(entries.drop_first(), name)
    }
}

impl ShaderProgram {
    /// Looks up a uniform; an absent uniform is not an error.
    pub fn get_uniform_location(&self, name: UniformName) -> (r: Option<i32>)
        ensures
            r == location_of(self.uniforms@, name),
    {
        let mut i: usize = 0;
        proof {
            assert(self.uniforms@.skip(0) =~= self.uniforms@);
        }
        while i < self.uniforms.len()
            invariant
                0 <= i <= self.uniforms@.len(),
                location_of(self.uniforms@, name) == location_of(self.uniforms@.skip(i as int), name),
            decreases self.uniforms@.len() - i,
        {
            let entry = self.uniforms[i];
            proof {
                let rest = self.uniforms@.skip(i as int);
                assert(rest.drop_first() =~= self.uniforms@.skip(i + 1));
            }
            if entry.0 == name {
                return Some(entry.1);
            }
            i = i + 1;
        }
        None
    }
}

/// A value handed to a uniform.
#[derive(Clone, Copy, Debug, PartialEq, Eq, Structural)]
pub enum UniformValue {
    /// An integer uniform (a texture unit, or a flag as 0 or 1).
    Int(i32),
    /// A float uniform whose value is this whole number.
    Float(u32),
}

/// One uniform update: a location and the value written there.
#[derive(Clone, Copy, Debug, PartialEq, Eq, Structural)]
pub struct UniformSet {
    pub location: i32,
    pub value: UniformValue,
}

/// The update list for an optional uniform: one entry when the shader
/// declares it, none when it does not.
pub open spec fn set_if(location: Option<i32>, value: UniformValue) -> Seq<UniformSet> {
    match location {
        Some(l) => seq![UniformSet { location: l, value: value }],
        None => Seq::empty(),
    }
}

fn push_if(v: &mut Vec<UniformSet>, location: Option<i32>, value: UniformValue)
    ensures
        final(v)@ == old(v)@ + set_if(location, value),
{
    match location {
        Some(l) => {
            v.push(UniformSet { location: l, value: value });
            proof {
                assert(final(v)@ =~= old(v)@ + set_if(location, value));
            }
        },
        None => {
            proof {
                assert(v@ =~= old(v)@ + set_if(location, value));
            }
        },
    }
}

/// The composite stage: blends the scene (unit 0) with the blurred image
/// (unit 1) and receives a time value.
#[derive(Debug)]
pub struct EffectShaderProgram {
    pub program: ShaderProgram,
    pub u_framebuffer_texture: Option<i32>,
    pub u_framebuffer_blur_texture: Option<i32>,
    pub u_time: Option<i32>,
}

impl EffectShaderProgram {
    /// Takes the outcome of compiling the composite shader; a compile or
    /// link failure is passed on unchanged.
    pub fn new(compiled: Result<ShaderProgram, ShaderError>) -> (r: Result<Self, ShaderError>)
        ensures
            compiled is Err <==> r is Err,
            compiled is Err ==> r == Err::<Self, ShaderError>(compiled->Err_0),
            r matches Ok(p) ==> {
                &&& p.program == compiled->Ok_0
                &&& p.u_framebuffer_texture == location_of(p.program.uniforms@, UniformName::RenderedTexture)
                &&& p.u_framebuffer_blur_texture == location_of(p.program.uniforms@, UniformName::BlurTexture)
                &&& p.u_time == location_of(p.program.uniforms@, UniformName::Time)
            },
    {
        match compiled {
            Err(e) => Err(e),
            Ok(program) => {
                let u_framebuffer_texture = program.get_uniform_location(UniformName::RenderedTexture);
                let u_framebuffer_blur_texture = program.get_uniform_location(UniformName::BlurTexture);
                let u_time = program.get_uniform_location(UniformName::Time);
                Ok(EffectShaderProgram { program, u_framebuffer_texture, u_framebuffer_blur_texture, u_time })
            },
        }
    }

    pub fn id(&self) -> (r: u32)
        ensures
            r == self.program.id,
    {
        self.program.id
    }

    /// What `update_uniforms` writes: the two texture units.
    pub open spec fn uniforms_spec(&self) -> Seq<UniformSet> {
        set_if(self.u_framebuffer_texture, UniformValue::Int(0))
            + set_if(self.u_framebuffer_blur_texture, UniformValue::Int(1))
    }

    /// What `update_frame_uniforms` writes for the given time value.
    pub open spec fn frame_uniforms_spec(&self, time: u32) -> Seq<UniformSet> {
        set_if(self.u_time, UniformValue::Float(time))
    }

    pub fn update_uniforms(&self) -> (r: Vec<UniformSet>)
        ensures
            r@ == self.uniforms_spec(),
    {
        let mut v: Vec<UniformSet> = Vec::new();
        push_if(&mut v, self.u_framebuffer_texture, UniformValue::Int(0));
        push_if(&mut v, self.u_framebuffer_blur_texture, UniformValue::Int(1));
        v
    }

    pub fn update_frame_uniforms(&self, time: u32) -> (r: Vec<UniformSet>)
        ensures
            r@ == self.frame_uniforms_spec(time),
    {
        let mut v: Vec<UniformSet> = Vec::new();
        push_if(&mut v, self.u_time, UniformValue::Float(time));
        proof {
            assert(v@ =~= self.frame_uniforms_spec(time));
        }
        v
    }
}

/// The downsample stage: reads the scene (unit 0) and is told the factor.
#[derive(Debug)]
pub struct BlurScaleEffectShaderProgram {
    pub program: ShaderProgram,
    pub u_framebuffer_texture: Option<i32>,
    pub u_blur_scale: Option<i32>,
}

impl BlurScaleEffectShaderProgram {
    /// Takes the outcome of compiling the downsample shader; a compile or
    /// link failure is passed on unchanged.
    pub fn new(compiled: Result<ShaderProgram, ShaderError>) -> (r: Result<Self, ShaderError>)
        ensures
            compiled is Err <==> r is Err,
            compiled is Err ==> r == Err::<Self, ShaderError>(compiled->Err_0),
            r matches Ok(p) ==> {
                &&& p.program == compiled->Ok_0
                &&& p.u_framebuffer_texture == location_of(p.program.uniforms@, UniformName::RenderedTexture)
                &&& p.u_blur_scale == location_of(p.program.uniforms@, UniformName::BlurScale)
            },
    {
        match compiled {
            Err(e) => Err(e),
            Ok(program) => {
                let u_framebuffer_texture = program.get_uniform_location(UniformName::RenderedTexture);
                let u_blur_scale = program.get_uniform_location(UniformName::BlurScale);
                Ok(BlurScaleEffectShaderProgram { program, u_framebuffer_texture, u_blur_scale })
            },
        }
    }

    pub fn id(&self) -> (r: u32)
        ensures
            r == self.program.id,
    {
        self.program.id
    }

    pub open spec fn uniforms_spec(&self, blur_scale: u32) -> Seq<UniformSet> {
        set_if(self.u_framebuffer_texture, UniformValue::Int(0))
            + set_if(self.u_blur_scale, UniformValue::Float(blur_scale))
    }

    pub fn update_uniforms(&self, blur_scale: u32) -> (r: Vec<UniformSet>)
        ensures
            r@ == self.uniforms_spec(blur_scale),
    {
        let mut v: Vec<UniformSet> = Vec::new();
        push_if(&mut v, self.u_framebuffer_texture, UniformValue::Int(0));
        push_if(&mut v, self.u_blur_scale, UniformValue::Float(blur_scale));
        v
    }
}

/// The separable blur stage: reads unit 0 and blurs along one axis.
#[derive(Debug)]
pub struct BlurMainEffectShaderProgram {
    pub program: ShaderProgram,
    pub u_frame_buffer_texture: Option<i32>,
    pub u_horizontal: Option<i32>,
}

impl BlurMainEffectShaderProgram {
    /// Takes the outcome of compiling the blur shader; a compile or link
    /// failure is passed on unchanged.
    pub fn new(compiled: Result<ShaderProgram, ShaderError>) -> (r: Result<Self, ShaderError>)
        ensures
            compiled is Err <==> r is Err,
            compiled is Err ==> r == Err::<Self, ShaderError>(compiled->Err_0),
            r matches Ok(p) ==> {
                &&& p.program == compiled->Ok_0
                &&& p.u_frame_buffer_texture == location_of(p.program.uniforms@, UniformName::RenderedTexture)
                &&& p.u_horizontal == location_of(p.program.uniforms@, UniformName::Horizontal)
            },
    {
        match compiled {
            Err(e) => Err(e),
            Ok(program) => {
                let u_frame_buffer_texture = program.get_uniform_location(UniformName::RenderedTexture);
                let u_horizontal = program.get_uniform_location(UniformName::Horizontal);
                Ok(BlurMainEffectShaderProgram { program, u_frame_buffer_texture, u_horizontal })
            },
        }
    }

    pub fn id(&self) -> (r: u32)
        ensures
            r == self.program.id,
    {
        self.program.id
    }

    pub open spec fn uniforms_spec(&self, horizontal: bool) -> Seq<UniformSet> {
        set_if(self.u_frame_buffer_texture, UniformValue::Int(0))
            + set_if(self.u_horizontal, UniformValue::Int(if horizontal { 1 } else { 0 }))
    }

    pub fn update_uniforms(&self, horizontal: bool) -> (r: Vec<UniformSet>)
        ensures
            r@ == self.uniforms_spec(horizontal),
    {
        let mut v: Vec<UniformSet> = Vec::new();
        push_if(&mut v, self.u_frame_buffer_texture, UniformValue::Int(0));
        let flag: i32 = if horizontal { 1 } else { 0 };
        push_if(&mut v, self.u_horizontal, UniformValue::Int(flag));
        v
    }
}

} // verus!
