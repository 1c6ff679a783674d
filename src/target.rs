use vstd::prelude::*;

verus! {

/// A size in pixels.
#[derive(Clone, Copy, Debug, PartialEq, Eq, Structural)]
pub struct Size {
    pub width: u32,
    pub height: u32,
}

/// Texture filtering of a render target.
#[derive(Clone, Copy, Debug, PartialEq, Eq, Structural)]
pub enum Filter {
    Nearest,
    Linear,
}

/// The size of a downsampled target: each side divided by the factor,
/// rounded down.
pub open spec fn reduced_spec(size: Size, scale: u32) -> Size
    recommends
        scale >= 1,
{
    Size { width: (size.width / scale) as u32, height: (size.height / scale) as u32 }
}

pub fn reduced(size: Size, scale: u32) -> (r: Size)
    requires
        scale >= 1,
    ensures
        r == reduced_spec(size, scale),
{
    Size { width: size.width / scale, height: size.height / scale }
}

/// A request to (re)allocate a target's color texture at a size, attached
/// to its framebuffer, with clamp-to-edge wrapping and the given filter.
#[derive(Clone, Copy, Debug, PartialEq, Eq, Structural)]
pub struct Allocation {
    pub framebuffer: u32,
    pub texture: u32,
    pub size: Size,
    pub filter: Filter,
}

/// An offscreen framebuffer with its single color texture.
#[derive(Clone, Copy, Debug, PartialEq, Eq, Structural)]
pub struct RenderTarget {
    pub framebuffer: u32,
    pub texture: u32,
    pub size: Size,
    pub filter: Filter,
}

impl RenderTarget {
    pub open spec fn allocation_spec(self) -> Allocation {
        Allocation {
            framebuffer: self.framebuffer,
            texture: self.texture,
            size: self.size,
            filter: self.filter,
        }
    }

    /// The same target with its texture storage at a new size.
    pub open spec fn resized_spec(self, size: Size) -> RenderTarget {
        RenderTarget { size: size, ..self }
    }

    pub fn allocation(&self) -> (r: Allocation)
        ensures
            r == self.allocation_spec(),
    {
        Allocation {
            framebuffer: self.framebuffer,
            texture: self.texture,
            size: self.size,
            filter: self.filter,
        }
    }

    pub fn resize(&mut self, size: Size)
        ensures
            *final(self) == old(self).resized_spec(size),
    {
        self.size = size;
    }
}

/// Two equally sized targets written alternately by the blur passes. The
/// cursor names the direction of the next pass: horizontal passes write
/// `horizontal`, vertical ones write `vertical`.
#[derive(Clone, Copy, Debug, PartialEq, Eq, Structural)]
pub struct PingPong {
    pub horizontal: RenderTarget,
    pub vertical: RenderTarget,
    pub next_horizontal: bool,
}

impl PingPong {
    /// The target that the next pass writes.
    pub open spec fn write_spec(self) -> RenderTarget {
        if self.next_horizontal { self.horizontal } else { self.vertical }
    }

    /// The target that the last pass wrote.
    pub open spec fn read_spec(self) -> RenderTarget {
        if self.next_horizontal { self.vertical } else { self.horizontal }
    }

    pub fn write_target(&self) -> (r: RenderTarget)
        ensures
            r == self.write_spec(),
    {
        if self.next_horizontal { self.horizontal } else { self.vertical }
    }

    pub fn read_target(&self) -> (r: RenderTarget)
        ensures
            r == self.read_spec(),
    {
        if self.next_horizontal { self.vertical } else { self.horizontal }
    }

    /// Records that the write target has been written: it becomes the read
    /// target and the direction flips.
    pub fn advance(&mut self)
        ensures
            *final(self) == (PingPong { next_horizontal: !old(self).next_horizontal, ..*old(self) }),
            final(self).read_spec() == old(self).write_spec(),
    {
        self.next_horizontal = !self.next_horizontal;
    }

    /// Starts a frame: the first pass is horizontal.
    pub fn reset(&mut self)
        ensures
            *final(self) == (PingPong { next_horizontal: true, ..*old(self) }),
    {
        self.next_horizontal = true;
    }

    pub fn resize(&mut self, size: Size)
        ensures
            *final(self) == (PingPong {
                horizontal: old(self).horizontal.resized_spec(size),
                vertical: old(self).vertical.resized_spec(size),
                ..*old(self)
            }),
    {
        self.horizontal.resize(size);
        self.vertical.resize(size);
    }
}

} // verus!
