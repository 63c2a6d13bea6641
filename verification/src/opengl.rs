//! A typed layer over the calls that a graphics device takes.
//!
//! Nothing here reaches a device. Each operation appends the calls it stands
//! for to a list, with every argument as the plain number the device expects;
//! whoever owns the device carries the list out in order.

use vstd::prelude::*;

verus! {

/// A real number handed to the device: `numerator / denominator`.
#[derive(Clone, Copy, Debug, PartialEq, Eq, Structural)]
pub struct Real {
    pub numerator: i64,
    pub denominator: i64,
}

impl Real {
    /// The number that `value` stands for in millionths.
    pub fn from_fixed(value: i64) -> (r: Real)
        ensures
            r == (Real { numerator: value, denominator: 1_000_000 }),
    {
        Real { numerator: value, denominator: 1_000_000 }
    }

    /// The whole number `value`.
    pub fn whole(value: i64) -> (r: Real)
        ensures
            r == (Real { numerator: value, denominator: 1 }),
    {
        Real { numerator: value, denominator: 1 }
    }
}

/// One call to the device, with the arguments as the device takes them.
#[derive(Clone, Copy, Debug, PartialEq, Eq, Structural)]
pub enum GlCall {
    UseProgram { program: u32 },
    ClearColor { r: Real, g: Real, b: Real, a: Real },
    Enable { capability: u32 },
    DepthFunc { comparison: u32 },
    BlendFunc { source: u32, destination: u32 },
    Clear { bits: u32 },
    Uniform4f { location: i32, x: Real, y: Real, z: Real, w: Real },
    Uniform1i { location: i32, value: i32 },
    Uniform1f { location: i32, x: Real },
    BindBuffer { buffer_type: u32, buffer: u32 },
    /// Uploads the first `count` numbers of the data at hand to the bound buffer.
    BufferData { buffer_type: u32, count: u32, draw_type: u32 },
    EnableVertexAttribArray { location: i32 },
    VertexAttribPointer {
        location: i32,
        size: u32,
        data_type: u32,
        normalize: u32,
        stride: u32,
        offset: u32,
    },
    DrawArrays { array_type: u32, offset: u32, count: u32 },
    BindTexture { target: u32, texture: u32 },
    TexParameteri { target: u32, name: u32, parameter: u32 },
    ActiveTexture { unit: u32 },
    /// Uploads the first `length` bytes of the data at hand to the bound texture.
    TexImage2D {
        target: u32,
        level: u32,
        internal_format: u32,
        width: u32,
        height: u32,
        border: u32,
        format: u32,
        image_type: u32,
        length: u32,
    },
}

/// What the device can be told to switch on.
#[derive(Clone, Copy, Debug, PartialEq, Eq, Structural)]
pub enum Capability {
    DepthTest,
    Blend,
}

impl Capability {
    /// The number the device knows this by, for use in contracts.
    pub open spec fn value(self) -> u32 {
        match self {
            Capability::DepthTest => 2929,
            Capability::Blend => 3042,
        }
    }

    /// The number the device knows this by.
    pub fn code(self) -> (r: u32)
        ensures
            r == self.value(),
    {
        match self {
            Capability::DepthTest => 2929,
            Capability::Blend => 3042,
        }
    }
}

/// The two stages of a shader program.
#[derive(Clone, Copy, Debug, PartialEq, Eq, Structural)]
pub enum ShaderType {
    Vertex,
    Fragment,
}

impl ShaderType {
    /// The number the device knows this by, for use in contracts.
    pub open spec fn value(self) -> u32 {
        match self {
            ShaderType::Vertex => 35633,
            ShaderType::Fragment => 35632,
        }
    }

    /// The number the device knows this by.
    pub fn code(self) -> (r: u32)
        ensures
            r == self.value(),
    {
        match self {
            ShaderType::Vertex => 35633,
            ShaderType::Fragment => 35632,
        }
    }
}

/// What a buffer is bound as.
#[derive(Clone, Copy, Debug, PartialEq, Eq, Structural)]
pub enum BufferType {
    Array,
}

impl BufferType {
    /// The number the device knows this by, for use in contracts.
    pub open spec fn value(self) -> u32 {
        match self {
            BufferType::Array => 34962,
        }
    }

    /// The number the device knows this by.
    pub fn code(self) -> (r: u32)
        ensures
            r == self.value(),
    {
        match self {
            BufferType::Array => 34962,
        }
    }
}

/// How the vertices of a draw call are assembled.
#[derive(Clone, Copy, Debug, PartialEq, Eq, Structural)]
pub enum ArrayType {
    Triangles,
}

impl ArrayType {
    /// The number the device knows this by, for use in contracts.
    pub open spec fn value(self) -> u32 {
        match self {
            ArrayType::Triangles => 4,
        }
    }

    /// The number the device knows this by.
    pub fn code(self) -> (r: u32)
        ensures
            r == self.value(),
    {
        match self {
            ArrayType::Triangles => 4,
        }
    }
}

/// How often a buffer's contents are expected to change.
#[derive(Clone, Copy, Debug, PartialEq, Eq, Structural)]
pub enum DrawType {
    Static,
}

impl DrawType {
    /// The number the device knows this by, for use in contracts.
    pub open spec fn value(self) -> u32 {
        match self {
            DrawType::Static => 35044,
        }
    }

    /// The number the device knows this by.
    pub fn code(self) -> (r: u32)
        ensures
            r == self.value(),
    {
        match self {
            DrawType::Static => 35044,
        }
    }
}

/// The type of one component of a vertex or a pixel.
#[derive(Clone, Copy, Debug, PartialEq, Eq, Structural)]
pub enum DataType {
    Float,
    UnsignedByte,
}

impl DataType {
    /// The number the device knows this by, for use in contracts.
    pub open spec fn value(self) -> u32 {
        match self {
            DataType::Float => 5126,
            DataType::UnsignedByte => 5121,
        }
    }

    /// The number the device knows this by.
    pub fn code(self) -> (r: u32)
        ensures
            r == self.value(),
    {
        match self {
            DataType::Float => 5126,
            DataType::UnsignedByte => 5121,
        }
    }
}

/// The test a fragment's depth has to pass.
#[derive(Clone, Copy, Debug, PartialEq, Eq, Structural)]
pub enum Comparison {
    LessOrEqual,
}

impl Comparison {
    /// The number the device knows this by, for use in contracts.
    pub open spec fn value(self) -> u32 {
        match self {
            Comparison::LessOrEqual => 515,
        }
    }

    /// The number the device knows this by.
    pub fn code(self) -> (r: u32)
        ensures
            r == self.value(),
    {
        match self {
            Comparison::LessOrEqual => 515,
        }
    }
}

/// What a texture is bound as.
#[derive(Clone, Copy, Debug, PartialEq, Eq, Structural)]
pub enum TextureType {
    Texture2D,
}

impl TextureType {
    /// The number the device knows this by, for use in contracts.
    pub open spec fn value(self) -> u32 {
        match self {
            TextureType::Texture2D => 3553,
        }
    }

    /// The number the device knows this by.
    pub fn code(self) -> (r: u32)
        ensures
            r == self.value(),
    {
        match self {
            TextureType::Texture2D => 3553,
        }
    }
}

/// The layout of one pixel.
#[derive(Clone, Copy, Debug, PartialEq, Eq, Structural)]
pub enum PixelFormat {
    RGBA,
}

impl PixelFormat {
    /// The number the device knows this by, for use in contracts.
    pub open spec fn value(self) -> u32 {
        match self {
            PixelFormat::RGBA => 6408,
        }
    }

    /// The number the device knows this by.
    pub fn code(self) -> (r: u32)
        ensures
            r == self.value(),
    {
        match self {
            PixelFormat::RGBA => 6408,
        }
    }
}

/// The two cases in which a texture is resampled.
#[derive(Clone, Copy, Debug, PartialEq, Eq, Structural)]
pub enum TextureFilter {
    Mag,
    Min,
}

impl TextureFilter {
    /// The number the device knows this by, for use in contracts.
    pub open spec fn value(self) -> u32 {
        match self {
            TextureFilter::Mag => 10240,
            TextureFilter::Min => 10241,
        }
    }

    /// The number the device knows this by.
    pub fn code(self) -> (r: u32)
        ensures
            r == self.value(),
    {
        match self {
            TextureFilter::Mag => 10240,
            TextureFilter::Min => 10241,
        }
    }
}

/// How a texture is resampled.
#[derive(Clone, Copy, Debug, PartialEq, Eq, Structural)]
pub enum TextureFilterType {
    Nearest,
}

impl TextureFilterType {
    /// The number the device knows this by, for use in contracts.
    pub open spec fn value(self) -> u32 {
        match self {
            TextureFilterType::Nearest => 9728,
        }
    }

    /// The number the device knows this by.
    pub fn code(self) -> (r: u32)
        ensures
            r == self.value(),
    {
        match self {
            TextureFilterType::Nearest => 9728,
        }
    }
}

/// The slot a texture is bound in.
#[derive(Clone, Copy, Debug, PartialEq, Eq, Structural)]
pub enum TextureUnit {
    Texture0,
}

impl TextureUnit {
    /// The number the device knows this by, for use in contracts.
    pub open spec fn value(self) -> u32 {
        match self {
            TextureUnit::Texture0 => 33984,
        }
    }

    /// The number the device knows this by.
    pub fn code(self) -> (r: u32)
        ensures
            r == self.value(),
    {
        match self {
            TextureUnit::Texture0 => 33984,
        }
    }
}

/// The weight of a colour in blending.
#[derive(Clone, Copy, Debug, PartialEq, Eq, Structural)]
pub enum BlendFactor {
    SourceAlpha,
    OneMinusSourceAlpha,
}

impl BlendFactor {
    /// The number the device knows this by, for use in contracts.
    pub open spec fn value(self) -> u32 {
        match self {
            BlendFactor::SourceAlpha => 770,
            BlendFactor::OneMinusSourceAlpha => 771,
        }
    }

    /// The number the device knows this by.
    pub fn code(self) -> (r: u32)
        ensures
            r == self.value(),
    {
        match self {
            BlendFactor::SourceAlpha => 770,
            BlendFactor::OneMinusSourceAlpha => 771,
        }
    }
}

/// A truth value as the device takes it.
#[derive(Clone, Copy, Debug, PartialEq, Eq, Structural)]
pub enum Bool {
    False,
}

impl Bool {
    /// The number the device knows this by, for use in contracts.
    pub open spec fn value(self) -> u32 {
        match self {
            Bool::False => 0,
        }
    }

    /// The number the device knows this by.
    pub fn code(self) -> (r: u32)
        ensures
            r == self.value(),
    {
        match self {
            Bool::False => 0,
        }
    }
}

/// A buffer of the device: its number and what it is bound as.
#[derive(Clone, Copy, Debug, PartialEq, Eq, Structural)]
pub struct Buffer(pub u32, pub BufferType);

/// A buffer while it is bound.
#[derive(Clone, Copy)]
pub struct BoundBuffer<'a>(pub &'a Buffer);

/// A texture of the device: its number and what it is bound as.
#[derive(Clone, Copy, Debug, PartialEq, Eq, Structural)]
pub struct Texture(pub u32, pub TextureType);

/// A texture while it is bound.
#[derive(Clone, Copy)]
pub struct BoundTexture<'a>(pub &'a Texture);

/// A compiled vertex shader, by its number.
#[derive(Clone, Copy, Debug, PartialEq, Eq, Structural)]
pub struct VertexShader(pub u32);

/// A compiled fragment shader, by its number.
#[derive(Clone, Copy, Debug, PartialEq, Eq, Structural)]
pub struct FragmentShader(pub u32);

/// A linked shader program, by its number.
#[derive(Clone, Copy, Debug, PartialEq, Eq, Structural)]
pub struct ShaderProgram(pub u32);

/// A vertex attribute of a program, by its location.
#[derive(Clone, Copy, Debug, PartialEq, Eq, Structural)]
pub struct Attribute(pub i32);

/// A vertex attribute that is fed from the bound buffer.
#[derive(Clone, Copy, Debug, PartialEq, Eq, Structural)]
pub struct VertexArray(pub Attribute);

/// A uniform of a program, by its location.
#[derive(Clone, Copy, Debug, PartialEq, Eq, Structural)]
pub struct Uniform(pub i32);

/// A set of the device's buffers that `clear` resets.
#[derive(Clone, Copy, Debug, PartialEq, Eq, Structural)]
pub struct ClearBit(pub u32);

/// The bit of the colour buffer.
pub const COLOR_BUFFER_BIT: u32 = 16384;

/// The bit of the depth buffer.
pub const DEPTH_BUFFER_BIT: u32 = 256;

impl ClearBit {
    /// The colour buffer alone.
    pub fn color_buffer() -> (r: ClearBit)
        ensures
            r == ClearBit(COLOR_BUFFER_BIT),
    {
        ClearBit(COLOR_BUFFER_BIT)
    }

    /// The depth buffer alone.
    pub fn depth_buffer() -> (r: ClearBit)
        ensures
            r == ClearBit(DEPTH_BUFFER_BIT),
    {
        ClearBit(DEPTH_BUFFER_BIT)
    }
}

impl core::ops::BitOr for ClearBit {
    type Output = ClearBit;

    /// The buffers of `self` and those of `rhs` together.
    fn bitor(self, rhs: ClearBit) -> (r: ClearBit) {
        ClearBit(self.0 | rhs.0)
    }
}

impl vstd::std_specs::ops::BitOrSpecImpl for ClearBit {
    open spec fn obeys_bitor_spec() -> bool {
        true
    }

    open spec fn bitor_req(self, rhs: ClearBit) -> bool {
        true
    }

    open spec fn bitor_spec(self, rhs: ClearBit) -> ClearBit {
        ClearBit(self.0 | rhs.0)
    }
}

/// The colour buffer and the depth buffer together are the bits 16640.
pub proof fn lemma_color_and_depth()
    ensures
        COLOR_BUFFER_BIT | DEPTH_BUFFER_BIT == 16640,
{
    assert(16384u32 | 256u32 == 16640u32) by (bit_vector);
}

impl Buffer {
    /// The buffer that the device created under the number `id`.
    pub fn new(id: u32, buffer_type: BufferType) -> (r: Buffer)
        ensures
            r == Buffer(id, buffer_type),
    {
        Buffer(id, buffer_type)
    }

    /// Binds the buffer.
    pub fn bind<'a>(&'a self, calls: &mut Vec<GlCall>) -> (r: BoundBuffer<'a>)
        ensures
            *r.0 == *self,
            final(calls)@ == old(calls)@.push(
                GlCall::BindBuffer { buffer_type: self.1.value(), buffer: self.0 },
            ),
    {
        calls.push(GlCall::BindBuffer { buffer_type: self.1.code(), buffer: self.0 });
        BoundBuffer(self)
    }
}

impl<'a> BoundBuffer<'a> {
    /// Fills the buffer with `data`.
    pub fn data(&mut self, calls: &mut Vec<GlCall>, data: &[i64], draw_type: DrawType)
        requires
            data@.len() <= u32::MAX,
        ensures
            *final(self) == *old(self),
            final(calls)@ == old(calls)@.push(
                GlCall::BufferData {
                    buffer_type: old(self).0.1.value(),
                    count: data@.len() as u32,
                    draw_type: draw_type.value(),
                },
            ),
    {
        calls.push(
            GlCall::BufferData {
                buffer_type: self.0.1.code(),
                count: data.len() as u32,
                draw_type: draw_type.code(),
            },
        );
    }
}

/// The calls that hand a bound texture of `target` its pixels, `width` by
/// `height` of four bytes each, and have it resampled to the nearest pixel.
pub open spec fn texture_upload(target: u32, width: u32, height: u32) -> Seq<GlCall> {
    seq![
        GlCall::TexImage2D {
            target,
            level: 0,
            internal_format: PixelFormat::RGBA.value(),
            width,
            height,
            border: 0,
            format: PixelFormat::RGBA.value(),
            image_type: DataType::UnsignedByte.value(),
            length: (width * height * 4) as u32,
        },
        GlCall::TexParameteri {
            target,
            name: TextureFilter::Mag.value(),
            parameter: TextureFilterType::Nearest.value(),
        },
        GlCall::TexParameteri {
            target,
            name: TextureFilter::Min.value(),
            parameter: TextureFilterType::Nearest.value(),
        },
    ]
}

/// The calls that bind `texture` in the slot `unit`.
pub open spec fn texture_binding(texture: Texture, unit: TextureUnit) -> Seq<GlCall> {
    seq![
        GlCall::ActiveTexture { unit: unit.value() },
        GlCall::BindTexture { target: texture.1.value(), texture: texture.0 },
    ]
}

impl Texture {
    /// The texture that the device created under the number `id`.
    pub fn new(id: u32, texture_type: TextureType) -> (r: Texture)
        ensures
            r == Texture(id, texture_type),
    {
        Texture(id, texture_type)
    }

    /// Binds the texture in the slot `texture_unit`.
    pub fn bind<'a>(&'a self, calls: &mut Vec<GlCall>, texture_unit: TextureUnit) -> (r:
        BoundTexture<'a>)
        ensures
            *r.0 == *self,
            final(calls)@ == old(calls)@ + texture_binding(*self, texture_unit),
    {
        calls.push(GlCall::ActiveTexture { unit: texture_unit.code() });
        calls.push(GlCall::BindTexture { target: self.1.code(), texture: self.0 });
        BoundTexture(self)
    }

    /// Binds the texture in the first slot and hands it its pixels.
    pub fn with_data(self, calls: &mut Vec<GlCall>, data: &[u8], width: u32, height: u32) -> (r:
        Texture)
        requires
            width * height * 4 <= u32::MAX,
            width * height * 4 <= data@.len(),
        ensures
            r == self,
            final(calls)@ == old(calls)@ + texture_binding(self, TextureUnit::Texture0)
                + texture_upload(self.1.value(), width, height),
    {
        let mut bound = self.bind(calls, TextureUnit::Texture0);
        bound.data(calls, data, width, height);
        self
    }
}

impl<'a> BoundTexture<'a> {
    /// Hands the texture its pixels: `data` holds `width` by `height` pixels
    /// of four bytes each.
    pub fn data(&mut self, calls: &mut Vec<GlCall>, data: &[u8], width: u32, height: u32)
        requires
            width * height * 4 <= u32::MAX,
            width * height * 4 <= data@.len(),
        ensures
            *final(self) == *old(self),
            final(calls)@ == old(calls)@ + texture_upload(old(self).0.1.value(), width, height),
    {
        assert(width * height <= u32::MAX) by (nonlinear_arith)
            requires
                width * height * 4 <= u32::MAX,
                width >= 0,
                height >= 0,
        ;
        let target: u32 = self.0.1.code();
        calls.push(
            GlCall::TexImage2D {
                target,
                level: 0,
                internal_format: PixelFormat::RGBA.code(),
                width,
                height,
                border: 0,
                format: PixelFormat::RGBA.code(),
                image_type: DataType::UnsignedByte.code(),
                length: width * height * 4,
            },
        );
        calls.push(
            GlCall::TexParameteri {
                target,
                name: TextureFilter::Mag.code(),
                parameter: TextureFilterType::Nearest.code(),
            },
        );
        calls.push(
            GlCall::TexParameteri {
                target,
                name: TextureFilter::Min.code(),
                parameter: TextureFilterType::Nearest.code(),
            },
        );
    }
}

impl VertexShader {
    /// The vertex shader that the device compiled under the number `id`.
    pub fn new(id: u32) -> (r: VertexShader)
        ensures
            r == VertexShader(id),
    {
        VertexShader(id)
    }
}

impl FragmentShader {
    /// The fragment shader that the device compiled under the number `id`.
    pub fn new(id: u32) -> (r: FragmentShader)
        ensures
            r == FragmentShader(id),
    {
        FragmentShader(id)
    }
}

impl ShaderProgram {
    /// The program that the device linked under the number `id`.
    pub fn new(id: u32) -> (r: ShaderProgram)
        ensures
            r == ShaderProgram(id),
    {
        ShaderProgram(id)
    }

    /// The attribute that the device found at `location`.
    pub fn attribute(&self, location: i32) -> (r: Attribute)
        ensures
            r == Attribute(location),
    {
        Attribute(location)
    }

    /// The attribute that the device found at `location`, to be fed from a
    /// buffer.
    pub fn vertex_array(&self, location: i32) -> (r: VertexArray)
        ensures
            r == VertexArray(Attribute(location)),
    {
        VertexArray(self.attribute(location))
    }

    /// The uniform that the device found at `location`.
    pub fn uniform(&self, location: i32) -> (r: Uniform)
        ensures
            r == Uniform(location),
    {
        Uniform(location)
    }

    /// Makes this the program that draws.
    pub fn enable(&self, calls: &mut Vec<GlCall>)
        ensures
            final(calls)@ == old(calls)@.push(GlCall::UseProgram { program: self.0 }),
    {
        calls.push(GlCall::UseProgram { program: self.0 });
    }
}

impl VertexArray {
    /// Switches the attribute on.
    pub fn enable(&self, calls: &mut Vec<GlCall>) -> (r: &Self)
        ensures
            *r == *self,
            final(calls)@ == old(calls)@.push(
                GlCall::EnableVertexAttribArray { location: self.0.0 },
            ),
    {
        calls.push(GlCall::EnableVertexAttribArray { location: self.0.0 });
        self
    }

    /// Says where in each vertex of the bound buffer the attribute lies.
    pub fn pointer(
        &self,
        calls: &mut Vec<GlCall>,
        attribute_size: u32,
        attribute_type: DataType,
        normalize: Bool,
        stride: u32,
        offset: u32,
    )
        ensures
            final(calls)@ == old(calls)@.push(
                GlCall::VertexAttribPointer {
                    location: self.0.0,
                    size: attribute_size,
                    data_type: attribute_type.value(),
                    normalize: normalize.value(),
                    stride,
                    offset,
                },
            ),
    {
        calls.push(
            GlCall::VertexAttribPointer {
                location: self.0.0,
                size: attribute_size,
                data_type: attribute_type.code(),
                normalize: normalize.code(),
                stride,
                offset,
            },
        );
    }
}

impl Uniform {
    /// Sets the uniform to one real number.
    pub fn float_1(&self, calls: &mut Vec<GlCall>, x: Real)
        ensures
            final(calls)@ == old(calls)@.push(GlCall::Uniform1f { location: self.0, x }),
    {
        calls.push(GlCall::Uniform1f { location: self.0, x });
    }

    /// Sets the uniform to four real numbers.
    pub fn float_4(&self, calls: &mut Vec<GlCall>, x: Real, y: Real, z: Real, w: Real)
        ensures
            final(calls)@ == old(calls)@.push(GlCall::Uniform4f { location: self.0, x, y, z, w }),
    {
        calls.push(GlCall::Uniform4f { location: self.0, x, y, z, w });
    }

    /// Sets the uniform to one whole number.
    pub fn int_1(&self, calls: &mut Vec<GlCall>, x: i32)
        ensures
            final(calls)@ == old(calls)@.push(GlCall::Uniform1i { location: self.0, value: x }),
    {
        calls.push(GlCall::Uniform1i { location: self.0, value: x });
    }
}

/// Switches `capability` on.
pub fn enable(calls: &mut Vec<GlCall>, capability: Capability)
    ensures
        final(calls)@ == old(calls)@.push(GlCall::Enable { capability: capability.value() }),
{
    calls.push(GlCall::Enable { capability: capability.code() });
}

/// Sets the test that a fragment's depth has to pass.
pub fn depth_func(calls: &mut Vec<GlCall>, comparison: Comparison)
    ensures
        final(calls)@ == old(calls)@.push(GlCall::DepthFunc { comparison: comparison.value() }),
{
    calls.push(GlCall::DepthFunc { comparison: comparison.code() });
}

/// Sets the colour that `clear` fills the colour buffer with.
pub fn clear_color(calls: &mut Vec<GlCall>, r: Real, g: Real, b: Real, a: Real)
    ensures
        final(calls)@ == old(calls)@.push(GlCall::ClearColor { r, g, b, a }),
{
    calls.push(GlCall::ClearColor { r, g, b, a });
}

/// Draws `count` vertices of the bound buffer, from the one at `offset`.
pub fn draw_arrays(calls: &mut Vec<GlCall>, array_type: ArrayType, offset: u32, count: u32)
    ensures
        final(calls)@ == old(calls)@.push(
            GlCall::DrawArrays { array_type: array_type.value(), offset, count },
        ),
{
    calls.push(GlCall::DrawArrays { array_type: array_type.code(), offset, count });
}

/// Sets the weights of the colour drawn and of the colour drawn over.
pub fn blend_func(calls: &mut Vec<GlCall>, src: BlendFactor, dst: BlendFactor)
    ensures
        final(calls)@ == old(calls)@.push(
            GlCall::BlendFunc { source: src.value(), destination: dst.value() },
        ),
{
    calls.push(GlCall::BlendFunc { source: src.code(), destination: dst.code() });
}

/// Resets the buffers of `clear_bit`.
pub fn clear(calls: &mut Vec<GlCall>, clear_bit: ClearBit)
    ensures
        final(calls)@ == old(calls)@.push(GlCall::Clear { bits: clear_bit.0 }),
{
    calls.push(GlCall::Clear { bits: clear_bit.0 });
}

} // verus!
