use pong::opengl::{
    blend_func, clear, clear_color, depth_func, draw_arrays, enable, ArrayType, Attribute,
    BlendFactor, Bool, BoundBuffer, BoundTexture, Buffer, BufferType, Capability, ClearBit,
    Comparison, DataType, DrawType, FragmentShader, GlCall, PixelFormat, Real, ShaderProgram,
    ShaderType, Texture, TextureFilter, TextureFilterType, TextureType, TextureUnit, Uniform,
    VertexArray, VertexShader, COLOR_BUFFER_BIT, DEPTH_BUFFER_BIT,
};

#[test]
fn codes_are_those_of_the_device() {
    assert_eq!(Capability::DepthTest.code(), 2929);
    assert_eq!(Capability::Blend.code(), 3042);
    assert_eq!(ShaderType::Vertex.code(), 35633);
    assert_eq!(ShaderType::Fragment.code(), 35632);
    assert_eq!(BufferType::Array.code(), 34962);
    assert_eq!(ArrayType::Triangles.code(), 4);
    assert_eq!(DrawType::Static.code(), 35044);
    assert_eq!(DataType::Float.code(), 5126);
    assert_eq!(DataType::UnsignedByte.code(), 5121);
    assert_eq!(Comparison::LessOrEqual.code(), 515);
    assert_eq!(TextureType::Texture2D.code(), 3553);
    assert_eq!(PixelFormat::RGBA.code(), 6408);
    assert_eq!(TextureFilter::Mag.code(), 10240);
    assert_eq!(TextureFilter::Min.code(), 10241);
    assert_eq!(TextureFilterType::Nearest.code(), 9728);
    assert_eq!(TextureUnit::Texture0.code(), 33984);
    assert_eq!(BlendFactor::SourceAlpha.code(), 770);
    assert_eq!(BlendFactor::OneMinusSourceAlpha.code(), 771);
    assert_eq!(Bool::False.code(), 0);
}

#[test]
fn clear_bits_combine() {
    assert_eq!(ClearBit::color_buffer(), ClearBit(16384));
    assert_eq!(ClearBit::depth_buffer(), ClearBit(256));
    assert_eq!((COLOR_BUFFER_BIT, DEPTH_BUFFER_BIT), (16384, 256));
    assert_eq!(ClearBit::color_buffer() | ClearBit::depth_buffer(), ClearBit(16640));
    assert_eq!(ClearBit(0b0101) | ClearBit(0b0110), ClearBit(0b0111));
}

#[test]
fn reals() {
    assert_eq!(Real::from_fixed(-250_000), Real { numerator: -250_000, denominator: 1_000_000 });
    assert_eq!(Real::whole(3), Real { numerator: 3, denominator: 1 });
}

#[test]
fn buffer_binds_and_takes_data() {
    let buffer = Buffer::new(5, BufferType::Array);
    assert_eq!(buffer, Buffer(5, BufferType::Array));
    let mut calls = Vec::new();
    let mut bound: BoundBuffer = buffer.bind(&mut calls);
    assert_eq!(*bound.0, buffer);
    bound.data(&mut calls, &[1, 2, 3, 4, 5, 6, 7, 8], DrawType::Static);
    assert_eq!(
        calls,
        vec![
            GlCall::BindBuffer { buffer_type: 34962, buffer: 5 },
            GlCall::BufferData { buffer_type: 34962, count: 8, draw_type: 35044 },
        ]
    );
}

#[test]
fn texture_binds_in_a_slot() {
    let texture = Texture::new(6, TextureType::Texture2D);
    let mut calls = Vec::new();
    let bound: BoundTexture = texture.bind(&mut calls, TextureUnit::Texture0);
    assert_eq!(*bound.0, texture);
    assert_eq!(
        calls,
        vec![
            GlCall::ActiveTexture { unit: 33984 },
            GlCall::BindTexture { target: 3553, texture: 6 },
        ]
    );
}

#[test]
fn bound_texture_takes_its_pixels() {
    let texture = Texture::new(6, TextureType::Texture2D);
    let mut calls = Vec::new();
    let mut bound = texture.bind(&mut calls, TextureUnit::Texture0);
    calls.clear();
    let pixels = vec![0u8; 8 * 8 * 4];
    bound.data(&mut calls, &pixels, 8, 8);
    assert_eq!(
        calls,
        vec![
            GlCall::TexImage2D {
                target: 3553,
                level: 0,
                internal_format: 6408,
                width: 8,
                height: 8,
                border: 0,
                format: 6408,
                image_type: 5121,
                length: 256,
            },
            GlCall::TexParameteri { target: 3553, name: 10240, parameter: 9728 },
            GlCall::TexParameteri { target: 3553, name: 10241, parameter: 9728 },
        ]
    );
}

#[test]
fn texture_with_data_binds_then_uploads() {
    let mut calls = vec![GlCall::Enable { capability: 3042 }];
    let pixels = vec![7u8; 70];
    let texture = Texture::new(2, TextureType::Texture2D).with_data(&mut calls, &pixels, 4, 4);
    assert_eq!(texture, Texture(2, TextureType::Texture2D));
    assert_eq!(
        calls,
        vec![
            GlCall::Enable { capability: 3042 },
            GlCall::ActiveTexture { unit: 33984 },
            GlCall::BindTexture { target: 3553, texture: 2 },
            GlCall::TexImage2D {
                target: 3553,
                level: 0,
                internal_format: 6408,
                width: 4,
                height: 4,
                border: 0,
                format: 6408,
                image_type: 5121,
                length: 64,
            },
            GlCall::TexParameteri { target: 3553, name: 10240, parameter: 9728 },
            GlCall::TexParameteri { target: 3553, name: 10241, parameter: 9728 },
        ]
    );
}

#[test]
fn texture_without_pixels() {
    let mut calls = Vec::new();
    let texture = Texture::new(2, TextureType::Texture2D).with_data(&mut calls, &[], 0, 9);
    assert_eq!(texture.0, 2);
    assert_eq!(
        calls[2],
        GlCall::TexImage2D {
            target: 3553,
            level: 0,
            internal_format: 6408,
            width: 0,
            height: 9,
            border: 0,
            format: 6408,
            image_type: 5121,
            length: 0,
        }
    );
}

#[test]
fn shaders_and_program_keep_their_numbers() {
    assert_eq!(VertexShader::new(3), VertexShader(3));
    assert_eq!(FragmentShader::new(4), FragmentShader(4));
    let program = ShaderProgram::new(5);
    assert_eq!(program, ShaderProgram(5));
    assert_eq!(program.attribute(-1), Attribute(-1));
    assert_eq!(program.vertex_array(2), VertexArray(Attribute(2)));
    assert_eq!(program.uniform(7), Uniform(7));
    let mut calls = Vec::new();
    program.enable(&mut calls);
    assert_eq!(calls, vec![GlCall::UseProgram { program: 5 }]);
}

#[test]
fn vertex_array_is_enabled_and_pointed() {
    let array = ShaderProgram::new(5).vertex_array(2);
    let mut calls = Vec::new();
    let same = array.enable(&mut calls);
    assert_eq!(*same, array);
    array.pointer(&mut calls, 2, DataType::Float, Bool::False, 16, 8);
    array.pointer(&mut calls, 4, DataType::UnsignedByte, Bool::False, 0, 0);
    assert_eq!(
        calls,
        vec![
            GlCall::EnableVertexAttribArray { location: 2 },
            GlCall::VertexAttribPointer {
                location: 2,
                size: 2,
                data_type: 5126,
                normalize: 0,
                stride: 16,
                offset: 8,
            },
            GlCall::VertexAttribPointer {
                location: 2,
                size: 4,
                data_type: 5121,
                normalize: 0,
                stride: 0,
                offset: 0,
            },
        ]
    );
}

#[test]
fn uniforms_take_values() {
    let uniform = Uniform(11);
    let mut calls = Vec::new();
    let half = Real { numerator: 1, denominator: 2 };
    uniform.float_1(&mut calls, half);
    uniform.float_4(&mut calls, Real::whole(1), Real::whole(2), Real::whole(3), half);
    uniform.int_1(&mut calls, -4);
    assert_eq!(
        calls,
        vec![
            GlCall::Uniform1f { location: 11, x: half },
            GlCall::Uniform4f {
                location: 11,
                x: Real { numerator: 1, denominator: 1 },
                y: Real { numerator: 2, denominator: 1 },
                z: Real { numerator: 3, denominator: 1 },
                w: half,
            },
            GlCall::Uniform1i { location: 11, value: -4 },
        ]
    );
}

#[test]
fn state_calls() {
    let mut calls = Vec::new();
    enable(&mut calls, Capability::Blend);
    depth_func(&mut calls, Comparison::LessOrEqual);
    clear_color(&mut calls, Real::whole(0), Real::whole(1), Real::whole(0), Real::whole(1));
    draw_arrays(&mut calls, ArrayType::Triangles, 3, 9);
    blend_func(&mut calls, BlendFactor::OneMinusSourceAlpha, BlendFactor::SourceAlpha);
    clear(&mut calls, ClearBit::depth_buffer());
    assert_eq!(
        calls,
        vec![
            GlCall::Enable { capability: 3042 },
            GlCall::DepthFunc { comparison: 515 },
            GlCall::ClearColor {
                r: Real { numerator: 0, denominator: 1 },
                g: Real { numerator: 1, denominator: 1 },
                b: Real { numerator: 0, denominator: 1 },
                a: Real { numerator: 1, denominator: 1 },
            },
            GlCall::DrawArrays { array_type: 4, offset: 3, count: 9 },
            GlCall::BlendFunc { source: 771, destination: 770 },
            GlCall::Clear { bits: 256 },
        ]
    );
}

#[test]
fn codes_agree_with_glow() {
    assert_eq!(Capability::DepthTest.code(), glow::DEPTH_TEST);
    assert_eq!(Capability::Blend.code(), glow::BLEND);
    assert_eq!(ShaderType::Vertex.code(), glow::VERTEX_SHADER);
    assert_eq!(ShaderType::Fragment.code(), glow::FRAGMENT_SHADER);
    assert_eq!(BufferType::Array.code(), glow::ARRAY_BUFFER);
    assert_eq!(ArrayType::Triangles.code(), glow::TRIANGLES);
    assert_eq!(DrawType::Static.code(), glow::STATIC_DRAW);
    assert_eq!(DataType::Float.code(), glow::FLOAT);
    assert_eq!(DataType::UnsignedByte.code(), glow::UNSIGNED_BYTE);
    assert_eq!(Comparison::LessOrEqual.code(), glow::LEQUAL);
    assert_eq!(TextureType::Texture2D.code(), glow::TEXTURE_2D);
    assert_eq!(PixelFormat::RGBA.code(), glow::RGBA);
    assert_eq!(TextureFilter::Mag.code(), glow::TEXTURE_MAG_FILTER);
    assert_eq!(TextureFilter::Min.code(), glow::TEXTURE_MIN_FILTER);
    assert_eq!(TextureFilterType::Nearest.code(), glow::NEAREST);
    assert_eq!(TextureUnit::Texture0.code(), glow::TEXTURE0);
    assert_eq!(BlendFactor::SourceAlpha.code(), glow::SRC_ALPHA);
    assert_eq!(BlendFactor::OneMinusSourceAlpha.code(), glow::ONE_MINUS_SRC_ALPHA);
    assert_eq!(Bool::False.code(), glow::FALSE as u32);
    assert_eq!(COLOR_BUFFER_BIT, glow::COLOR_BUFFER_BIT);
    assert_eq!(DEPTH_BUFFER_BIT, glow::DEPTH_BUFFER_BIT);
}
