//! Models: the geometry and texture of one kind of thing on the table, and
//! the calls that draw it.

use vstd::prelude::*;
use crate::fixed::{divide, magnitude, quotient};
use crate::geometry::Vec2;
use crate::opengl::{
    draw_arrays, texture_binding, texture_upload, ArrayType, Attribute, Bool, Buffer, DataType,
    DrawType, GlCall, Real, ShaderProgram, Texture, TextureType, TextureUnit, Uniform, VertexArray,
};

verus! {

/// The number of components in one vertex: two of position, two of texture
/// coordinate.
pub const VERTEX_SIZE: u32 = 4;

/// The program that draws everything, and where its inputs are.
#[derive(Clone, Copy, Debug, PartialEq, Eq, Structural)]
pub struct RenderContext {
    pub program: ShaderProgram,
    pub position: VertexArray,
    pub texcoord: VertexArray,
    pub offset: Uniform,
    pub sampler: Uniform,
    pub opacity: Uniform,
}

/// One kind of thing on the table: its vertices on the device, their number
/// of components, its texture, and its half-extent for the overlap test.
#[derive(Clone, Copy, Debug, PartialEq, Eq, Structural)]
pub struct Model {
    pub vertex_buffer: Buffer,
    pub num_vertices: u32,
    pub texture: Texture,
    pub extent: Vec2,
}

/// The number of vertex records in `len` components: four components make a
/// record, and what is left over makes one more.
pub open spec fn records(len: nat) -> nat {
    (len + 3) / 4
}

/// The largest distance from zero among the components at place `axis` of the
/// first `n` records of `vertices`; zero where `n` is zero.
pub open spec fn reach(vertices: Seq<i64>, axis: int, n: nat) -> int
    decreases n,
{
    if n == 0 {
        0
    } else {
        let rest = reach(vertices, axis, (n - 1) as nat);
        let here = magnitude(vertices[4 * (n - 1) + axis] as int);
        if here > rest { here } else { rest }
    }
}

/// Nine tenths of the reach of `vertices` along each of the two axes.
pub open spec fn extent_of(vertices: Seq<i64>) -> Vec2 {
    Vec2 {
        x: quotient(9 * reach(vertices, 0, records(vertices.len())), 10) as i64,
        y: quotient(9 * reach(vertices, 1, records(vertices.len())), 10) as i64,
    }
}

/// The reach is the greatest of the distances it is taken over: none of them
/// exceeds it, and unless it is zero one of them equals it.
pub proof fn lemma_reach_is_greatest(vertices: Seq<i64>, axis: int, n: nat)
    ensures
        0 <= reach(vertices, axis, n) <= 0x8000_0000_0000_0000,
        forall|k: int|
            0 <= k < n ==> magnitude(#[trigger] vertices[4 * k + axis] as int) <= reach(
                vertices,
                axis,
                n,
            ),
        reach(vertices, axis, n) == 0 || exists|k: int|
            0 <= k < n && magnitude(#[trigger] vertices[4 * k + axis] as int) == reach(
                vertices,
                axis,
                n,
            ),
    decreases n,
{
    if n > 0 {
        lemma_reach_is_greatest(vertices, axis, (n - 1) as nat);
        let rest = reach(vertices, axis, (n - 1) as nat);
        let here = magnitude(vertices[4 * (n - 1) + axis] as int);
        if here > rest {
            assert(magnitude(vertices[4 * (n - 1) + axis] as int) == reach(vertices, axis, n));
        } else if rest != 0 {
            let k = choose|k: int|
                0 <= k < n - 1 && magnitude(#[trigger] vertices[4 * k + axis] as int) == rest;
            assert(magnitude(vertices[4 * k + axis] as int) == reach(vertices, axis, n));
        }
    }
}

/// The calls that make `model` the one that is drawn: its buffer and texture
/// bound, the two attributes pointed into the buffer, the sampler on the first
/// texture slot, and full opacity.
pub open spec fn binding_calls(model: Model, ctx: RenderContext) -> Seq<GlCall> {
    seq![
        GlCall::BindBuffer { buffer_type: model.vertex_buffer.1.value(), buffer: model.vertex_buffer.0 },
    ] + texture_binding(model.texture, TextureUnit::Texture0) + seq![
        GlCall::VertexAttribPointer {
            location: ctx.position.0.0,
            size: 2,
            data_type: DataType::Float.value(),
            normalize: Bool::False.value(),
            stride: 16,
            offset: 0,
        },
        GlCall::VertexAttribPointer {
            location: ctx.texcoord.0.0,
            size: 2,
            data_type: DataType::Float.value(),
            normalize: Bool::False.value(),
            stride: 16,
            offset: 8,
        },
        GlCall::Uniform1i { location: ctx.sampler.0, value: 0 },
        GlCall::Uniform1f { location: ctx.opacity.0, x: Real { numerator: 1, denominator: 1 } },
    ]
}

/// The call that moves what is drawn next to `pos`.
pub open spec fn offset_call(ctx: RenderContext, pos: Vec2) -> GlCall {
    GlCall::Uniform4f {
        location: ctx.offset.0,
        x: Real { numerator: pos.x, denominator: 1_000_000 },
        y: Real { numerator: pos.y, denominator: 1_000_000 },
        z: Real { numerator: 0, denominator: 1 },
        w: Real { numerator: 0, denominator: 1 },
    }
}

/// The call that draws all vertices of `model` as triangles.
pub open spec fn triangles_call(model: Model) -> GlCall {
    GlCall::DrawArrays {
        array_type: ArrayType::Triangles.value(),
        offset: 0,
        count: model.num_vertices / VERTEX_SIZE,
    }
}

/// The calls that draw the bound `model` once at `pos`.
pub open spec fn draw_calls(model: Model, ctx: RenderContext, pos: Vec2) -> Seq<GlCall> {
    seq![offset_call(ctx, pos), triangles_call(model)]
}

/// The calls that draw the bound `model` once at `pos` with the given opacity.
pub open spec fn particle_calls(model: Model, ctx: RenderContext, pos: Vec2, opacity: Real) -> Seq<
    GlCall,
> {
    seq![
        offset_call(ctx, pos),
        GlCall::Uniform1f { location: ctx.opacity.0, x: opacity },
        triangles_call(model),
    ]
}

impl RenderContext {
    /// The context of `program`, whose attributes and uniforms the device
    /// found at the given locations.
    pub fn new(
        program: ShaderProgram,
        position: i32,
        texcoord: i32,
        offset: i32,
        sampler: i32,
        opacity: i32,
    ) -> (r: RenderContext)
        ensures
            r == (RenderContext {
                program,
                position: VertexArray(Attribute(position)),
                texcoord: VertexArray(Attribute(texcoord)),
                offset: Uniform(offset),
                sampler: Uniform(sampler),
                opacity: Uniform(opacity),
            }),
    {
        RenderContext {
            program,
            position: program.vertex_array(position),
            texcoord: program.vertex_array(texcoord),
            offset: program.uniform(offset),
            sampler: program.uniform(sampler),
            opacity: program.uniform(opacity),
        }
    }

    /// The two-dimensional texture that the device created under the number
    /// `id`, bound in the first slot and given its pixels.
    pub fn load_texture(
        &self,
        calls: &mut Vec<GlCall>,
        id: u32,
        data: &[u8],
        width: u32,
        height: u32,
    ) -> (r: Texture)
        requires
            width * height * 4 <= u32::MAX,
            width * height * 4 <= data@.len(),
        ensures
            r == Texture(id, TextureType::Texture2D),
            final(calls)@ == old(calls)@ + texture_binding(r, TextureUnit::Texture0)
                + texture_upload(TextureType::Texture2D.value(), width, height),
    {
        Texture::new(id, TextureType::Texture2D).with_data(calls, data, width, height)
    }
}

/// The distance of `v` from zero.
fn distance(v: i64) -> (r: i128)
    ensures
        r == magnitude(v as int),
{
    let wide: i128 = v as i128;
    if wide < 0 { -wide } else { wide }
}

impl Model {
    /// The model with the given texture whose vertices are `vertices`: four
    /// numbers each, the first two of them the position. Fills
    /// `vertex_buffer` with them.
    pub fn new(calls: &mut Vec<GlCall>, vertex_buffer: Buffer, vertices: &[i64], texture: Texture) -> (r:
        Model)
        requires
            vertices@.len() % 4 != 1,
            vertices@.len() <= u32::MAX,
        ensures
            r == (Model {
                vertex_buffer,
                num_vertices: vertices@.len() as u32,
                texture,
                extent: extent_of(vertices@),
            }),
            final(calls)@ == old(calls)@ + seq![
                GlCall::BindBuffer { buffer_type: vertex_buffer.1.value(), buffer: vertex_buffer.0 },
                GlCall::BufferData {
                    buffer_type: vertex_buffer.1.value(),
                    count: vertices@.len() as u32,
                    draw_type: DrawType::Static.value(),
                },
            ],
    {
        let mut bound = vertex_buffer.bind(calls);
        bound.data(calls, vertices, DrawType::Static);

        let len: usize = vertices.len();
        let count: usize = len / 4 + if len % 4 == 0 { 0 } else { 1 };
        let mut x: i128 = 0;
        let mut y: i128 = 0;
        let mut k: usize = 0;
        while k < count
            invariant
                k <= count,
                len == vertices@.len(),
                len % 4 != 1,
                count == records(len as nat),
                x == reach(vertices@, 0, k as nat),
                y == reach(vertices@, 1, k as nat),
            decreases count - k,
        {
            let here_x: i128 = distance(vertices[4 * k]);
            let here_y: i128 = distance(vertices[4 * k + 1]);
            if here_x > x {
                x = here_x;
            }
            if here_y > y {
                y = here_y;
            }
            k += 1;
        }
        proof {
            lemma_reach_is_greatest(vertices@, 0, count as nat);
            lemma_reach_is_greatest(vertices@, 1, count as nat);
        }
        Model {
            vertex_buffer,
            num_vertices: len as u32,
            texture,
            extent: Vec2 { x: divide(9 * x, 10) as i64, y: divide(9 * y, 10) as i64 },
        }
    }

    /// Makes this model the one that is drawn.
    pub fn pre_render(&self, ctx: &RenderContext, calls: &mut Vec<GlCall>)
        ensures
            final(calls)@ == old(calls)@ + binding_calls(*self, *ctx),
    {
        let _ = self.vertex_buffer.bind(calls);
        let _ = self.texture.bind(calls, TextureUnit::Texture0);
        ctx.position.pointer(calls, 2, DataType::Float, Bool::False, 16, 0);
        ctx.texcoord.pointer(calls, 2, DataType::Float, Bool::False, 16, 8);
        ctx.sampler.int_1(calls, 0);
        ctx.opacity.float_1(calls, Real::whole(1));
    }

    /// Draws this model at `pos`. It has to be the one that is bound.
    pub fn render(&self, pos: &Vec2, ctx: &RenderContext, calls: &mut Vec<GlCall>)
        ensures
            final(calls)@ == old(calls)@ + draw_calls(*self, *ctx, *pos),
    {
        ctx.offset.float_4(
            calls,
            Real::from_fixed(pos.x),
            Real::from_fixed(pos.y),
            Real::whole(0),
            Real::whole(0),
        );
        draw_arrays(calls, ArrayType::Triangles, 0, self.num_vertices / VERTEX_SIZE);
    }

    /// Draws this model at `pos` with the given opacity. It has to be the one
    /// that is bound.
    pub fn render_particle(&self, pos: &Vec2, opacity: Real, ctx: &RenderContext, calls: &mut Vec<GlCall>)
        ensures
            final(calls)@ == old(calls)@ + particle_calls(*self, *ctx, *pos, opacity),
    {
        ctx.offset.float_4(
            calls,
            Real::from_fixed(pos.x),
            Real::from_fixed(pos.y),
            Real::whole(0),
            Real::whole(0),
        );
        ctx.opacity.float_1(calls, opacity);
        draw_arrays(calls, ArrayType::Triangles, 0, self.num_vertices / VERTEX_SIZE);
    }
}

} // verus!
