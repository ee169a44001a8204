//! The stage: a platform and a player, each a rectangle drawn as a triangle
//! strip, and the loading of the buffers that a draw reads.

use vstd::prelude::*;
use vstd::slice::slice_to_vec;
use crate::context::after;
use crate::context::block_index;
use crate::context::block_index_at;
use crate::context::location;
use crate::context::location_at;
use crate::context::next_step;
use crate::context::object;
use crate::context::object_at;
use crate::context::plan_call;
use crate::context::plan_entry;
use crate::context::plan_view;
use crate::context::replies_view;
use crate::context::rest;
use crate::context::run;
use crate::context::Call;
use crate::context::CallView;
use crate::context::Context;
use crate::context::GlError;
use crate::context::Handle;
use crate::context::Planned;
use crate::context::PlannedView;
use crate::context::Reply;
use crate::context::ReplyView;
use crate::context::Step;
use crate::marshal::marshal_in;
use crate::marshal::marshalled;
use crate::marshal::ByteOrder;
use crate::marshal::FloatBits;
use crate::marshal::HostArray;
use crate::marshal::HostArrayView;
use crate::rendering_backend::Camera;
use crate::shader::compile_outcome;
use crate::shader::compile_plan;
use crate::shader::conclude;
use crate::shader::concluded;
use crate::shader::link_outcome;
use crate::shader::link_plan;
use crate::shader::outcome_view;
use crate::shader::plan_compile;
use crate::shader::plan_link;
use crate::webgl_const::BufferDataType;
use crate::webgl_const::BufferTarget;
use crate::webgl_const::COLOR_BUFFER_BIT;
use crate::webgl_const::FRAGMENT_SHADER;
use crate::webgl_const::STATIC_DRAW;
use crate::webgl_const::TRIANGLE_STRIP;
use crate::webgl_const::VERTEX_SHADER;

verus! {

/// Four corners, each an x and a y, in the order of a triangle strip.
pub type Rectangle = [FloatBits; 8];

/// The platform: (-1, -0.5), (-1, 0.5), (1, -0.5), (1, 0.5).
pub const PLATFORM_VERT: Rectangle = [
    0xBF80_0000,
    0xBF00_0000,
    0xBF80_0000,
    0x3F00_0000,
    0x3F80_0000,
    0xBF00_0000,
    0x3F80_0000,
    0x3F00_0000,
];

/// The player: (-1, -0.2), (-0.2, 0.2), (0.2, -0.2), (0.2, 0.2).
pub const PLAYER_VERT: Rectangle = [
    0xBF80_0000,
    0xBE4C_CCCD,
    0xBE4C_CCCD,
    0x3E4C_CCCD,
    0x3E4C_CCCD,
    0xBE4C_CCCD,
    0x3E4C_CCCD,
    0x3E4C_CCCD,
];

/// The mean of the platform's corners: (0, 0).
pub const PLATFORM_CENTER: (FloatBits, FloatBits) = (0, 0);

/// The mean of the player's corners in single precision: (-0.2, 0).
pub const PLAYER_CENTER: (FloatBits, FloatBits) = (0xBE4C_CCCD, 0);

/// Where the camera of every draw looks: (0, -0.35).
pub const CAMERA_CENTER: (FloatBits, FloatBits) = (0, 0xBEB3_3333);

/// The zoom of the camera of every draw: 0.5 both ways.
pub const CAMERA_ZOOM: (FloatBits, FloatBits) = (0x3F00_0000, 0x3F00_0000);

/// The binding point of the uniform block that holds the center.
pub const UNIFORM_CENTERS_IDX: usize = 3;

/// The binding point of the uniform block that holds the camera.
pub const UNIFORM_CAMERA_IDX: usize = 2;

/// What a buffer is for, with what it takes to bind it.
#[derive(Clone, Debug, PartialEq, Eq)]
pub enum BufferArg {
    /// A vertex attribute: element type, components per vertex, name in the
    /// vertex shader.
    Attribute(BufferDataType, usize, String),
    /// A uniform block: element type, name of the block, binding point.
    Uniform(BufferDataType, String, usize),
    /// The indices of an indexed draw.
    ElementArray,
    /// The positions of the vertices, with so many components each.  Loading
    /// them starts a new vertex array object.
    Vertexes(usize),
}

/// A [`BufferArg`] with its name as a sequence.
pub enum BufferArgView {
    Attribute(BufferDataType, usize, Seq<char>),
    Uniform(BufferDataType, Seq<char>, usize),
    ElementArray,
    Vertexes(usize),
}

impl View for BufferArg {
    type V = BufferArgView;

    open spec fn view(&self) -> BufferArgView {
        match *self {
            BufferArg::Attribute(datatype, size, name) => BufferArgView::Attribute(
                datatype,
                size,
                name@,
            ),
            BufferArg::Uniform(datatype, name, binding) => BufferArgView::Uniform(
                datatype,
                name@,
                binding,
            ),
            BufferArg::ElementArray => BufferArgView::ElementArray,
            BufferArg::Vertexes(size) => BufferArgView::Vertexes(size),
        }
    }
}

impl BufferArgView {
    /// The binding point that a buffer of this role is bound to.
    pub open spec fn target(self) -> BufferTarget {
        match self {
            BufferArgView::Attribute(..) => BufferTarget::ArrayBuffer,
            BufferArgView::Vertexes(..) => BufferTarget::ArrayBuffer,
            BufferArgView::Uniform(..) => BufferTarget::UniformBuffer,
            BufferArgView::ElementArray => BufferTarget::ElementArrayBuffer,
        }
    }

    /// The element type that a buffer of this role is marshalled as.
    pub open spec fn datatype(self) -> BufferDataType {
        match self {
            BufferArgView::Attribute(datatype, _, _) => datatype,
            BufferArgView::Vertexes(..) => BufferDataType::Float,
            BufferArgView::Uniform(datatype, _, _) => datatype,
            BufferArgView::ElementArray => BufferDataType::UnsignedInt,
        }
    }
}

impl BufferArg {
    /// The binding point that a buffer of this role is bound to.
    pub fn target(&self) -> (target: BufferTarget)
        ensures
            target == self@.target(),
    {
        match self {
            Self::Attribute(..) | Self::Vertexes(..) => BufferTarget::ArrayBuffer,
            Self::Uniform(..) => BufferTarget::UniformBuffer,
            Self::ElementArray => BufferTarget::ElementArrayBuffer,
        }
    }

    /// The element type that a buffer of this role is marshalled as.
    pub fn datatype(&self) -> (datatype: BufferDataType)
        ensures
            datatype == self@.datatype(),
    {
        match self {
            Self::Attribute(datatype, ..) => *datatype,
            Self::Uniform(datatype, ..) => *datatype,
            Self::ElementArray => BufferDataType::UnsignedInt,
            Self::Vertexes(..) => BufferDataType::Float,
        }
    }
}

/// The camera of every draw.
pub open spec fn stage_camera() -> Camera {
    Camera { center: CAMERA_CENTER, zoom: CAMERA_ZOOM }
}

/// An array of 32-bit floats.
pub open spec fn float_array(values: Seq<FloatBits>) -> HostArrayView {
    HostArrayView { width: 4, patterns: Seq::new(values.len(), |i: int| values[i] as int) }
}

/// The indices of a rectangle's corners: 0, 1, 2, 3, as unsigned 32-bit
/// integers.
pub open spec fn strip_indices() -> HostArrayView {
    HostArrayView { width: 4, patterns: seq![0int, 1int, 2int, 3int] }
}

/// The block that holds a center: its x and y, and two zeros that fill the
/// block up to the sixteen bytes at which the next block starts.
pub open spec fn center_block(center: (FloatBits, FloatBits)) -> Seq<FloatBits> {
    seq![center.0, center.1, 0u32, 0u32]
}

/// The wiring of a vertex attribute: look its location up by name, describe
/// the bound buffer to it as tightly packed, not normalized and starting at
/// offset zero, and enable it.
pub open spec fn attribute_plan(
    program: Handle,
    name: Seq<char>,
    size: usize,
    datatype: BufferDataType,
    replies: Seq<ReplyView>,
) -> Seq<PlannedView> {
    seq![
        PlannedView::Call(CallView::GetAttribLocation { program, name }),
        if size <= i32::MAX {
            PlannedView::Call(
                CallView::VertexAttribPointer {
                    index: location_at(replies, 0),
                    size: size as i32,
                    datatype: datatype.code(),
                    normalized: false,
                    stride: 0,
                    offset: 0,
                },
            )
        } else {
            PlannedView::Fail(GlError::ComponentCountOutOfRange)
        },
        PlannedView::Call(CallView::EnableVertexAttribArray { index: location_at(replies, 0) }),
    ]
}

/// The wiring of a uniform block: look its index up by name, tie the block to
/// the binding point, and bind the buffer to the same point.
pub open spec fn uniform_plan(
    program: Handle,
    name: Seq<char>,
    binding: usize,
    buffer: Handle,
    replies: Seq<ReplyView>,
) -> Seq<PlannedView> {
    seq![
        PlannedView::Call(CallView::GetUniformBlockIndex { program, name }),
        if binding <= u32::MAX {
            PlannedView::Call(
                CallView::UniformBlockBinding {
                    program,
                    block_index: block_index_at(replies, 0),
                    binding: binding as u32,
                },
            )
        } else {
            PlannedView::Fail(GlError::BindingIndexOutOfRange)
        },
        if binding <= u32::MAX {
            PlannedView::Call(
                CallView::BindBufferBase {
                    target: BufferTarget::UniformBuffer.code(),
                    index: binding as u32,
                    buffer,
                },
            )
        } else {
            PlannedView::Fail(GlError::BindingIndexOutOfRange)
        },
    ]
}

/// What a role asks for between the binding of its buffer and the upload.
pub open spec fn wiring_plan(
    arg: BufferArgView,
    program: Handle,
    buffer: Handle,
    replies: Seq<ReplyView>,
) -> Seq<PlannedView> {
    match arg {
        BufferArgView::Attribute(datatype, size, name) => attribute_plan(
            program,
            name,
            size,
            datatype,
            replies,
        ),
        BufferArgView::Vertexes(size) => seq![
            PlannedView::Call(CallView::CreateVertexArray),
            PlannedView::Call(CallView::BindVertexArray { vertex_array: object_at(replies, 0) }),
        ] + attribute_plan(program, "position"@, size, BufferDataType::Float, after(replies, 2)),
        BufferArgView::Uniform(_, name, binding) => uniform_plan(
            program,
            name,
            binding,
            buffer,
            replies,
        ),
        BufferArgView::ElementArray => Seq::empty(),
    }
}

/// The upload that ends a load: the array, marshalled as the role's element
/// type, goes to the role's binding point as static data.
pub open spec fn upload(order: ByteOrder, buf: HostArrayView, arg: BufferArgView) -> PlannedView {
    match marshalled(order, arg.datatype(), buf) {
        Ok(data) => PlannedView::Call(
            CallView::BufferData { target: arg.target().code(), data, usage: STATIC_DRAW },
        ),
        Err(error) => PlannedView::Fail(GlError::Marshal(error)),
    }
}

/// The plan of a load: create a buffer and bind it to the role's binding
/// point, wire it as the role asks, and upload the array.
pub open spec fn load_plan(
    order: ByteOrder,
    buf: HostArrayView,
    arg: BufferArgView,
    program: Handle,
    replies: Seq<ReplyView>,
) -> Seq<PlannedView> {
    seq![
        PlannedView::Call(CallView::CreateBuffer),
        PlannedView::Call(
            CallView::BindBuffer { target: arg.target().code(), buffer: object_at(replies, 0) },
        ),
    ] + wiring_plan(arg, program, object_at(replies, 0), after(replies, 2)) + seq![
        upload(order, buf, arg),
    ]
}

/// The plan of drawing one rectangle: load its corners as the positions, the
/// strip's indices, its center and the camera, each in a buffer of its own
/// and in this order, then draw the four indices as a triangle strip.
pub open spec fn draw_plan(
    order: ByteOrder,
    vertices: Seq<FloatBits>,
    center: (FloatBits, FloatBits),
    program: Handle,
    replies: Seq<ReplyView>,
) -> Seq<PlannedView> {
    let positions = load_plan(
        order,
        float_array(vertices),
        BufferArgView::Vertexes(2),
        program,
        replies,
    );
    let indices = load_plan(
        order,
        strip_indices(),
        BufferArgView::ElementArray,
        program,
        after(replies, positions.len()),
    );
    let centers = load_plan(
        order,
        float_array(center_block(center)),
        BufferArgView::Uniform(BufferDataType::Float, "u_centers"@, UNIFORM_CENTERS_IDX),
        program,
        after(replies, positions.len() + indices.len()),
    );
    let camera = load_plan(
        order,
        float_array(stage_camera().buffer()),
        BufferArgView::Uniform(BufferDataType::Float, "u_camera"@, UNIFORM_CAMERA_IDX),
        program,
        after(replies, positions.len() + indices.len() + centers.len()),
    );
    positions + indices + centers + camera + seq![
        PlannedView::Call(
            CallView::DrawElements {
                mode: TRIANGLE_STRIP,
                count: 4,
                datatype: BufferDataType::UnsignedInt.code(),
                offset: 0,
            },
        ),
    ]
}

/// The plan of drawing the player.
pub open spec fn player_plan(order: ByteOrder, program: Handle, replies: Seq<ReplyView>) -> Seq<
    PlannedView,
> {
    draw_plan(order, PLAYER_VERT@, PLAYER_CENTER, program, replies)
}

/// The plan of drawing the whole stage: clear the frame to opaque black,
/// draw the platform, draw the player.
pub open spec fn init_plan(order: ByteOrder, program: Handle, replies: Seq<ReplyView>) -> Seq<
    PlannedView,
> {
    let clearing = seq![
        PlannedView::Call(
            CallView::ClearColor { red: 0, green: 0, blue: 0, alpha: 0x3F80_0000 },
        ),
        PlannedView::Call(CallView::Clear { mask: COLOR_BUFFER_BIT }),
    ];
    let platform = draw_plan(
        order,
        PLATFORM_VERT@,
        PLATFORM_CENTER,
        program,
        after(replies, clearing.len()),
    );
    clearing + platform + player_plan(
        order,
        program,
        after(replies, clearing.len() + platform.len()),
    )
}

/// The block that holds a center: its x and y, and two zeros of padding.
pub fn center_buffer(center: (FloatBits, FloatBits)) -> (buffer: [FloatBits; 4])
    ensures
        buffer@ == center_block(center),
{
    let buffer = [center.0, center.1, 0, 0];
    assert(buffer@ =~= center_block(center));
    buffer
}

/// An array of the 32-bit floats in `values`.
fn floats(values: &[FloatBits]) -> (array: HostArray)
    ensures
        array@ == float_array(values@),
{
    let array = HostArray::Float32(slice_to_vec(values));
    assert(array@.patterns =~= float_array(values@).patterns);
    array
}

/// Appends the wiring of a vertex attribute to `plan`.
fn plan_attribute(
    plan: &mut Vec<Planned>,
    program: Handle,
    name: String,
    size: usize,
    datatype: BufferDataType,
    replies: &[Reply],
)
    ensures
        plan_view(final(plan)@) == plan_view(old(plan)@) + attribute_plan(
            program,
            name@,
            size,
            datatype,
            replies_view(replies@),
        ),
{
    let index = location(replies, 0);
    plan_call(plan, Call::GetAttribLocation { program, name });
    if size <= i32::MAX as usize {
        plan_call(
            plan,
            Call::VertexAttribPointer {
                index,
                size: size as i32,
                datatype: datatype.websys_code(),
                normalized: false,
                stride: 0,
                offset: 0,
            },
        );
    } else {
        plan_entry(plan, Planned::Fail(GlError::ComponentCountOutOfRange));
    }
    plan_call(plan, Call::EnableVertexAttribArray { index });
    assert(plan_view(plan@) =~= plan_view(old(plan)@) + attribute_plan(
        program,
        name@,
        size,
        datatype,
        replies_view(replies@),
    ));
}

/// Appends the wiring of a uniform block to `plan`.
fn plan_uniform(
    plan: &mut Vec<Planned>,
    program: Handle,
    name: String,
    binding: usize,
    buffer: Handle,
    replies: &[Reply],
)
    ensures
        plan_view(final(plan)@) == plan_view(old(plan)@) + uniform_plan(
            program,
            name@,
            binding,
            buffer,
            replies_view(replies@),
        ),
{
    let block = block_index(replies, 0);
    plan_call(plan, Call::GetUniformBlockIndex { program, name });
    if binding <= u32::MAX as usize {
        plan_call(
            plan,
            Call::UniformBlockBinding { program, block_index: block, binding: binding as u32 },
        );
        plan_call(
            plan,
            Call::BindBufferBase {
                target: BufferTarget::UniformBuffer.websys_code(),
                index: binding as u32,
                buffer,
            },
        );
    } else {
        plan_entry(plan, Planned::Fail(GlError::BindingIndexOutOfRange));
        plan_entry(plan, Planned::Fail(GlError::BindingIndexOutOfRange));
    }
    assert(plan_view(plan@) =~= plan_view(old(plan)@) + uniform_plan(
        program,
        name@,
        binding,
        buffer,
        replies_view(replies@),
    ));
}

/// Appends the plan of a load to `plan`.
pub fn plan_load(
    plan: &mut Vec<Planned>,
    order: ByteOrder,
    buf: &HostArray,
    arg: BufferArg,
    program: Handle,
    replies: &[Reply],
)
    ensures
        plan_view(final(plan)@) == plan_view(old(plan)@) + load_plan(
            order,
            buf@,
            arg@,
            program,
            replies_view(replies@),
        ),
{
    let ghost answers = replies_view(replies@);
    let target = arg.target().websys_code();
    let datatype = arg.datatype();
    let buffer = object(replies, 0);
    let wiring = rest(replies, 2);
    let last = match marshal_in(order, datatype, buf) {
        Ok(data) => Planned::Call(Call::BufferData { target, data, usage: STATIC_DRAW }),
        Err(error) => Planned::Fail(GlError::Marshal(error)),
    };
    assert(last@ == upload(order, buf@, arg@));
    plan_call(plan, Call::CreateBuffer);
    plan_call(plan, Call::BindBuffer { target, buffer });
    let ghost bound = plan_view(plan@);
    match arg {
        BufferArg::Attribute(datatype, size, name) => {
            plan_attribute(plan, program, name, size, datatype, wiring);
        },
        BufferArg::Vertexes(size) => {
            plan_call(plan, Call::CreateVertexArray);
            plan_call(plan, Call::BindVertexArray { vertex_array: object(wiring, 0) });
            plan_attribute(
                plan,
                program,
                String::from_str("position"),
                size,
                BufferDataType::Float,
                rest(wiring, 2),
            );
        },
        BufferArg::Uniform(_, name, binding) => {
            plan_uniform(plan, program, name, binding, buffer, wiring);
        },
        BufferArg::ElementArray => {},
    }
    assert(plan_view(plan@) =~= bound + wiring_plan(arg@, program, buffer, after(answers, 2)));
    plan_entry(plan, last);
    assert(plan_view(plan@) =~= plan_view(old(plan)@) + load_plan(
        order,
        buf@,
        arg@,
        program,
        answers,
    ));
}

/// Appends the plan of drawing one rectangle to `plan`.
pub fn plan_draw(
    plan: &mut Vec<Planned>,
    order: ByteOrder,
    vertices: &Rectangle,
    center: (FloatBits, FloatBits),
    program: Handle,
    replies: &[Reply],
)
    ensures
        plan_view(final(plan)@) == plan_view(old(plan)@) + draw_plan(
            order,
            vertices@,
            center,
            program,
            replies_view(replies@),
        ),
{
    let ghost answers = replies_view(replies@);
    let ghost before = plan_view(plan@);
    let start = plan.len();
    plan_load(plan, order, &floats(vertices.as_slice()), BufferArg::Vertexes(2), program, replies);
    let ghost positions = load_plan(
        order,
        float_array(vertices@),
        BufferArgView::Vertexes(2),
        program,
        answers,
    );
    assert(plan_view(plan@).len() == before.len() + positions.len());

    let index_buffer: [u32; 4] = [0, 1, 2, 3];
    let indices = HostArray::Uint32(slice_to_vec(index_buffer.as_slice()));
    assert(indices@.patterns =~= strip_indices().patterns);
    plan_load(
        plan,
        order,
        &indices,
        BufferArg::ElementArray,
        program,
        rest(replies, plan.len() - start),
    );
    let ghost indexed = load_plan(
        order,
        strip_indices(),
        BufferArgView::ElementArray,
        program,
        after(answers, positions.len()),
    );
    assert(plan_view(plan@).len() == before.len() + positions.len() + indexed.len());

    let stage_center = center_buffer(center);
    plan_load(
        plan,
        order,
        &floats(stage_center.as_slice()),
        BufferArg::Uniform(
            BufferDataType::Float,
            String::from_str("u_centers"),
            UNIFORM_CENTERS_IDX,
        ),
        program,
        rest(replies, plan.len() - start),
    );
    let ghost centers = load_plan(
        order,
        float_array(center_block(center)),
        BufferArgView::Uniform(BufferDataType::Float, "u_centers"@, UNIFORM_CENTERS_IDX),
        program,
        after(answers, positions.len() + indexed.len()),
    );
    assert(plan_view(plan@).len() == before.len() + positions.len() + indexed.len()
        + centers.len());

    let camera = Camera { center: CAMERA_CENTER, zoom: CAMERA_ZOOM };
    plan_load(
        plan,
        order,
        &floats(camera.to_buffer().as_slice()),
        BufferArg::Uniform(BufferDataType::Float, String::from_str("u_camera"), UNIFORM_CAMERA_IDX),
        program,
        rest(replies, plan.len() - start),
    );
    plan_call(
        plan,
        Call::DrawElements {
            mode: TRIANGLE_STRIP,
            count: 4,
            datatype: BufferDataType::UnsignedInt.websys_code(),
            offset: 0,
        },
    );
    assert(plan_view(plan@) =~= before + draw_plan(order, vertices@, center, program, answers));
}

/// Loads `buf` into a new buffer of the role `arg`, wired to `program`.
///
/// The step is where the plan of the load stands after the answers that
/// `context` holds.
pub fn load_buffer(buf: &HostArray, arg: BufferArg, context: &Context, program: Handle) -> (step:
    Step<()>)
    ensures
        step@ == next_step(
            load_plan(context.byte_order, buf@, arg@, program, context.answers()),
            context.answers(),
        ),
{
    let replies = context.replies.as_slice();
    let mut plan: Vec<Planned> = Vec::new();
    plan_load(&mut plan, context.byte_order, buf, arg, program, replies);
    assert(plan_view(plan@) =~= load_plan(
        context.byte_order,
        buf@,
        arg@,
        program,
        context.answers(),
    ));
    run(plan, replies)
}

/// Appends the plan of drawing the player to `plan`.
pub fn plan_player(plan: &mut Vec<Planned>, order: ByteOrder, program: Handle, replies: &[Reply])
    ensures
        plan_view(final(plan)@) == plan_view(old(plan)@) + player_plan(
            order,
            program,
            replies_view(replies@),
        ),
{
    plan_draw(plan, order, &PLAYER_VERT, PLAYER_CENTER, program, replies);
}

/// Appends the plan of drawing the whole stage to `plan`.
pub fn plan_init(plan: &mut Vec<Planned>, order: ByteOrder, program: Handle, replies: &[Reply])
    ensures
        plan_view(final(plan)@) == plan_view(old(plan)@) + init_plan(
            order,
            program,
            replies_view(replies@),
        ),
{
    let ghost answers = replies_view(replies@);
    let ghost before = plan_view(plan@);
    let start = plan.len();
    plan_call(plan, Call::ClearColor { red: 0, green: 0, blue: 0, alpha: 0x3F80_0000 });
    plan_call(plan, Call::Clear { mask: COLOR_BUFFER_BIT });
    assert(plan_view(plan@).len() == before.len() + 2);
    let cleared = plan.len() - start;
    plan_draw(plan, order, &PLATFORM_VERT, PLATFORM_CENTER, program, rest(replies, cleared));
    let ghost platform = draw_plan(
        order,
        PLATFORM_VERT@,
        PLATFORM_CENTER,
        program,
        after(answers, 2),
    );
    assert(plan_view(plan@).len() == before.len() + 2 + platform.len());
    let drawn = plan.len() - start;
    plan_player(plan, order, program, rest(replies, drawn));
    assert(plan_view(plan@) =~= before + init_plan(order, program, answers));
}

/// Draws the whole stage with `program`: clears the frame, draws the
/// platform, then the player.
pub fn init(context: &Context, program: Handle) -> (step: Step<()>)
    ensures
        step@ == next_step(
            init_plan(context.byte_order, program, context.answers()),
            context.answers(),
        ),
{
    let replies = context.replies.as_slice();
    let mut plan: Vec<Planned> = Vec::new();
    plan_init(&mut plan, context.byte_order, program, replies);
    assert(plan_view(plan@) =~= init_plan(context.byte_order, program, context.answers()));
    run(plan, replies)
}

/// Draws the player with `program`.
pub fn draw_player(context: &Context, program: Handle) -> (step: Step<()>)
    ensures
        step@ == next_step(
            player_plan(context.byte_order, program, context.answers()),
            context.answers(),
        ),
{
    let replies = context.replies.as_slice();
    let mut plan: Vec<Planned> = Vec::new();
    plan_player(&mut plan, context.byte_order, program, replies);
    assert(plan_view(plan@) =~= player_plan(context.byte_order, program, context.answers()));
    run(plan, replies)
}

/// The plan of building the stage's program: compile the vertex shader,
/// compile the fragment shader whatever became of the first, and link the
/// two if both compiled.
pub open spec fn stage_plan(
    vertex_source: Seq<char>,
    fragment_source: Seq<char>,
    replies: Seq<ReplyView>,
) -> Seq<PlannedView> {
    let vertex = compile_plan(VERTEX_SHADER, vertex_source, replies);
    let fragment = compile_plan(FRAGMENT_SHADER, fragment_source, after(replies, vertex.len()));
    vertex + fragment + match (
        compile_outcome(replies),
        compile_outcome(after(replies, vertex.len())),
    ) {
        (Ok(vert_shader), Ok(frag_shader)) => link_plan(
            vert_shader,
            frag_shader,
            after(replies, vertex.len() + fragment.len()),
        ),
        _ => Seq::empty(),
    }
}

/// What building the stage's program ends in: the program, or the log of
/// the first stage that did not compile under a line that names the stage,
/// or the linker's log as it is.
pub open spec fn stage_outcome(
    vertex_source: Seq<char>,
    fragment_source: Seq<char>,
    replies: Seq<ReplyView>,
) -> Result<Handle, Seq<char>> {
    let vertex = compile_plan(VERTEX_SHADER, vertex_source, replies);
    let fragment = compile_plan(FRAGMENT_SHADER, fragment_source, after(replies, vertex.len()));
    match compile_outcome(replies) {
        Err(log) => Err("Vertex shader error\n"@ + log),
        Ok(_) => match compile_outcome(after(replies, vertex.len())) {
            Err(log) => Err("Fragment shader error\n"@ + log),
            Ok(_) => link_outcome(after(replies, vertex.len() + fragment.len())),
        },
    }
}

/// Appends the plan of building the stage's program to `plan`, and says what
/// the build ends in.
pub fn plan_stage(
    plan: &mut Vec<Planned>,
    vertex_source: &str,
    fragment_source: &str,
    replies: &[Reply],
) -> (outcome: Result<Handle, String>)
    ensures
        plan_view(final(plan)@) == plan_view(old(plan)@) + stage_plan(
            vertex_source@,
            fragment_source@,
            replies_view(replies@),
        ),
        outcome_view(outcome) == stage_outcome(
            vertex_source@,
            fragment_source@,
            replies_view(replies@),
        ),
{
    let ghost answers = replies_view(replies@);
    let ghost before = plan_view(plan@);
    let ghost vertex = compile_plan(VERTEX_SHADER, vertex_source@, answers);
    let start = plan.len();
    let vert_shader = plan_compile(plan, VERTEX_SHADER, vertex_source, replies);
    assert(plan_view(plan@).len() == before.len() + vertex.len());
    let compiled = plan.len() - start;
    let frag_shader = plan_compile(plan, FRAGMENT_SHADER, fragment_source, rest(replies, compiled));
    let ghost fragment = compile_plan(
        FRAGMENT_SHADER,
        fragment_source@,
        after(answers, vertex.len()),
    );
    assert(plan_view(plan@).len() == before.len() + vertex.len() + fragment.len());
    let outcome = match vert_shader {
        Err(log) => Err(String::from_str("Vertex shader error\n").concat(log.as_str())),
        Ok(vert_shader) => match frag_shader {
            Err(log) => Err(String::from_str("Fragment shader error\n").concat(log.as_str())),
            Ok(frag_shader) => {
                let both = plan.len() - start;
                plan_link(plan, vert_shader, frag_shader, rest(replies, both))
            },
        },
    };
    assert(plan_view(plan@) =~= before + stage_plan(vertex_source@, fragment_source@, answers));
    outcome
}

/// Builds the stage's program from the sources of its two shaders.
///
/// The build is rejected with `"Vertex shader error\n"` and the log where
/// the vertex shader does not compile, else with
/// `"Fragment shader error\n"` and the log where the fragment shader does
/// not, else with the linker's log where the two do not link.
pub fn stage_program(context: &Context, vertex_source: &str, fragment_source: &str) -> (step: Step<
    Handle,
>)
    ensures
        step@ == concluded(
            next_step(
                stage_plan(vertex_source@, fragment_source@, context.answers()),
                context.answers(),
            ),
            stage_outcome(vertex_source@, fragment_source@, context.answers()),
        ),
{
    let replies = context.replies.as_slice();
    let mut plan: Vec<Planned> = Vec::new();
    let outcome = plan_stage(&mut plan, vertex_source, fragment_source, replies);
    assert(plan_view(plan@) =~= stage_plan(vertex_source@, fragment_source@, context.answers()));
    conclude(run(plan, replies), outcome)
}

} // verus!
