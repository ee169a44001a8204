//! What holds of the drawing of the stage whatever the context answers: how
//! many calls a draw takes and where each of them stands, that a call
//! depends on the answers before it alone, that a run whose answers are good
//! makes the calls of its plan in order, and that two runs differ in the
//! identities of the objects alone.

use vstd::prelude::*;
use crate::context::after;
use crate::context::answered_well;
use crate::context::lemma_after_take;
use crate::context::lemma_calls_in_order;
use crate::context::lemma_next_step_alike;
use crate::context::lemma_plan_done;
use crate::context::next_step;
use crate::context::object_at;
use crate::context::plans_alike;
use crate::context::replies_alike;
use crate::context::step_at;
use crate::context::CallView;
use crate::context::Handle;
use crate::context::PlannedView;
use crate::context::ReplyView;
use crate::context::StepView;
use crate::marshal::layout;
use crate::marshal::ByteOrder;
use crate::marshal::FloatBits;
use crate::marshal::HostArrayView;
use crate::stage::center_block;
use crate::stage::draw_plan;
use crate::stage::float_array;
use crate::stage::init_plan;
use crate::stage::load_plan;
use crate::stage::player_plan;
use crate::stage::stage_camera;
use crate::stage::strip_indices;
use crate::stage::BufferArgView;
use crate::stage::PLATFORM_CENTER;
use crate::stage::PLATFORM_VERT;
use crate::stage::PLAYER_CENTER;
use crate::stage::PLAYER_VERT;
use crate::stage::UNIFORM_CAMERA_IDX;
use crate::stage::UNIFORM_CENTERS_IDX;
use crate::webgl_const::BufferDataType;
use crate::webgl_const::BufferTarget;
use crate::webgl_const::COLOR_BUFFER_BIT;
use crate::webgl_const::STATIC_DRAW;
use crate::webgl_const::TRIANGLE_STRIP;

verus! {

/// The draw that ends the drawing of a rectangle: four indices, unsigned
/// 32-bit, from the start of the bound index buffer, as a triangle strip.
pub open spec fn strip_draw() -> PlannedView {
    PlannedView::Call(
        CallView::DrawElements {
            mode: TRIANGLE_STRIP,
            count: 4,
            datatype: BufferDataType::UnsignedInt.code(),
            offset: 0,
        },
    )
}

impl PlannedView {
    /// Whether this is an indexed draw.
    pub open spec fn is_draw(self) -> bool {
        self matches PlannedView::Call(CallView::DrawElements { .. })
    }

    /// Whether this creates a vertex array object.
    pub open spec fn is_vertex_array_creation(self) -> bool {
        self == PlannedView::Call(CallView::CreateVertexArray)
    }

    /// Whether this uploads data to the binding point `target`.
    pub open spec fn is_upload_to(self, target: BufferTarget) -> bool {
        self matches PlannedView::Call(CallView::BufferData { target: code, .. }) && code
            == target.code()
    }

    /// Whether this binds a buffer to an indexed binding point.
    pub open spec fn is_base_binding(self) -> bool {
        self matches PlannedView::Call(CallView::BindBufferBase { .. })
    }
}

/// The upload of an array of 32-bit floats to `target`.
pub open spec fn float_upload(
    order: ByteOrder,
    target: BufferTarget,
    values: Seq<FloatBits>,
) -> PlannedView {
    PlannedView::Call(
        CallView::BufferData {
            target: target.code(),
            data: layout(order, 4, float_array(values).patterns),
            usage: STATIC_DRAW,
        },
    )
}

/// Drawing a rectangle takes twenty-four calls whatever the context answers.
/// The last is the one draw.  Before it come, each exactly once and in this
/// order: the creation of a vertex array object, the upload of the corners to
/// the array buffer, the upload of the indices to the element array buffer,
/// the upload of the center to a uniform buffer bound at index 3, and the
/// upload of the camera to a uniform buffer bound at index 2.
pub proof fn lemma_draw_plan_shape(
    order: ByteOrder,
    vertices: Seq<FloatBits>,
    center: (FloatBits, FloatBits),
    program: Handle,
    replies: Seq<ReplyView>,
)
    ensures
        ({
            let plan = draw_plan(order, vertices, center, program, replies);
            &&& plan.len() == 24
            &&& plan[23] == strip_draw()
            &&& forall|i: int| 0 <= i < 24 ==> (#[trigger] plan[i].is_draw() <==> i == 23)
            &&& forall|i: int|
                0 <= i < 24 ==> (#[trigger] plan[i].is_vertex_array_creation() <==> i == 2)
            &&& plan[7] == float_upload(order, BufferTarget::ArrayBuffer, vertices)
            &&& forall|i: int|
                0 <= i < 24 ==> (#[trigger] plan[i].is_upload_to(BufferTarget::ArrayBuffer) <==> i
                    == 7)
            &&& plan[10] == PlannedView::Call(
                CallView::BufferData {
                    target: BufferTarget::ElementArrayBuffer.code(),
                    data: layout(order, 4, strip_indices().patterns),
                    usage: STATIC_DRAW,
                },
            )
            &&& forall|i: int|
                0 <= i < 24 ==> (#[trigger] plan[i].is_upload_to(BufferTarget::ElementArrayBuffer)
                    <==> i == 10)
            &&& plan[15] == PlannedView::Call(
                CallView::BindBufferBase {
                    target: BufferTarget::UniformBuffer.code(),
                    index: 3,
                    buffer: object_at(replies, 11),
                },
            )
            &&& plan[16] == float_upload(order, BufferTarget::UniformBuffer, center_block(center))
            &&& plan[21] == PlannedView::Call(
                CallView::BindBufferBase {
                    target: BufferTarget::UniformBuffer.code(),
                    index: 2,
                    buffer: object_at(replies, 17),
                },
            )
            &&& plan[22] == float_upload(
                order,
                BufferTarget::UniformBuffer,
                stage_camera().buffer(),
            )
            &&& forall|i: int|
                0 <= i < 24 ==> (#[trigger] plan[i].is_upload_to(BufferTarget::UniformBuffer) <==> i
                    == 16 || i == 22)
            &&& forall|i: int|
                0 <= i < 24 ==> (#[trigger] plan[i].is_base_binding() <==> i == 15 || i == 21)
        }),
{
    let plan = draw_plan(order, vertices, center, program, replies);
    let positions = load_plan(
        order,
        float_array(vertices),
        BufferArgView::Vertexes(2),
        program,
        replies,
    );
    let indices = load_plan(
        order,
        strip_indices(),
        BufferArgView::ElementArray,
        program,
        after(replies, 8),
    );
    let centers = load_plan(
        order,
        float_array(center_block(center)),
        BufferArgView::Uniform(BufferDataType::Float, "u_centers"@, UNIFORM_CENTERS_IDX),
        program,
        after(replies, 11),
    );
    let camera = load_plan(
        order,
        float_array(stage_camera().buffer()),
        BufferArgView::Uniform(BufferDataType::Float, "u_camera"@, UNIFORM_CAMERA_IDX),
        program,
        after(replies, 17),
    );
    assert(plan =~= positions + indices + centers + camera + seq![strip_draw()]);
}

/// Drawing the stage takes fifty calls whatever the context answers: the two
/// that clear the frame, the twenty-four that draw the platform, and the
/// twenty-four that draw the player.  So there are two draws, the platform's
/// first, and each is preceded by the loads of its own rectangle.
pub proof fn lemma_init_plan_shape(order: ByteOrder, program: Handle, replies: Seq<ReplyView>)
    ensures
        ({
            let plan = init_plan(order, program, replies);
            &&& plan.len() == 50
            &&& plan.subrange(2, 26) == draw_plan(
                order,
                PLATFORM_VERT@,
                PLATFORM_CENTER,
                program,
                after(replies, 2),
            )
            &&& plan.subrange(26, 50) == player_plan(order, program, after(replies, 26))
            &&& forall|i: int|
                0 <= i < 50 ==> (#[trigger] plan[i].is_draw() <==> i == 25 || i == 49)
            &&& plan[25] == strip_draw()
            &&& plan[49] == strip_draw()
        }),
{
    let plan = init_plan(order, program, replies);
    let platform = draw_plan(order, PLATFORM_VERT@, PLATFORM_CENTER, program, after(replies, 2));
    let player = player_plan(order, program, after(replies, 26));
    lemma_draw_plan_shape(order, PLATFORM_VERT@, PLATFORM_CENTER, program, after(replies, 2));
    lemma_draw_plan_shape(order, PLAYER_VERT@, PLAYER_CENTER, program, after(replies, 26));
    assert(plan.subrange(2, 26) =~= platform);
    assert(plan.subrange(26, 50) =~= player);
    assert forall|i: int| 0 <= i < 50 implies (#[trigger] plan[i].is_draw() <==> i == 25 || i
        == 49) by {
        if i >= 26 {
            assert(plan[i] == player[i - 26]);
        } else if i >= 2 {
            assert(plan[i] == platform[i - 2]);
        }
    }
}

/// Drawing a rectangle twice gives the same calls with the same arguments,
/// but for the identities of the buffers and vertex array objects: two runs
/// that the context answers alike stand, at every point, at calls that
/// differ in those identities alone.
pub proof fn lemma_draw_repeatable(
    order: ByteOrder,
    vertices: Seq<FloatBits>,
    center: (FloatBits, FloatBits),
    program: Handle,
    first: Seq<ReplyView>,
    second: Seq<ReplyView>,
)
    requires
        replies_alike(first, second),
    ensures
        plans_alike(
            draw_plan(order, vertices, center, program, first),
            draw_plan(order, vertices, center, program, second),
        ),
        next_step(draw_plan(order, vertices, center, program, first), first).without_objects()
            == next_step(
            draw_plan(order, vertices, center, program, second),
            second,
        ).without_objects(),
{
    let one = draw_plan(order, vertices, center, program, first);
    let other = draw_plan(order, vertices, center, program, second);
    lemma_draw_plan_shape(order, vertices, center, program, first);
    lemma_draw_plan_shape(order, vertices, center, program, second);
    if 4 < first.len() {
        assert(first[4].without_objects() == second[4].without_objects());
    }
    if 13 < first.len() {
        assert(first[13].without_objects() == second[13].without_objects());
    }
    if 19 < first.len() {
        assert(first[19].without_objects() == second[19].without_objects());
    }
    assert forall|i: int| 0 <= i < one.len() implies (#[trigger] one[i]).without_objects() == (
    #[trigger] other[i]).without_objects() by {}
    lemma_next_step_alike(one, other, first, second);
}

/// Drawing the player twice with one program gives two runs of calls that
/// differ in the identities of the buffers and vertex array objects alone.
pub proof fn lemma_draw_player_repeatable(
    order: ByteOrder,
    program: Handle,
    first: Seq<ReplyView>,
    second: Seq<ReplyView>,
)
    requires
        replies_alike(first, second),
    ensures
        plans_alike(player_plan(order, program, first), player_plan(order, program, second)),
        next_step(player_plan(order, program, first), first).without_objects() == next_step(
            player_plan(order, program, second),
            second,
        ).without_objects(),
{
    lemma_draw_repeatable(order, PLAYER_VERT@, PLAYER_CENTER, program, first, second);
}

/// An entry of a load's plan depends on the answers to the calls before it
/// alone: the plan made from the first `count` answers has, up to entry
/// `count`, the entries of the plan made from all of them.
pub proof fn lemma_load_plan_settled(
    order: ByteOrder,
    buf: HostArrayView,
    arg: BufferArgView,
    program: Handle,
    replies: Seq<ReplyView>,
    count: int,
)
    requires
        0 <= count <= replies.len(),
    ensures
        load_plan(order, buf, arg, program, replies.take(count)).len() == load_plan(
            order,
            buf,
            arg,
            program,
            replies,
        ).len(),
        forall|i: int|
            0 <= i <= count && i < load_plan(order, buf, arg, program, replies).len()
                ==> #[trigger] load_plan(order, buf, arg, program, replies.take(count))[i]
                == load_plan(order, buf, arg, program, replies)[i],
{
    lemma_after_take(replies, count, 2);
    if 2 <= count {
        lemma_after_take(after(replies, 2), count - 2, 2);
    }
}

/// Entry `i` of the plan of drawing a rectangle, found in the load that it
/// belongs to.
pub open spec fn draw_entry(
    order: ByteOrder,
    vertices: Seq<FloatBits>,
    center: (FloatBits, FloatBits),
    program: Handle,
    replies: Seq<ReplyView>,
    i: int,
) -> PlannedView {
    if i < 8 {
        load_plan(order, float_array(vertices), BufferArgView::Vertexes(2), program, replies)[i]
    } else if i < 11 {
        load_plan(order, strip_indices(), BufferArgView::ElementArray, program, after(replies, 8))[i
            - 8]
    } else if i < 17 {
        load_plan(
            order,
            float_array(center_block(center)),
            BufferArgView::Uniform(BufferDataType::Float, "u_centers"@, UNIFORM_CENTERS_IDX),
            program,
            after(replies, 11),
        )[i - 11]
    } else if i < 23 {
        load_plan(
            order,
            float_array(stage_camera().buffer()),
            BufferArgView::Uniform(BufferDataType::Float, "u_camera"@, UNIFORM_CAMERA_IDX),
            program,
            after(replies, 17),
        )[i - 17]
    } else {
        strip_draw()
    }
}

/// The plan of drawing a rectangle is its four loads, one after the other,
/// and the draw.
pub proof fn lemma_draw_plan_entry(
    order: ByteOrder,
    vertices: Seq<FloatBits>,
    center: (FloatBits, FloatBits),
    program: Handle,
    replies: Seq<ReplyView>,
    i: int,
)
    requires
        0 <= i < 24,
    ensures
        draw_plan(order, vertices, center, program, replies)[i] == draw_entry(
            order,
            vertices,
            center,
            program,
            replies,
            i,
        ),
{
}

/// An entry of the plan of drawing a rectangle depends on the answers to the
/// calls before it alone.
proof fn lemma_draw_entry_settled(
    order: ByteOrder,
    vertices: Seq<FloatBits>,
    center: (FloatBits, FloatBits),
    program: Handle,
    replies: Seq<ReplyView>,
    count: int,
    i: int,
)
    requires
        0 <= count <= replies.len(),
        0 <= i <= count,
        i < 24,
    ensures
        draw_entry(order, vertices, center, program, replies.take(count), i) == draw_entry(
            order,
            vertices,
            center,
            program,
            replies,
            i,
        ),
{
    if i < 8 {
        lemma_load_plan_settled(
            order,
            float_array(vertices),
            BufferArgView::Vertexes(2),
            program,
            replies,
            count,
        );
    } else if i < 11 {
        lemma_after_take(replies, count, 8);
        lemma_load_plan_settled(
            order,
            strip_indices(),
            BufferArgView::ElementArray,
            program,
            after(replies, 8),
            count - 8,
        );
    } else if i < 17 {
        lemma_after_take(replies, count, 11);
        lemma_load_plan_settled(
            order,
            float_array(center_block(center)),
            BufferArgView::Uniform(BufferDataType::Float, "u_centers"@, UNIFORM_CENTERS_IDX),
            program,
            after(replies, 11),
            count - 11,
        );
    } else if i < 23 {
        lemma_after_take(replies, count, 17);
        lemma_load_plan_settled(
            order,
            float_array(stage_camera().buffer()),
            BufferArgView::Uniform(BufferDataType::Float, "u_camera"@, UNIFORM_CAMERA_IDX),
            program,
            after(replies, 17),
            count - 17,
        );
    }
}

/// An entry of the plan of drawing a rectangle depends on the answers to the
/// calls before it alone: the plan made from the first `count` answers has,
/// up to entry `count`, the entries of the plan made from all of them.
pub proof fn lemma_draw_plan_settled(
    order: ByteOrder,
    vertices: Seq<FloatBits>,
    center: (FloatBits, FloatBits),
    program: Handle,
    replies: Seq<ReplyView>,
    count: int,
)
    requires
        0 <= count <= replies.len(),
    ensures
        forall|i: int|
            0 <= i <= count && i < 24 ==> #[trigger] draw_plan(
                order,
                vertices,
                center,
                program,
                replies.take(count),
            )[i] == draw_plan(order, vertices, center, program, replies)[i],
{
    assert forall|i: int| 0 <= i <= count && i < 24 implies #[trigger] draw_plan(
        order,
        vertices,
        center,
        program,
        replies.take(count),
    )[i] == draw_plan(order, vertices, center, program, replies)[i] by {
        lemma_draw_plan_entry(order, vertices, center, program, replies.take(count), i);
        lemma_draw_plan_entry(order, vertices, center, program, replies, i);
        lemma_draw_entry_settled(order, vertices, center, program, replies, count, i);
    }
}

/// While the context answers well, drawing a rectangle makes the calls of
/// its plan one after the other: after `count` good answers the step is
/// entry `count` of the plan that all the answers give.
pub proof fn lemma_draw_calls_in_order(
    order: ByteOrder,
    vertices: Seq<FloatBits>,
    center: (FloatBits, FloatBits),
    program: Handle,
    replies: Seq<ReplyView>,
    count: int,
)
    requires
        0 <= count < 24,
        count <= replies.len(),
        answered_well(draw_plan(order, vertices, center, program, replies), replies, count),
    ensures
        next_step(
            draw_plan(order, vertices, center, program, replies.take(count)),
            replies.take(count),
        ) == step_at(draw_plan(order, vertices, center, program, replies)[count]),
{
    lemma_draw_plan_shape(order, vertices, center, program, replies.take(count));
    lemma_draw_plan_settled(order, vertices, center, program, replies, count);
    lemma_calls_in_order(
        draw_plan(order, vertices, center, program, replies),
        draw_plan(order, vertices, center, program, replies.take(count)),
        replies,
        count,
    );
}

/// Drawing a rectangle is complete once its twenty-four calls have good
/// answers.
pub proof fn lemma_draw_completes(
    order: ByteOrder,
    vertices: Seq<FloatBits>,
    center: (FloatBits, FloatBits),
    program: Handle,
    replies: Seq<ReplyView>,
)
    requires
        24 <= replies.len(),
        answered_well(draw_plan(order, vertices, center, program, replies), replies, 24),
    ensures
        next_step(draw_plan(order, vertices, center, program, replies), replies) == StepView::Done(
            (),
        ),
{
    lemma_draw_plan_shape(order, vertices, center, program, replies);
    lemma_plan_done(draw_plan(order, vertices, center, program, replies), replies);
}

/// Entry `i` of the plan of drawing the stage, found in the part that it
/// belongs to.
pub open spec fn init_entry(
    order: ByteOrder,
    program: Handle,
    replies: Seq<ReplyView>,
    i: int,
) -> PlannedView {
    if i == 0 {
        PlannedView::Call(CallView::ClearColor { red: 0, green: 0, blue: 0, alpha: 0x3F80_0000 })
    } else if i == 1 {
        PlannedView::Call(CallView::Clear { mask: COLOR_BUFFER_BIT })
    } else if i < 26 {
        draw_plan(order, PLATFORM_VERT@, PLATFORM_CENTER, program, after(replies, 2))[i - 2]
    } else {
        player_plan(order, program, after(replies, 26))[i - 26]
    }
}

/// The plan of drawing the stage is the two calls that clear the frame, the
/// drawing of the platform and the drawing of the player.
pub proof fn lemma_init_plan_entry(
    order: ByteOrder,
    program: Handle,
    replies: Seq<ReplyView>,
    i: int,
)
    requires
        0 <= i < 50,
    ensures
        init_plan(order, program, replies)[i] == init_entry(order, program, replies, i),
{
    lemma_draw_plan_shape(order, PLATFORM_VERT@, PLATFORM_CENTER, program, after(replies, 2));
    lemma_draw_plan_shape(order, PLAYER_VERT@, PLAYER_CENTER, program, after(replies, 26));
}

/// An entry of the plan of drawing the stage depends on the answers to the
/// calls before it alone.
pub proof fn lemma_init_plan_settled(
    order: ByteOrder,
    program: Handle,
    replies: Seq<ReplyView>,
    count: int,
)
    requires
        0 <= count <= replies.len(),
    ensures
        forall|i: int|
            0 <= i <= count && i < 50 ==> #[trigger] init_plan(
                order,
                program,
                replies.take(count),
            )[i] == init_plan(order, program, replies)[i],
{
    assert forall|i: int| 0 <= i <= count && i < 50 implies #[trigger] init_plan(
        order,
        program,
        replies.take(count),
    )[i] == init_plan(order, program, replies)[i] by {
        lemma_init_plan_entry(order, program, replies.take(count), i);
        lemma_init_plan_entry(order, program, replies, i);
        if 26 <= i {
            lemma_after_take(replies, count, 26);
            lemma_draw_plan_settled(
                order,
                PLAYER_VERT@,
                PLAYER_CENTER,
                program,
                after(replies, 26),
                count - 26,
            );
        } else if 2 <= i {
            lemma_after_take(replies, count, 2);
            lemma_draw_plan_settled(
                order,
                PLATFORM_VERT@,
                PLATFORM_CENTER,
                program,
                after(replies, 2),
                count - 2,
            );
        }
    }
}

/// While the context answers well, drawing the stage makes the calls of its
/// plan one after the other: after `count` good answers the step is entry
/// `count` of the plan that all the answers give.
pub proof fn lemma_init_calls_in_order(
    order: ByteOrder,
    program: Handle,
    replies: Seq<ReplyView>,
    count: int,
)
    requires
        0 <= count < 50,
        count <= replies.len(),
        answered_well(init_plan(order, program, replies), replies, count),
    ensures
        next_step(init_plan(order, program, replies.take(count)), replies.take(count)) == step_at(
            init_plan(order, program, replies)[count],
        ),
{
    lemma_init_plan_shape(order, program, replies.take(count));
    lemma_init_plan_settled(order, program, replies, count);
    lemma_calls_in_order(
        init_plan(order, program, replies),
        init_plan(order, program, replies.take(count)),
        replies,
        count,
    );
}

/// Drawing the stage is complete once its fifty calls have good answers.
pub proof fn lemma_init_completes(order: ByteOrder, program: Handle, replies: Seq<ReplyView>)
    requires
        50 <= replies.len(),
        answered_well(init_plan(order, program, replies), replies, 50),
    ensures
        next_step(init_plan(order, program, replies), replies) == StepView::Done(()),
{
    lemma_init_plan_shape(order, program, replies);
    lemma_plan_done(init_plan(order, program, replies), replies);
}

} // verus!
