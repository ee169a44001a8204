//! The building of a shader program: each stage is compiled, and the two are
//! linked.  What fails here the caller may present and survive.

use vstd::prelude::*;
use crate::context::creation_failed;
use crate::context::info_log;
use crate::context::log_at;
use crate::context::next_step;
use crate::context::no_object;
use crate::context::no_success;
use crate::context::object;
use crate::context::object_at;
use crate::context::plan_call;
use crate::context::plan_view;
use crate::context::replies_view;
use crate::context::run;
use crate::context::status_failed;
use crate::context::Call;
use crate::context::CallView;
use crate::context::Context;
use crate::context::Handle;
use crate::context::Planned;
use crate::context::PlannedView;
use crate::context::Reply;
use crate::context::ReplyView;
use crate::context::Step;
use crate::context::StepView;
use crate::webgl_const::COMPILE_STATUS;
use crate::webgl_const::LINK_STATUS;

verus! {

/// What a build ends in: the object that was built, or the text that says why
/// there is none.
pub open spec fn outcome_view(outcome: Result<Handle, String>) -> Result<Handle, Seq<char>> {
    match outcome {
        Ok(handle) => Ok(handle),
        Err(message) => Err(message@),
    }
}

/// The step of a build: that of its plan, and at the plan's end what the
/// build ended in.
pub open spec fn concluded(step: StepView<()>, outcome: Result<Handle, Seq<char>>) -> StepView<
    Handle,
> {
    match step {
        StepView::Call(call) => StepView::Call(call),
        StepView::Done(_) => match outcome {
            Ok(handle) => StepView::Done(handle),
            Err(message) => StepView::Rejected(message),
        },
        StepView::Rejected(message) => StepView::Rejected(message),
        StepView::Failed(error) => StepView::Failed(error),
    }
}

/// The plan of compiling one shader stage: create the shader, hand it the
/// source, compile, and ask whether that went well; the log is fetched only
/// if it did not.  Where no shader could be created nothing follows.
pub open spec fn compile_plan(kind: u32, source: Seq<char>, replies: Seq<ReplyView>) -> Seq<
    PlannedView,
> {
    let shader = object_at(replies, 0);
    seq![PlannedView::Call(CallView::CreateShader { kind })] + if creation_failed(replies, 0) {
        Seq::empty()
    } else {
        seq![
            PlannedView::Call(CallView::ShaderSource { shader, source }),
            PlannedView::Call(CallView::CompileShader { shader }),
            PlannedView::Call(CallView::GetShaderParameter { shader, pname: COMPILE_STATUS }),
        ] + if status_failed(replies, 3) {
            seq![PlannedView::Call(CallView::GetShaderInfoLog { shader })]
        } else {
            Seq::empty()
        }
    }
}

/// What compiling a stage ends in: the shader, or the compiler's log.
pub open spec fn compile_outcome(replies: Seq<ReplyView>) -> Result<Handle, Seq<char>> {
    if creation_failed(replies, 0) {
        Err("Unable to create shader object"@)
    } else if status_failed(replies, 3) {
        Err(log_at(replies, 4, "Unknown error creating shader"@))
    } else {
        Ok(object_at(replies, 0))
    }
}

/// The plan of linking two shaders: create the program, attach the vertex
/// shader and the fragment shader, link, and ask whether that went well; the
/// log is fetched only if it did not.  Where no program could be created
/// nothing follows.
pub open spec fn link_plan(vert_shader: Handle, frag_shader: Handle, replies: Seq<ReplyView>) -> Seq<
    PlannedView,
> {
    let program = object_at(replies, 0);
    seq![PlannedView::Call(CallView::CreateProgram)] + if creation_failed(replies, 0) {
        Seq::empty()
    } else {
        seq![
            PlannedView::Call(CallView::AttachShader { program, shader: vert_shader }),
            PlannedView::Call(CallView::AttachShader { program, shader: frag_shader }),
            PlannedView::Call(CallView::LinkProgram { program }),
            PlannedView::Call(CallView::GetProgramParameter { program, pname: LINK_STATUS }),
        ] + if status_failed(replies, 4) {
            seq![PlannedView::Call(CallView::GetProgramInfoLog { program })]
        } else {
            Seq::empty()
        }
    }
}

/// What linking ends in: the program, or the linker's log.
pub open spec fn link_outcome(replies: Seq<ReplyView>) -> Result<Handle, Seq<char>> {
    if creation_failed(replies, 0) {
        Err("Unable to create shader object"@)
    } else if status_failed(replies, 4) {
        Err(log_at(replies, 5, "Unknown error creating program object"@))
    } else {
        Ok(object_at(replies, 0))
    }
}

/// Appends the plan of compiling one stage to `plan`, and says what the
/// compiling ends in.
pub fn plan_compile(plan: &mut Vec<Planned>, kind: u32, source: &str, replies: &[Reply]) -> (outcome:
    Result<Handle, String>)
    ensures
        plan_view(final(plan)@) == plan_view(old(plan)@) + compile_plan(
            kind,
            source@,
            replies_view(replies@),
        ),
        outcome_view(outcome) == compile_outcome(replies_view(replies@)),
{
    let ghost expected = compile_plan(kind, source@, replies_view(replies@));
    let shader = object(replies, 0);
    plan_call(plan, Call::CreateShader { kind });
    if no_object(replies, 0) {
        assert(plan_view(plan@) =~= plan_view(old(plan)@) + expected);
        return Err(String::from_str("Unable to create shader object"));
    }
    plan_call(plan, Call::ShaderSource { shader, source: String::from_str(source) });
    plan_call(plan, Call::CompileShader { shader });
    plan_call(plan, Call::GetShaderParameter { shader, pname: COMPILE_STATUS });
    if no_success(replies, 3) {
        plan_call(plan, Call::GetShaderInfoLog { shader });
        assert(plan_view(plan@) =~= plan_view(old(plan)@) + expected);
        return Err(info_log(replies, 4, "Unknown error creating shader"));
    }
    assert(plan_view(plan@) =~= plan_view(old(plan)@) + expected);
    Ok(shader)
}

/// Appends the plan of linking two shaders to `plan`, and says what the
/// linking ends in.
pub fn plan_link(
    plan: &mut Vec<Planned>,
    vert_shader: Handle,
    frag_shader: Handle,
    replies: &[Reply],
) -> (outcome: Result<Handle, String>)
    ensures
        plan_view(final(plan)@) == plan_view(old(plan)@) + link_plan(
            vert_shader,
            frag_shader,
            replies_view(replies@),
        ),
        outcome_view(outcome) == link_outcome(replies_view(replies@)),
{
    let ghost expected = link_plan(vert_shader, frag_shader, replies_view(replies@));
    let program = object(replies, 0);
    plan_call(plan, Call::CreateProgram);
    if no_object(replies, 0) {
        assert(plan_view(plan@) =~= plan_view(old(plan)@) + expected);
        return Err(String::from_str("Unable to create shader object"));
    }
    plan_call(plan, Call::AttachShader { program, shader: vert_shader });
    plan_call(plan, Call::AttachShader { program, shader: frag_shader });
    plan_call(plan, Call::LinkProgram { program });
    plan_call(plan, Call::GetProgramParameter { program, pname: LINK_STATUS });
    if no_success(replies, 4) {
        plan_call(plan, Call::GetProgramInfoLog { program });
        assert(plan_view(plan@) =~= plan_view(old(plan)@) + expected);
        return Err(info_log(replies, 5, "Unknown error creating program object"));
    }
    assert(plan_view(plan@) =~= plan_view(old(plan)@) + expected);
    Ok(program)
}

/// The step of a build: that of its plan, and at the plan's end what the
/// build ended in.
pub fn conclude(step: Step<()>, outcome: Result<Handle, String>) -> (result: Step<Handle>)
    ensures
        result@ == concluded(step@, outcome_view(outcome)),
{
    match step {
        Step::Call(call) => Step::Call(call),
        Step::Done(_) => match outcome {
            Ok(handle) => Step::Done(handle),
            Err(message) => Step::Rejected(message),
        },
        Step::Rejected(message) => Step::Rejected(message),
        Step::Failed(error) => Step::Failed(error),
    }
}

/// Compiles `source` as a shader of the kind `shader_type`.
///
/// The build is rejected with the compiler's log where the source does not
/// compile, and with a text of its own where the context creates no shader
/// or keeps no log.
pub fn compile_shader(context: &Context, shader_type: u32, source: &str) -> (step: Step<Handle>)
    ensures
        step@ == concluded(
            next_step(compile_plan(shader_type, source@, context.answers()), context.answers()),
            compile_outcome(context.answers()),
        ),
{
    let replies = context.replies.as_slice();
    let mut plan: Vec<Planned> = Vec::new();
    let outcome = plan_compile(&mut plan, shader_type, source, replies);
    assert(plan_view(plan@) =~= compile_plan(shader_type, source@, context.answers()));
    conclude(run(plan, replies), outcome)
}

/// Links a vertex shader and a fragment shader into a program.
///
/// The build is rejected with the linker's log where the two do not link,
/// and with a text of its own where the context creates no program or keeps
/// no log.
pub fn link_program(context: &Context, vert_shader: Handle, frag_shader: Handle) -> (step: Step<
    Handle,
>)
    ensures
        step@ == concluded(
            next_step(link_plan(vert_shader, frag_shader, context.answers()), context.answers()),
            link_outcome(context.answers()),
        ),
{
    let replies = context.replies.as_slice();
    let mut plan: Vec<Planned> = Vec::new();
    let outcome = plan_link(&mut plan, vert_shader, frag_shader, replies);
    assert(plan_view(plan@) =~= link_plan(vert_shader, frag_shader, context.answers()));
    conclude(run(plan, replies), outcome)
}

} // verus!
