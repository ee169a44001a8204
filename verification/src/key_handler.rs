//! What a key press does to the stage.

use vstd::prelude::*;
use crate::context::after;
use crate::context::next_step;
use crate::context::plan_call;
use crate::context::plan_view;
use crate::context::rest;
use crate::context::run;
use crate::context::Call;
use crate::context::CallView;
use crate::context::Context;
use crate::context::Planned;
use crate::context::PlannedView;
use crate::context::ReplyView;
use crate::context::Step;
use crate::marshal::ByteOrder;
use crate::stage::init_plan;
use crate::stage::plan_init;
use crate::stage::plan_stage;
use crate::stage::stage_outcome;
use crate::stage::stage_plan;

verus! {

/// Answers key presses; holds the sources of the stage's two shaders.
#[derive(Clone, Debug, PartialEq, Eq)]
pub struct KeyHandler {
    pub vertex_source: String,
    pub fragment_source: String,
}

/// The plan of answering a key press.  The key W builds the stage's program
/// and, if that is built, makes it current and draws the stage; if it is
/// not, the user is told why.  Any other key tells the user which key to
/// press.
pub open spec fn handle_plan(
    order: ByteOrder,
    code: Seq<char>,
    vertex_source: Seq<char>,
    fragment_source: Seq<char>,
    replies: Seq<ReplyView>,
) -> Seq<PlannedView> {
    if code == "KeyW"@ {
        let building = stage_plan(vertex_source, fragment_source, replies);
        building + match stage_outcome(vertex_source, fragment_source, replies) {
            Ok(program) => seq![PlannedView::Call(CallView::UseProgram { program })] + init_plan(
                order,
                program,
                after(replies, building.len() + 1),
            ),
            Err(error) => seq![
                PlannedView::Call(CallView::Alert { message: "Error loading stage: "@ + error }),
            ],
        }
    } else {
        seq![PlannedView::Call(CallView::Alert { message: "must press w"@ })]
    }
}

impl KeyHandler {
    /// A handler that builds the stage's program from these two sources.
    pub fn new(vertex_source: String, fragment_source: String) -> (handler: KeyHandler)
        ensures
            handler.vertex_source@ == vertex_source@,
            handler.fragment_source@ == fragment_source@,
    {
        KeyHandler { vertex_source, fragment_source }
    }

    /// Answers the press of the key with the given code.
    pub fn handle(&self, code: &str, context: &Context) -> (step: Step<()>)
        ensures
            step@ == next_step(
                handle_plan(
                    context.byte_order,
                    code@,
                    self.vertex_source@,
                    self.fragment_source@,
                    context.answers(),
                ),
                context.answers(),
            ),
    {
        let replies = context.replies.as_slice();
        let ghost expected = handle_plan(
            context.byte_order,
            code@,
            self.vertex_source@,
            self.fragment_source@,
            context.answers(),
        );
        let mut plan: Vec<Planned> = Vec::new();
        if String::from_str(code) == String::from_str("KeyW") {
            match plan_stage(
                &mut plan,
                self.vertex_source.as_str(),
                self.fragment_source.as_str(),
                replies,
            ) {
                Ok(program) => {
                    plan_call(&mut plan, Call::UseProgram { program });
                    let built = plan.len();
                    plan_init(&mut plan, context.byte_order, program, rest(replies, built));
                },
                Err(error) => {
                    let message = String::from_str("Error loading stage: ").concat(
                        error.as_str(),
                    );
                    plan_call(&mut plan, Call::Alert { message });
                },
            }
        } else {
            plan_call(&mut plan, Call::Alert { message: String::from_str("must press w") });
        }
        assert(plan_view(plan@) =~= expected);
        run(plan, replies)
    }
}

} // verus!
