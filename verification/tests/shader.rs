use webgl::context::Call;
use webgl::context::Context;
use webgl::context::GlError;
use webgl::context::Reply;
use webgl::context::Step;
use webgl::key_handler::KeyHandler;
use webgl::marshal::ByteOrder;
use webgl::shader::compile_shader;
use webgl::shader::link_program;
use webgl::stage::stage_program;

const VERTEX_SHADER: u32 = 35633;
const FRAGMENT_SHADER: u32 = 35632;
const COMPILE_STATUS: u32 = 35713;
const LINK_STATUS: u32 = 35714;

/// Runs an operation against answers given beforehand, and gives back the
/// calls that were made and how it ended.  An operation that asks for more
/// than was given is cut off there and reported as still calling.
fn replay<T>(operation: &dyn Fn(&Context) -> Step<T>, answers: Vec<Reply>) -> (Vec<Call>, Step<T>) {
    let mut context = Context::new(ByteOrder::LittleEndian);
    let mut calls = Vec::new();
    let mut answers = answers.into_iter();
    loop {
        match operation(&context) {
            Step::Call(call) => {
                calls.push(call.clone());
                match answers.next() {
                    Some(reply) => context.answer(reply),
                    None => return (calls, Step::Call(call)),
                }
            }
            end => return (calls, end),
        }
    }
}

fn compiled(shader: u32) -> Vec<Reply> {
    vec![Reply::Object(Some(shader)), Reply::Unit, Reply::Unit, Reply::Parameter(Some(true))]
}

fn not_compiled(shader: u32, log: Option<&str>) -> Vec<Reply> {
    vec![
        Reply::Object(Some(shader)),
        Reply::Unit,
        Reply::Unit,
        Reply::Parameter(Some(false)),
        Reply::InfoLog(log.map(String::from)),
    ]
}

fn linked(program: u32) -> Vec<Reply> {
    vec![
        Reply::Object(Some(program)),
        Reply::Unit,
        Reply::Unit,
        Reply::Unit,
        Reply::Parameter(Some(true)),
    ]
}

fn compiling(kind: u32, shader: u32, source: &str) -> Vec<Call> {
    vec![
        Call::CreateShader { kind },
        Call::ShaderSource { shader, source: String::from(source) },
        Call::CompileShader { shader },
        Call::GetShaderParameter { shader, pname: COMPILE_STATUS },
    ]
}

fn linking(program: u32, vert_shader: u32, frag_shader: u32) -> Vec<Call> {
    vec![
        Call::CreateProgram,
        Call::AttachShader { program, shader: vert_shader },
        Call::AttachShader { program, shader: frag_shader },
        Call::LinkProgram { program },
        Call::GetProgramParameter { program, pname: LINK_STATUS },
    ]
}

fn all(parts: Vec<Vec<Reply>>) -> Vec<Reply> {
    parts.into_iter().flatten().collect()
}

#[test]
fn a_shader_that_compiles_is_handed_back() {
    let (calls, end) = replay(
        &|context| compile_shader(context, VERTEX_SHADER, "void main() {}"),
        compiled(3),
    );
    assert_eq!(calls, compiling(VERTEX_SHADER, 3, "void main() {}"));
    assert_eq!(end, Step::Done(3));
}

#[test]
fn a_shader_that_does_not_compile_is_rejected_with_the_log() {
    let (calls, end) = replay(
        &|context| compile_shader(context, FRAGMENT_SHADER, "nonsense"),
        not_compiled(4, Some("ERROR: 0:1: syntax error")),
    );
    let mut expected = compiling(FRAGMENT_SHADER, 4, "nonsense");
    expected.push(Call::GetShaderInfoLog { shader: 4 });
    assert_eq!(calls, expected);
    assert_eq!(end, Step::Rejected(String::from("ERROR: 0:1: syntax error")));
}

#[test]
fn a_shader_without_a_log_is_rejected_with_a_text_of_its_own() {
    let (_, end) = replay(
        &|context| compile_shader(context, FRAGMENT_SHADER, "nonsense"),
        not_compiled(4, None),
    );
    assert_eq!(end, Step::Rejected(String::from("Unknown error creating shader")));
}

#[test]
fn a_status_that_is_no_boolean_counts_as_failure() {
    let (calls, end) = replay(
        &|context| compile_shader(context, VERTEX_SHADER, "x"),
        vec![
            Reply::Object(Some(1)),
            Reply::Unit,
            Reply::Unit,
            Reply::Parameter(None),
            Reply::InfoLog(Some(String::from("odd"))),
        ],
    );
    assert_eq!(calls.len(), 5);
    assert_eq!(end, Step::Rejected(String::from("odd")));
}

#[test]
fn a_shader_that_cannot_be_created_is_rejected() {
    let (calls, end) =
        replay(&|context| compile_shader(context, VERTEX_SHADER, "x"), vec![Reply::Object(None)]);
    assert_eq!(calls, vec![Call::CreateShader { kind: VERTEX_SHADER }]);
    assert_eq!(end, Step::Rejected(String::from("Unable to create shader object")));
}

#[test]
fn compiling_fails_on_an_answer_of_the_wrong_kind() {
    let compile = |context: &Context| compile_shader(context, VERTEX_SHADER, "x");
    let (_, end) = replay(&compile, vec![Reply::Unit]);
    assert_eq!(end, Step::Failed(GlError::UnexpectedReply));
    let (_, end) = replay(
        &compile,
        vec![Reply::Object(Some(1)), Reply::Unit, Reply::Unit, Reply::InfoLog(None)],
    );
    assert_eq!(end, Step::Failed(GlError::UnexpectedReply));
    let (_, end) = replay(
        &compile,
        vec![
            Reply::Object(Some(1)),
            Reply::Unit,
            Reply::Unit,
            Reply::Parameter(Some(false)),
            Reply::Unit,
        ],
    );
    assert_eq!(end, Step::Failed(GlError::UnexpectedReply));
}

#[test]
fn a_program_that_links_is_handed_back() {
    let (calls, end) = replay(&|context| link_program(context, 1, 2), linked(9));
    assert_eq!(calls, linking(9, 1, 2));
    assert_eq!(end, Step::Done(9));
}

#[test]
fn a_program_that_does_not_link_is_rejected_with_the_log() {
    let mut answers = linked(9);
    answers[4] = Reply::Parameter(Some(false));
    answers.push(Reply::InfoLog(Some(String::from("varying not written"))));
    let (calls, end) = replay(&|context| link_program(context, 1, 2), answers);
    let mut expected = linking(9, 1, 2);
    expected.push(Call::GetProgramInfoLog { program: 9 });
    assert_eq!(calls, expected);
    assert_eq!(end, Step::Rejected(String::from("varying not written")));
}

#[test]
fn a_program_without_a_log_is_rejected_with_a_text_of_its_own() {
    let mut answers = linked(9);
    answers[4] = Reply::Parameter(None);
    answers.push(Reply::InfoLog(None));
    let (_, end) = replay(&|context| link_program(context, 1, 2), answers);
    assert_eq!(end, Step::Rejected(String::from("Unknown error creating program object")));
}

#[test]
fn a_program_that_cannot_be_created_is_rejected() {
    let (calls, end) = replay(&|context| link_program(context, 1, 2), vec![Reply::Object(None)]);
    assert_eq!(calls, vec![Call::CreateProgram]);
    assert_eq!(end, Step::Rejected(String::from("Unable to create shader object")));
}

#[test]
fn the_stage_program_is_built_from_both_shaders() {
    let (calls, end) = replay(
        &|context| stage_program(context, "vertex source", "fragment source"),
        all(vec![compiled(1), compiled(2), linked(3)]),
    );
    let mut expected = compiling(VERTEX_SHADER, 1, "vertex source");
    expected.extend(compiling(FRAGMENT_SHADER, 2, "fragment source"));
    expected.extend(linking(3, 1, 2));
    assert_eq!(calls, expected);
    assert_eq!(end, Step::Done(3));
}

#[test]
fn a_vertex_shader_error_is_labelled() {
    let (calls, end) = replay(
        &|context| stage_program(context, "bad", "good"),
        all(vec![not_compiled(1, Some("line 3")), compiled(2)]),
    );
    assert_eq!(end, Step::Rejected(String::from("Vertex shader error\nline 3")));
    let mut expected = compiling(VERTEX_SHADER, 1, "bad");
    expected.push(Call::GetShaderInfoLog { shader: 1 });
    expected.extend(compiling(FRAGMENT_SHADER, 2, "good"));
    assert_eq!(calls, expected);
}

#[test]
fn a_fragment_shader_error_is_labelled() {
    let (calls, end) = replay(
        &|context| stage_program(context, "good", "bad"),
        all(vec![compiled(1), not_compiled(2, Some("line 8"))]),
    );
    assert_eq!(end, Step::Rejected(String::from("Fragment shader error\nline 8")));
    assert_eq!(calls.len(), 9);
    assert!(!calls.contains(&Call::CreateProgram));
}

#[test]
fn the_vertex_shader_error_comes_first() {
    let (calls, end) = replay(
        &|context| stage_program(context, "bad", "worse"),
        all(vec![not_compiled(1, Some("first")), not_compiled(2, Some("second"))]),
    );
    assert_eq!(end, Step::Rejected(String::from("Vertex shader error\nfirst")));
    assert_eq!(calls.len(), 10);
    assert!(!calls.contains(&Call::CreateProgram));
}

#[test]
fn a_shader_that_cannot_be_created_is_labelled_too() {
    let (calls, end) = replay(
        &|context| stage_program(context, "a", "b"),
        all(vec![vec![Reply::Object(None)], compiled(2)]),
    );
    assert_eq!(
        end,
        Step::Rejected(String::from("Vertex shader error\nUnable to create shader object"))
    );
    let mut expected = vec![Call::CreateShader { kind: VERTEX_SHADER }];
    expected.extend(compiling(FRAGMENT_SHADER, 2, "b"));
    assert_eq!(calls, expected);

    let (_, end) = replay(
        &|context| stage_program(context, "a", "b"),
        all(vec![compiled(1), vec![Reply::Object(None)]]),
    );
    assert_eq!(
        end,
        Step::Rejected(String::from("Fragment shader error\nUnable to create shader object"))
    );
}

#[test]
fn a_link_error_is_not_labelled() {
    let mut link = linked(3);
    link[4] = Reply::Parameter(Some(false));
    link.push(Reply::InfoLog(Some(String::from("no main"))));
    let (calls, end) = replay(
        &|context| stage_program(context, "a", "b"),
        all(vec![compiled(1), compiled(2), link]),
    );
    assert_eq!(end, Step::Rejected(String::from("no main")));
    assert_eq!(calls.len(), 14);
}

#[test]
fn the_key_w_builds_the_program_and_draws_the_stage() {
    let handler = KeyHandler::new(String::from("vs"), String::from("fs"));
    let mut answers = all(vec![compiled(1), compiled(2), linked(3)]);
    answers.push(Reply::Unit);
    let (calls, _) = replay(&|context| handler.handle("KeyW", context), answers);
    assert_eq!(calls.len(), 15);
    assert_eq!(calls[0], Call::CreateShader { kind: VERTEX_SHADER });
    assert_eq!(calls[1], Call::ShaderSource { shader: 1, source: String::from("vs") });
    assert_eq!(calls[5], Call::ShaderSource { shader: 2, source: String::from("fs") });
    assert_eq!(calls[13], Call::UseProgram { program: 3 });
    assert_eq!(
        calls[14],
        Call::ClearColor { red: 0, green: 0, blue: 0, alpha: 1.0f32.to_bits() }
    );
}

#[test]
fn the_key_w_draws_the_stage_to_the_end() {
    let handler = KeyHandler::new(String::from("vs"), String::from("fs"));
    let mut answers = all(vec![compiled(1), compiled(2), linked(3)]);
    answers.push(Reply::Unit);
    answers.extend(vec![Reply::Unit, Reply::Unit]);
    for first in [10u32, 20] {
        answers.extend(vec![
            Reply::Object(Some(first)),
            Reply::Unit,
            Reply::Object(Some(first + 1)),
            Reply::Unit,
            Reply::Location(0),
            Reply::Unit,
            Reply::Unit,
            Reply::Unit,
            Reply::Object(Some(first + 2)),
            Reply::Unit,
            Reply::Unit,
            Reply::Object(Some(first + 3)),
            Reply::Unit,
            Reply::BlockIndex(0),
            Reply::Unit,
            Reply::Unit,
            Reply::Unit,
            Reply::Object(Some(first + 4)),
            Reply::Unit,
            Reply::BlockIndex(1),
            Reply::Unit,
            Reply::Unit,
            Reply::Unit,
            Reply::Unit,
        ]);
    }
    let (calls, end) = replay(&|context| handler.handle("KeyW", context), answers);
    assert_eq!(end, Step::Done(()));
    assert_eq!(calls.len(), 14 + 50);
    assert_eq!(calls[14 + 5], Call::BindVertexArray { vertex_array: 11 });
    assert_eq!(
        calls[14 + 6],
        Call::GetAttribLocation { program: 3, name: String::from("position") }
    );
    assert!(matches!(calls[14 + 25], Call::DrawElements { count: 4, .. }));
    assert!(matches!(calls[14 + 49], Call::DrawElements { count: 4, .. }));
}

#[test]
fn the_key_w_reports_a_program_that_is_not_built() {
    let handler = KeyHandler::new(String::from("vs"), String::from("fs"));
    let mut answers = all(vec![compiled(1), not_compiled(2, Some("oops"))]);
    answers.push(Reply::Unit);
    let (calls, end) = replay(&|context| handler.handle("KeyW", context), answers);
    assert_eq!(end, Step::Done(()));
    assert_eq!(calls.len(), 10);
    assert_eq!(
        calls[9],
        Call::Alert {
            message: String::from("Error loading stage: Fragment shader error\noops")
        }
    );
}

#[test]
fn any_other_key_asks_for_w() {
    let handler = KeyHandler::new(String::from("vs"), String::from("fs"));
    for code in ["KeyA", "keyw", "KeyW ", "", "Enter"] {
        let (calls, end) = replay(&|context| handler.handle(code, context), vec![Reply::Unit]);
        assert_eq!(calls, vec![Call::Alert { message: String::from("must press w") }]);
        assert_eq!(end, Step::Done(()));
    }
}

#[test]
fn the_handler_keeps_its_sources() {
    let handler = KeyHandler::new(String::from("vs"), String::from("fs"));
    assert_eq!(handler.vertex_source, "vs");
    assert_eq!(handler.fragment_source, "fs");
}
