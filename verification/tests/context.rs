use webgl::context::block_index;
use webgl::context::info_log;
use webgl::context::judge;
use webgl::context::location;
use webgl::context::no_object;
use webgl::context::no_success;
use webgl::context::object;
use webgl::context::plan_call;
use webgl::context::plan_entry;
use webgl::context::rest;
use webgl::context::run;
use webgl::context::Call;
use webgl::context::Context;
use webgl::context::GlError;
use webgl::context::Planned;
use webgl::context::Reply;
use webgl::context::Step;
use webgl::context::INVALID_INDEX;
use webgl::marshal::ByteOrder;
use webgl::marshal::MarshalError;

fn every_reply() -> Vec<Reply> {
    vec![
        Reply::Unit,
        Reply::Object(Some(4)),
        Reply::Object(None),
        Reply::Location(2),
        Reply::Location(-1),
        Reply::BlockIndex(1),
        Reply::BlockIndex(INVALID_INDEX),
        Reply::Parameter(Some(true)),
        Reply::Parameter(Some(false)),
        Reply::Parameter(None),
        Reply::InfoLog(Some(String::from("log"))),
        Reply::InfoLog(None),
    ]
}

fn verdicts(call: &Call) -> Vec<Option<GlError>> {
    every_reply().iter().map(|reply| judge(call, reply)).collect()
}

fn wrong() -> Option<GlError> {
    Some(GlError::UnexpectedReply)
}

#[test]
fn a_new_context_has_no_answers() {
    let context = Context::new(ByteOrder::BigEndian);
    assert_eq!(context.byte_order, ByteOrder::BigEndian);
    assert!(context.replies.is_empty());
    assert!(Context::native().replies.is_empty());
    assert_eq!(Context::native().byte_order, ByteOrder::native());
}

#[test]
fn answers_are_kept_in_order() {
    let mut context = Context::new(ByteOrder::LittleEndian);
    context.answer(Reply::Object(Some(1)));
    context.answer(Reply::Unit);
    context.answer(Reply::Location(5));
    assert_eq!(context.byte_order, ByteOrder::LittleEndian);
    assert_eq!(context.replies, vec![Reply::Object(Some(1)), Reply::Unit, Reply::Location(5)]);
}

#[test]
fn the_rest_starts_after_the_count() {
    let replies = every_reply();
    assert_eq!(rest(&replies, 0), &replies[..]);
    assert_eq!(rest(&replies, 3), &replies[3..]);
    assert_eq!(rest(&replies, 12), &replies[12..]);
    assert!(rest(&replies, 13).is_empty());
    assert!(rest(&replies, usize::MAX).is_empty());
}

#[test]
fn answers_are_read_by_position() {
    let replies = every_reply();
    assert_eq!(object(&replies, 1), 4);
    assert_eq!(object(&replies, 2), 0);
    assert_eq!(object(&replies, 0), 0);
    assert_eq!(object(&replies, 99), 0);
    assert_eq!(location(&replies, 3), 2);
    assert_eq!(location(&replies, 4), 0);
    assert_eq!(location(&replies, 1), 0);
    assert_eq!(location(&replies, 99), 0);
    assert_eq!(block_index(&replies, 5), 1);
    assert_eq!(block_index(&replies, 6), INVALID_INDEX);
    assert_eq!(block_index(&replies, 0), 0);
    assert_eq!(block_index(&replies, 99), 0);
    assert!(no_object(&replies, 2));
    assert!(!no_object(&replies, 1));
    assert!(!no_object(&replies, 0));
    assert!(!no_object(&replies, 99));
    assert!(!no_success(&replies, 7));
    assert!(no_success(&replies, 8));
    assert!(no_success(&replies, 9));
    assert!(no_success(&replies, 0));
    assert!(!no_success(&replies, 99));
    assert_eq!(info_log(&replies, 10, "none"), "log");
    assert_eq!(info_log(&replies, 11, "none"), "none");
    assert_eq!(info_log(&replies, 0, "none"), "none");
    assert_eq!(info_log(&replies, 99, "none"), "none");
}

#[test]
fn a_created_buffer_must_be_there() {
    let ok = None;
    assert_eq!(
        verdicts(&Call::CreateBuffer),
        vec![
            wrong(),
            ok,
            Some(GlError::BufferAllocation),
            wrong(),
            wrong(),
            wrong(),
            wrong(),
            wrong(),
            wrong(),
            wrong(),
            wrong(),
            wrong()
        ]
    );
}

#[test]
fn a_created_vertex_array_must_be_there() {
    let verdicts = verdicts(&Call::CreateVertexArray);
    assert_eq!(verdicts[1], None);
    assert_eq!(verdicts[2], Some(GlError::VertexArrayAllocation));
    for at in [0, 3, 4, 5, 6, 7, 8, 9, 10, 11] {
        assert_eq!(verdicts[at], wrong());
    }
}

#[test]
fn a_shader_or_program_may_be_missing() {
    for call in [Call::CreateShader { kind: 35633 }, Call::CreateProgram] {
        let verdicts = verdicts(&call);
        assert_eq!(verdicts[1], None);
        assert_eq!(verdicts[2], None);
        for at in [0, 3, 4, 5, 6, 7, 8, 9, 10, 11] {
            assert_eq!(verdicts[at], wrong());
        }
    }
}

#[test]
fn a_lookup_must_find_the_name() {
    let verdicts_of_attribute =
        verdicts(&Call::GetAttribLocation { program: 1, name: String::from("position") });
    assert_eq!(verdicts_of_attribute[3], None);
    assert_eq!(verdicts_of_attribute[4], Some(GlError::AttributeNotFound));
    assert_eq!(
        judge(
            &Call::GetAttribLocation { program: 1, name: String::from("position") },
            &Reply::Location(0)
        ),
        None
    );
    assert_eq!(
        judge(
            &Call::GetAttribLocation { program: 1, name: String::from("position") },
            &Reply::Location(i32::MIN)
        ),
        Some(GlError::AttributeNotFound)
    );
    let verdicts_of_block =
        verdicts(&Call::GetUniformBlockIndex { program: 1, name: String::from("u_camera") });
    assert_eq!(verdicts_of_block[5], None);
    assert_eq!(verdicts_of_block[6], Some(GlError::UniformBlockNotFound));
    for at in [0, 1, 2, 7, 8, 9, 10, 11] {
        assert_eq!(verdicts_of_attribute[at], wrong());
        assert_eq!(verdicts_of_block[at], wrong());
    }
    assert_eq!(verdicts_of_attribute[5], wrong());
    assert_eq!(verdicts_of_block[3], wrong());
}

#[test]
fn a_status_or_a_log_may_be_anything_of_its_kind() {
    for call in [
        Call::GetShaderParameter { shader: 1, pname: 35713 },
        Call::GetProgramParameter { program: 1, pname: 35714 },
    ] {
        let verdicts = verdicts(&call);
        for at in [7, 8, 9] {
            assert_eq!(verdicts[at], None);
        }
        for at in [0, 1, 2, 3, 4, 5, 6, 10, 11] {
            assert_eq!(verdicts[at], wrong());
        }
    }
    for call in [Call::GetShaderInfoLog { shader: 1 }, Call::GetProgramInfoLog { program: 1 }] {
        let verdicts = verdicts(&call);
        for at in [10, 11] {
            assert_eq!(verdicts[at], None);
        }
        for at in [0, 1, 2, 3, 4, 5, 6, 7, 8, 9] {
            assert_eq!(verdicts[at], wrong());
        }
    }
}

#[test]
fn every_other_call_returns_nothing() {
    let calls = vec![
        Call::ClearColor { red: 0, green: 0, blue: 0, alpha: 0 },
        Call::Clear { mask: 16384 },
        Call::BindBuffer { target: 34962, buffer: 1 },
        Call::BindVertexArray { vertex_array: 1 },
        Call::VertexAttribPointer {
            index: 0,
            size: 2,
            datatype: 5126,
            normalized: false,
            stride: 0,
            offset: 0,
        },
        Call::EnableVertexAttribArray { index: 0 },
        Call::UniformBlockBinding { program: 1, block_index: 0, binding: 3 },
        Call::BindBufferBase { target: 35345, index: 3, buffer: 1 },
        Call::BufferData { target: 34962, data: vec![1, 2], usage: 35044 },
        Call::DrawElements { mode: 5, count: 4, datatype: 5125, offset: 0 },
        Call::ShaderSource { shader: 1, source: String::from("x") },
        Call::CompileShader { shader: 1 },
        Call::AttachShader { program: 1, shader: 2 },
        Call::LinkProgram { program: 1 },
        Call::UseProgram { program: 1 },
        Call::Alert { message: String::from("x") },
    ];
    for call in calls {
        let verdicts = verdicts(&call);
        assert_eq!(verdicts[0], None);
        for at in 1..12 {
            assert_eq!(verdicts[at], wrong());
        }
    }
}

#[test]
fn an_empty_plan_is_complete() {
    assert_eq!(run(vec![], &[]), Step::Done(()));
    assert_eq!(run(vec![], &[Reply::Unit]), Step::Done(()));
}

#[test]
fn a_plan_is_walked_call_by_call() {
    let plan = vec![
        Planned::Call(Call::CreateBuffer),
        Planned::Call(Call::BindBuffer { target: 1, buffer: 2 }),
        Planned::Call(Call::Clear { mask: 3 }),
    ];
    assert_eq!(run(plan.clone(), &[]), Step::Call(Call::CreateBuffer));
    assert_eq!(
        run(plan.clone(), &[Reply::Object(Some(2))]),
        Step::Call(Call::BindBuffer { target: 1, buffer: 2 })
    );
    assert_eq!(
        run(plan.clone(), &[Reply::Object(Some(2)), Reply::Unit]),
        Step::Call(Call::Clear { mask: 3 })
    );
    assert_eq!(
        run(plan.clone(), &[Reply::Object(Some(2)), Reply::Unit, Reply::Unit]),
        Step::Done(())
    );
    assert_eq!(
        run(plan, &[Reply::Object(Some(2)), Reply::Unit, Reply::Unit, Reply::Location(-1)]),
        Step::Done(())
    );
}

#[test]
fn a_plan_ends_at_the_first_fatal_answer() {
    let plan = vec![
        Planned::Call(Call::CreateBuffer),
        Planned::Call(Call::CreateVertexArray),
        Planned::Call(Call::Clear { mask: 3 }),
    ];
    assert_eq!(
        run(plan.clone(), &[Reply::Object(None), Reply::Object(None)]),
        Step::Failed(GlError::BufferAllocation)
    );
    assert_eq!(
        run(plan.clone(), &[Reply::Object(Some(1)), Reply::Object(None), Reply::Location(1)]),
        Step::Failed(GlError::VertexArrayAllocation)
    );
    assert_eq!(
        run(plan, &[Reply::Object(Some(1)), Reply::Object(Some(2)), Reply::Location(1)]),
        Step::Failed(GlError::UnexpectedReply)
    );
}

#[test]
fn a_plan_ends_at_an_entry_that_cannot_be_made() {
    let plan = vec![
        Planned::Call(Call::CreateBuffer),
        Planned::Fail(GlError::Marshal(MarshalError::WidthMismatch)),
        Planned::Call(Call::Clear { mask: 3 }),
    ];
    assert_eq!(run(plan.clone(), &[]), Step::Call(Call::CreateBuffer));
    assert_eq!(
        run(plan.clone(), &[Reply::Object(Some(1))]),
        Step::Failed(GlError::Marshal(MarshalError::WidthMismatch))
    );
    assert_eq!(
        run(plan.clone(), &[Reply::Object(Some(1)), Reply::Unit, Reply::Unit]),
        Step::Failed(GlError::Marshal(MarshalError::WidthMismatch))
    );
    assert_eq!(run(plan, &[Reply::Object(None)]), Step::Failed(GlError::BufferAllocation));
    assert_eq!(
        run(vec![Planned::Fail(GlError::ComponentCountOutOfRange)], &[]),
        Step::Failed(GlError::ComponentCountOutOfRange)
    );
}

#[test]
fn entries_are_appended_at_the_end() {
    let mut plan = vec![Planned::Call(Call::CreateBuffer)];
    plan_call(&mut plan, Call::Clear { mask: 1 });
    plan_entry(&mut plan, Planned::Fail(GlError::UnexpectedReply));
    assert_eq!(
        plan,
        vec![
            Planned::Call(Call::CreateBuffer),
            Planned::Call(Call::Clear { mask: 1 }),
            Planned::Fail(GlError::UnexpectedReply),
        ]
    );
}

#[test]
fn every_error_says_what_went_wrong() {
    assert_eq!(GlError::BufferAllocation.message(), "Failed to create buffer");
    assert_eq!(
        GlError::VertexArrayAllocation.message(),
        "Could not create vertex array object"
    );
    let all = [
        GlError::BufferAllocation,
        GlError::VertexArrayAllocation,
        GlError::AttributeNotFound,
        GlError::UniformBlockNotFound,
        GlError::Marshal(MarshalError::UnsupportedDatatype),
        GlError::Marshal(MarshalError::WidthMismatch),
        GlError::ComponentCountOutOfRange,
        GlError::BindingIndexOutOfRange,
        GlError::UnexpectedReply,
    ];
    for (at, error) in all.iter().enumerate() {
        assert!(!error.message().is_empty());
        for other in all.iter().skip(at + 1) {
            assert_ne!(error.message(), other.message());
        }
    }
}
