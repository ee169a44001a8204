//! The exchange with the rendering context.
//!
//! An operation of this crate is laid out as a plan: the calls it makes on the
//! context, in order.  The host performs one call at a time and records what
//! the context answered; from the answers so far the crate says which call
//! comes next, or that the operation has ended.  An object that the context
//! creates is known here by the handle under which the host keeps it.

use vstd::prelude::*;
use crate::marshal::ByteOrder;
use crate::marshal::FloatBits;
use crate::marshal::MarshalError;

verus! {

/// The handle of an object that the context created.
pub type Handle = u32;

/// The block index that the context reports for a uniform block it does not
/// know.
pub const INVALID_INDEX: u32 = 0xFFFF_FFFF;

/// A call on the rendering context, or on the page around it.
#[derive(Clone, Debug, PartialEq, Eq)]
pub enum Call {
    ClearColor { red: FloatBits, green: FloatBits, blue: FloatBits, alpha: FloatBits },
    Clear { mask: u32 },
    CreateBuffer,
    BindBuffer { target: u32, buffer: Handle },
    CreateVertexArray,
    BindVertexArray { vertex_array: Handle },
    GetAttribLocation { program: Handle, name: String },
    VertexAttribPointer {
        index: u32,
        size: i32,
        datatype: u32,
        normalized: bool,
        stride: i32,
        offset: i32,
    },
    EnableVertexAttribArray { index: u32 },
    GetUniformBlockIndex { program: Handle, name: String },
    UniformBlockBinding { program: Handle, block_index: u32, binding: u32 },
    BindBufferBase { target: u32, index: u32, buffer: Handle },
    BufferData { target: u32, data: Vec<u8>, usage: u32 },
    DrawElements { mode: u32, count: i32, datatype: u32, offset: i32 },
    CreateShader { kind: u32 },
    ShaderSource { shader: Handle, source: String },
    CompileShader { shader: Handle },
    GetShaderParameter { shader: Handle, pname: u32 },
    GetShaderInfoLog { shader: Handle },
    CreateProgram,
    AttachShader { program: Handle, shader: Handle },
    LinkProgram { program: Handle },
    GetProgramParameter { program: Handle, pname: u32 },
    GetProgramInfoLog { program: Handle },
    UseProgram { program: Handle },
    /// Show a message to the user.
    Alert { message: String },
}

/// A [`Call`] with its texts and bytes as sequences.
pub enum CallView {
    ClearColor { red: FloatBits, green: FloatBits, blue: FloatBits, alpha: FloatBits },
    Clear { mask: u32 },
    CreateBuffer,
    BindBuffer { target: u32, buffer: Handle },
    CreateVertexArray,
    BindVertexArray { vertex_array: Handle },
    GetAttribLocation { program: Handle, name: Seq<char> },
    VertexAttribPointer {
        index: u32,
        size: i32,
        datatype: u32,
        normalized: bool,
        stride: i32,
        offset: i32,
    },
    EnableVertexAttribArray { index: u32 },
    GetUniformBlockIndex { program: Handle, name: Seq<char> },
    UniformBlockBinding { program: Handle, block_index: u32, binding: u32 },
    BindBufferBase { target: u32, index: u32, buffer: Handle },
    BufferData { target: u32, data: Seq<u8>, usage: u32 },
    DrawElements { mode: u32, count: i32, datatype: u32, offset: i32 },
    CreateShader { kind: u32 },
    ShaderSource { shader: Handle, source: Seq<char> },
    CompileShader { shader: Handle },
    GetShaderParameter { shader: Handle, pname: u32 },
    GetShaderInfoLog { shader: Handle },
    CreateProgram,
    AttachShader { program: Handle, shader: Handle },
    LinkProgram { program: Handle },
    GetProgramParameter { program: Handle, pname: u32 },
    GetProgramInfoLog { program: Handle },
    UseProgram { program: Handle },
    Alert { message: Seq<char> },
}

impl View for Call {
    type V = CallView;

    open spec fn view(&self) -> CallView {
        match *self {
            Call::ClearColor { red, green, blue, alpha } => CallView::ClearColor {
                red,
                green,
                blue,
                alpha,
            },
            Call::Clear { mask } => CallView::Clear { mask },
            Call::CreateBuffer => CallView::CreateBuffer,
            Call::BindBuffer { target, buffer } => CallView::BindBuffer { target, buffer },
            Call::CreateVertexArray => CallView::CreateVertexArray,
            Call::BindVertexArray { vertex_array } => CallView::BindVertexArray { vertex_array },
            Call::GetAttribLocation { program, name } => CallView::GetAttribLocation {
                program,
                name: name@,
            },
            Call::VertexAttribPointer { index, size, datatype, normalized, stride, offset } =>
                CallView::VertexAttribPointer { index, size, datatype, normalized, stride, offset },
            Call::EnableVertexAttribArray { index } => CallView::EnableVertexAttribArray { index },
            Call::GetUniformBlockIndex { program, name } => CallView::GetUniformBlockIndex {
                program,
                name: name@,
            },
            Call::UniformBlockBinding { program, block_index, binding } =>
                CallView::UniformBlockBinding { program, block_index, binding },
            Call::BindBufferBase { target, index, buffer } => CallView::BindBufferBase {
                target,
                index,
                buffer,
            },
            Call::BufferData { target, data, usage } => CallView::BufferData {
                target,
                data: data@,
                usage,
            },
            Call::DrawElements { mode, count, datatype, offset } => CallView::DrawElements {
                mode,
                count,
                datatype,
                offset,
            },
            Call::CreateShader { kind } => CallView::CreateShader { kind },
            Call::ShaderSource { shader, source } => CallView::ShaderSource {
                shader,
                source: source@,
            },
            Call::CompileShader { shader } => CallView::CompileShader { shader },
            Call::GetShaderParameter { shader, pname } => CallView::GetShaderParameter {
                shader,
                pname,
            },
            Call::GetShaderInfoLog { shader } => CallView::GetShaderInfoLog { shader },
            Call::CreateProgram => CallView::CreateProgram,
            Call::AttachShader { program, shader } => CallView::AttachShader { program, shader },
            Call::LinkProgram { program } => CallView::LinkProgram { program },
            Call::GetProgramParameter { program, pname } => CallView::GetProgramParameter {
                program,
                pname,
            },
            Call::GetProgramInfoLog { program } => CallView::GetProgramInfoLog { program },
            Call::UseProgram { program } => CallView::UseProgram { program },
            Call::Alert { message } => CallView::Alert { message: message@ },
        }
    }
}

/// What the context answered to a call.
#[derive(Clone, Debug, PartialEq, Eq)]
pub enum Reply {
    /// The call returns nothing.
    Unit,
    /// The object that was created, or none where the context could not
    /// create it.
    Object(Option<Handle>),
    /// The location of a vertex attribute; negative where the program has no
    /// attribute of the name.
    Location(i32),
    /// The index of a uniform block; [`INVALID_INDEX`] where the program has
    /// no block of the name.
    BlockIndex(u32),
    /// A status parameter of a shader or a program, or none where the context
    /// returned something other than a boolean.
    Parameter(Option<bool>),
    /// The information log of a shader or a program, or none.
    InfoLog(Option<String>),
}

/// A [`Reply`] with its text as a sequence.
pub enum ReplyView {
    Unit,
    Object(Option<Handle>),
    Location(i32),
    BlockIndex(u32),
    Parameter(Option<bool>),
    InfoLog(Option<Seq<char>>),
}

impl View for Reply {
    type V = ReplyView;

    open spec fn view(&self) -> ReplyView {
        match *self {
            Reply::Unit => ReplyView::Unit,
            Reply::Object(object) => ReplyView::Object(object),
            Reply::Location(location) => ReplyView::Location(location),
            Reply::BlockIndex(index) => ReplyView::BlockIndex(index),
            Reply::Parameter(flag) => ReplyView::Parameter(flag),
            Reply::InfoLog(log) => ReplyView::InfoLog(
                match log {
                    Some(text) => Some(text@),
                    None => None,
                },
            ),
        }
    }
}

/// A failure that ends the operation for good.
#[derive(Copy, Clone, Debug, PartialEq, Eq, Structural)]
pub enum GlError {
    /// The context could not create a buffer.
    BufferAllocation,
    /// The context could not create a vertex array object.
    VertexArrayAllocation,
    /// The program has no vertex attribute of the name.
    AttributeNotFound,
    /// The program has no uniform block of the name.
    UniformBlockNotFound,
    /// The array could not be marshalled.
    Marshal(MarshalError),
    /// The number of components per vertex does not fit the context's
    /// parameter.
    ComponentCountOutOfRange,
    /// The binding index does not fit the context's parameter.
    BindingIndexOutOfRange,
    /// The answer recorded for a call is not one that the call can have.
    UnexpectedReply,
}

impl GlError {
    /// What this error says of itself.
    pub open spec fn text(self) -> Seq<char> {
        match self {
            GlError::BufferAllocation => "Failed to create buffer"@,
            GlError::VertexArrayAllocation => "Could not create vertex array object"@,
            GlError::AttributeNotFound => "No vertex attribute of this name"@,
            GlError::UniformBlockNotFound => "No uniform block of this name"@,
            GlError::Marshal(MarshalError::UnsupportedDatatype) =>
                "No array type on the host for HalfFloat"@,
            GlError::Marshal(MarshalError::WidthMismatch) =>
                "The array's elements are not as wide as the element type"@,
            GlError::ComponentCountOutOfRange => "Too many components per vertex"@,
            GlError::BindingIndexOutOfRange => "Binding index too large"@,
            GlError::UnexpectedReply => "The answer does not belong to the call"@,
        }
    }

    /// What this error says of itself.
    pub fn message(&self) -> (message: String)
        ensures
            message@ == self.text(),
    {
        match self {
            GlError::BufferAllocation => String::from_str("Failed to create buffer"),
            GlError::VertexArrayAllocation => String::from_str(
                "Could not create vertex array object",
            ),
            GlError::AttributeNotFound => String::from_str("No vertex attribute of this name"),
            GlError::UniformBlockNotFound => String::from_str("No uniform block of this name"),
            GlError::Marshal(MarshalError::UnsupportedDatatype) => String::from_str(
                "No array type on the host for HalfFloat",
            ),
            GlError::Marshal(MarshalError::WidthMismatch) => String::from_str(
                "The array's elements are not as wide as the element type",
            ),
            GlError::ComponentCountOutOfRange => String::from_str(
                "Too many components per vertex",
            ),
            GlError::BindingIndexOutOfRange => String::from_str("Binding index too large"),
            GlError::UnexpectedReply => String::from_str("The answer does not belong to the call"),
        }
    }
}

/// One entry of a plan.
#[derive(Clone, Debug, PartialEq, Eq)]
pub enum Planned {
    /// Make this call.
    Call(Call),
    /// The call that belongs here cannot be made: the operation fails.
    Fail(GlError),
}

/// A [`Planned`] over [`CallView`].
pub enum PlannedView {
    Call(CallView),
    Fail(GlError),
}

impl View for Planned {
    type V = PlannedView;

    open spec fn view(&self) -> PlannedView {
        match *self {
            Planned::Call(call) => PlannedView::Call(call@),
            Planned::Fail(error) => PlannedView::Fail(error),
        }
    }
}

/// Where an operation stands after the answers recorded so far.
#[derive(Clone, Debug, PartialEq, Eq)]
pub enum Step<T> {
    /// The host is to make this call and record the answer.
    Call(Call),
    /// The operation is complete.
    Done(T),
    /// The operation ended with an error that the caller may present and
    /// survive; the text says what went wrong.
    Rejected(String),
    /// The operation ended with a fatal error.
    Failed(GlError),
}

/// A [`Step`] over [`CallView`].
pub enum StepView<T> {
    Call(CallView),
    Done(T),
    Rejected(Seq<char>),
    Failed(GlError),
}

impl<T> View for Step<T> {
    type V = StepView<T>;

    open spec fn view(&self) -> StepView<T> {
        match *self {
            Step::Call(call) => StepView::Call(call@),
            Step::Done(value) => StepView::Done(value),
            Step::Rejected(message) => StepView::Rejected(message@),
            Step::Failed(error) => StepView::Failed(error),
        }
    }
}

/// The views of a run of answers.
pub open spec fn replies_view(replies: Seq<Reply>) -> Seq<ReplyView> {
    Seq::new(replies.len(), |i: int| replies[i]@)
}

/// The views of the entries of a plan.
pub open spec fn plan_view(plan: Seq<Planned>) -> Seq<PlannedView> {
    Seq::new(plan.len(), |i: int| plan[i]@)
}

/// The answers that follow the first `count`.
pub open spec fn after(replies: Seq<ReplyView>, count: nat) -> Seq<ReplyView> {
    if count <= replies.len() {
        replies.skip(count as int)
    } else {
        Seq::empty()
    }
}

/// The answers after the first `skipped`, of the first `count` answers, are
/// the first `count - skipped` of the answers after the first `skipped`.
pub proof fn lemma_after_take(replies: Seq<ReplyView>, count: int, skipped: nat)
    requires
        0 <= count <= replies.len(),
    ensures
        after(replies.take(count), skipped) == if skipped <= count {
            after(replies, skipped).take(count - skipped)
        } else {
            Seq::empty()
        },
{
    if skipped <= count {
        assert(after(replies.take(count), skipped) =~= after(replies, skipped).take(
            count - skipped,
        ));
    }
}

/// The object that answer `i` names; zero while there is no such answer.
pub open spec fn object_at(replies: Seq<ReplyView>, i: int) -> Handle {
    if 0 <= i < replies.len() {
        match replies[i] {
            ReplyView::Object(Some(handle)) => handle,
            _ => 0,
        }
    } else {
        0
    }
}

/// The attribute location that answer `i` gives; zero while there is no such
/// answer.
pub open spec fn location_at(replies: Seq<ReplyView>, i: int) -> u32 {
    if 0 <= i < replies.len() {
        match replies[i] {
            ReplyView::Location(location) => if location >= 0 {
                location as u32
            } else {
                0
            },
            _ => 0,
        }
    } else {
        0
    }
}

/// The uniform block index that answer `i` gives; zero while there is no such
/// answer.
pub open spec fn block_index_at(replies: Seq<ReplyView>, i: int) -> u32 {
    if 0 <= i < replies.len() {
        match replies[i] {
            ReplyView::BlockIndex(index) => index,
            _ => 0,
        }
    } else {
        0
    }
}

/// Whether answer `i` is there and says that no object was created.
pub open spec fn creation_failed(replies: Seq<ReplyView>, i: int) -> bool {
    0 <= i < replies.len() && replies[i] == ReplyView::Object(None)
}

/// Whether answer `i` is there and is anything but a status of `true`.
pub open spec fn status_failed(replies: Seq<ReplyView>, i: int) -> bool {
    0 <= i < replies.len() && replies[i] != ReplyView::Parameter(Some(true))
}

/// The information log that answer `i` holds, or `fallback` where it holds
/// none.
pub open spec fn log_at(replies: Seq<ReplyView>, i: int, fallback: Seq<char>) -> Seq<char> {
    if 0 <= i < replies.len() {
        match replies[i] {
            ReplyView::InfoLog(Some(text)) => text,
            _ => fallback,
        }
    } else {
        fallback
    }
}

/// How an answer to a call is judged: `None` where the operation can go on,
/// else the fatal error.  A call that creates a buffer or a vertex array must
/// yield an object, a lookup must find the name, and every answer must be of
/// the kind that its call returns.
pub open spec fn judged(call: CallView, reply: ReplyView) -> Option<GlError> {
    match call {
        CallView::CreateBuffer => match reply {
            ReplyView::Object(Some(_)) => None,
            ReplyView::Object(None) => Some(GlError::BufferAllocation),
            _ => Some(GlError::UnexpectedReply),
        },
        CallView::CreateVertexArray => match reply {
            ReplyView::Object(Some(_)) => None,
            ReplyView::Object(None) => Some(GlError::VertexArrayAllocation),
            _ => Some(GlError::UnexpectedReply),
        },
        CallView::CreateShader { .. } | CallView::CreateProgram => match reply {
            ReplyView::Object(_) => None,
            _ => Some(GlError::UnexpectedReply),
        },
        CallView::GetAttribLocation { .. } => match reply {
            ReplyView::Location(location) => if location < 0 {
                Some(GlError::AttributeNotFound)
            } else {
                None
            },
            _ => Some(GlError::UnexpectedReply),
        },
        CallView::GetUniformBlockIndex { .. } => match reply {
            ReplyView::BlockIndex(index) => if index == INVALID_INDEX {
                Some(GlError::UniformBlockNotFound)
            } else {
                None
            },
            _ => Some(GlError::UnexpectedReply),
        },
        CallView::GetShaderParameter { .. } | CallView::GetProgramParameter { .. } => match reply {
            ReplyView::Parameter(_) => None,
            _ => Some(GlError::UnexpectedReply),
        },
        CallView::GetShaderInfoLog { .. } | CallView::GetProgramInfoLog { .. } => match reply {
            ReplyView::InfoLog(_) => None,
            _ => Some(GlError::UnexpectedReply),
        },
        _ => match reply {
            ReplyView::Unit => None,
            _ => Some(GlError::UnexpectedReply),
        },
    }
}

/// Where a plan stands after `replies`: the plan is walked from its start,
/// each call against the answer recorded for it.  An entry that cannot be
/// made, or an answer judged fatal, ends the operation; the first call
/// without an answer is the one to make next; a plan whose calls are all
/// answered is complete.
pub open spec fn next_step(plan: Seq<PlannedView>, replies: Seq<ReplyView>) -> StepView<()>
    decreases plan.len(),
{
    if plan.len() == 0 {
        StepView::Done(())
    } else {
        match plan[0] {
            PlannedView::Fail(error) => StepView::Failed(error),
            PlannedView::Call(call) => if replies.len() == 0 {
                StepView::Call(call)
            } else {
                match judged(call, replies[0]) {
                    Some(error) => StepView::Failed(error),
                    None => next_step(plan.skip(1), replies.skip(1)),
                }
            },
        }
    }
}

/// What an operation works from: the byte order in which buffers are laid
/// out, and the answers of the context to the calls made so far.
#[derive(Clone, Debug, PartialEq, Eq)]
pub struct Context {
    pub byte_order: ByteOrder,
    pub replies: Vec<Reply>,
}

impl Context {
    /// The answers recorded so far.
    pub open spec fn answers(self) -> Seq<ReplyView> {
        replies_view(self.replies@)
    }

    /// A context that has answered nothing yet.
    pub fn new(byte_order: ByteOrder) -> (context: Context)
        ensures
            context.byte_order == byte_order,
            context.answers() == Seq::<ReplyView>::empty(),
    {
        let context = Context { byte_order, replies: Vec::new() };
        assert(context.answers() =~= Seq::<ReplyView>::empty());
        context
    }

    /// A context that has answered nothing yet, for buffers in the byte
    /// order of this machine.
    pub fn native() -> (context: Context)
        ensures
            context.answers() == Seq::<ReplyView>::empty(),
    {
        Context::new(ByteOrder::native())
    }

    /// Records the answer to the call that the last step asked for.
    pub fn answer(&mut self, reply: Reply)
        ensures
            final(self).byte_order == old(self).byte_order,
            final(self).answers() == old(self).answers().push(reply@),
    {
        self.replies.push(reply);
        assert(self.answers() =~= old(self).answers().push(reply@));
    }
}

/// The answers that follow the first `count`.
pub fn rest(replies: &[Reply], count: usize) -> (tail: &[Reply])
    ensures
        replies_view(tail@) == after(replies_view(replies@), count as nat),
{
    let len = replies.len();
    let from = if count <= len {
        count
    } else {
        len
    };
    let tail = vstd::slice::slice_subrange(replies, from, len);
    assert(replies_view(tail@) =~= after(replies_view(replies@), count as nat));
    tail
}

/// The object that answer `i` names; zero while there is no such answer.
pub fn object(replies: &[Reply], i: usize) -> (handle: Handle)
    ensures
        handle == object_at(replies_view(replies@), i as int),
{
    if i < replies.len() {
        match &replies[i] {
            Reply::Object(Some(handle)) => *handle,
            _ => 0,
        }
    } else {
        0
    }
}

/// The attribute location that answer `i` gives; zero while there is no such
/// answer.
pub fn location(replies: &[Reply], i: usize) -> (index: u32)
    ensures
        index == location_at(replies_view(replies@), i as int),
{
    if i < replies.len() {
        match &replies[i] {
            Reply::Location(location) => if *location >= 0 {
                *location as u32
            } else {
                0
            },
            _ => 0,
        }
    } else {
        0
    }
}

/// The uniform block index that answer `i` gives; zero while there is no such
/// answer.
pub fn block_index(replies: &[Reply], i: usize) -> (index: u32)
    ensures
        index == block_index_at(replies_view(replies@), i as int),
{
    if i < replies.len() {
        match &replies[i] {
            Reply::BlockIndex(index) => *index,
            _ => 0,
        }
    } else {
        0
    }
}

/// Whether answer `i` is there and says that no object was created.
pub fn no_object(replies: &[Reply], i: usize) -> (failed: bool)
    ensures
        failed == creation_failed(replies_view(replies@), i as int),
{
    if i < replies.len() {
        match &replies[i] {
            Reply::Object(None) => true,
            _ => false,
        }
    } else {
        false
    }
}

/// Whether answer `i` is there and is anything but a status of `true`.
pub fn no_success(replies: &[Reply], i: usize) -> (failed: bool)
    ensures
        failed == status_failed(replies_view(replies@), i as int),
{
    if i < replies.len() {
        match &replies[i] {
            Reply::Parameter(Some(flag)) => !*flag,
            _ => true,
        }
    } else {
        false
    }
}

/// The information log that answer `i` holds, or `fallback` where it holds
/// none.
pub fn info_log(replies: &[Reply], i: usize, fallback: &str) -> (text: String)
    ensures
        text@ == log_at(replies_view(replies@), i as int, fallback@),
{
    if i < replies.len() {
        match &replies[i] {
            Reply::InfoLog(Some(text)) => text.clone(),
            _ => String::from_str(fallback),
        }
    } else {
        String::from_str(fallback)
    }
}

/// Judges the answer to a call.
pub fn judge(call: &Call, reply: &Reply) -> (verdict: Option<GlError>)
    ensures
        verdict == judged(call@, reply@),
{
    match call {
        Call::CreateBuffer => match reply {
            Reply::Object(Some(_)) => None,
            Reply::Object(None) => Some(GlError::BufferAllocation),
            _ => Some(GlError::UnexpectedReply),
        },
        Call::CreateVertexArray => match reply {
            Reply::Object(Some(_)) => None,
            Reply::Object(None) => Some(GlError::VertexArrayAllocation),
            _ => Some(GlError::UnexpectedReply),
        },
        Call::CreateShader { .. } | Call::CreateProgram => match reply {
            Reply::Object(_) => None,
            _ => Some(GlError::UnexpectedReply),
        },
        Call::GetAttribLocation { .. } => match reply {
            Reply::Location(location) => if *location < 0 {
                Some(GlError::AttributeNotFound)
            } else {
                None
            },
            _ => Some(GlError::UnexpectedReply),
        },
        Call::GetUniformBlockIndex { .. } => match reply {
            Reply::BlockIndex(index) => if *index == INVALID_INDEX {
                Some(GlError::UniformBlockNotFound)
            } else {
                None
            },
            _ => Some(GlError::UnexpectedReply),
        },
        Call::GetShaderParameter { .. } | Call::GetProgramParameter { .. } => match reply {
            Reply::Parameter(_) => None,
            _ => Some(GlError::UnexpectedReply),
        },
        Call::GetShaderInfoLog { .. } | Call::GetProgramInfoLog { .. } => match reply {
            Reply::InfoLog(_) => None,
            _ => Some(GlError::UnexpectedReply),
        },
        _ => match reply {
            Reply::Unit => None,
            _ => Some(GlError::UnexpectedReply),
        },
    }
}

/// Appends `entry` to `plan`.
pub fn plan_entry(plan: &mut Vec<Planned>, entry: Planned)
    ensures
        plan_view(final(plan)@) == plan_view(old(plan)@).push(entry@),
{
    plan.push(entry);
    assert(plan_view(plan@) =~= plan_view(old(plan)@).push(entry@));
}

/// Appends `call` to `plan`.
pub fn plan_call(plan: &mut Vec<Planned>, call: Call)
    ensures
        plan_view(final(plan)@) == plan_view(old(plan)@).push(PlannedView::Call(call@)),
{
    plan_entry(plan, Planned::Call(call));
}

/// Walks `plan` against `replies` and says where the operation stands.
pub fn run(plan: Vec<Planned>, replies: &[Reply]) -> (step: Step<()>)
    ensures
        step@ == next_step(plan_view(plan@), replies_view(replies@)),
{
    let ghost goal = next_step(plan_view(plan@), replies_view(replies@));
    let ghost answers = replies_view(replies@);
    let mut entries = plan;
    let mut i: usize = 0;
    proof {
        assert(plan_view(entries@).skip(0) =~= plan_view(entries@));
        assert(after(answers, 0) =~= answers);
    }
    while i < entries.len()
        invariant
            i <= entries.len(),
            i <= replies.len(),
            answers == replies_view(replies@),
            goal == next_step(plan_view(plan@), answers),
            next_step(plan_view(entries@).skip(i as int), after(answers, i as nat)) == goal,
        decreases entries.len() - i,
    {
        let ghost views = plan_view(entries@);
        let ghost tail = views.skip(i as int);
        let ghost window = after(answers, i as nat);
        proof {
            assert(tail.len() > 0);
            assert(tail[0] == views[i as int]);
            assert(window.len() == answers.len() - i);
            if i < answers.len() {
                assert(window[0] == answers[i as int]);
            }
        }
        let waiting = i >= replies.len();
        let verdict = match &entries[i] {
            Planned::Fail(error) => Some(*error),
            Planned::Call(call) => if waiting {
                None
            } else {
                judge(call, &replies[i])
            },
        };
        if waiting || verdict.is_some() {
            let entry = entries.swap_remove(i);
            assert(entry@ == tail[0]);
            return match entry {
                Planned::Fail(error) => Step::Failed(error),
                Planned::Call(call) => match verdict {
                    Some(error) => Step::Failed(error),
                    None => Step::Call(call),
                },
            };
        }
        proof {
            assert(tail.skip(1) =~= views.skip(i + 1));
            assert(window.skip(1) =~= after(answers, (i + 1) as nat));
        }
        i += 1;
    }
    Step::Done(())
}

/// Whether each of the first `count` entries of `plan` is a call, and the
/// answer recorded for it lets the operation go on.
pub open spec fn answered_well(
    plan: Seq<PlannedView>,
    replies: Seq<ReplyView>,
    count: int,
) -> bool {
    forall|i: int|
        0 <= i < count ==> (#[trigger] plan[i] matches PlannedView::Call(call) && judged(
            call,
            replies[i],
        ) is None)
}

/// What a step is when it comes to an entry of a plan.
pub open spec fn step_at(entry: PlannedView) -> StepView<()> {
    match entry {
        PlannedView::Call(call) => StepView::Call(call),
        PlannedView::Fail(error) => StepView::Failed(error),
    }
}

/// While all goes well the calls are made in the order of the plan: after
/// `n` good answers the step is entry `n`.
pub proof fn lemma_next_entry(plan: Seq<PlannedView>, replies: Seq<ReplyView>)
    requires
        replies.len() < plan.len(),
        answered_well(plan, replies, replies.len() as int),
    ensures
        next_step(plan, replies) == step_at(plan[replies.len() as int]),
    decreases plan.len(),
{
    if replies.len() > 0 {
        let plan_tail = plan.skip(1);
        let replies_tail = replies.skip(1);
        assert(plan[0] matches PlannedView::Call(call) && judged(call, replies[0]) is None);
        assert forall|i: int| 0 <= i < replies_tail.len() implies (
        #[trigger] plan_tail[i] matches PlannedView::Call(call) && judged(call, replies_tail[i])
            is None) by {
            assert(plan_tail[i] == plan[i + 1]);
            assert(replies_tail[i] == replies[i + 1]);
        }
        lemma_next_entry(plan_tail, replies_tail);
        assert(plan_tail[replies_tail.len() as int] == plan[replies.len() as int]);
    }
}

/// Where the plan made from the answers so far agrees, up to the entry that
/// is due, with the plan made from all the answers of a run, the calls of
/// the run are those of the latter plan: after `count` good answers the step
/// is its entry `count`.
pub proof fn lemma_calls_in_order(
    plan: Seq<PlannedView>,
    plan_so_far: Seq<PlannedView>,
    replies: Seq<ReplyView>,
    count: int,
)
    requires
        0 <= count <= replies.len(),
        count < plan_so_far.len(),
        answered_well(plan, replies, count),
        forall|i: int| 0 <= i <= count ==> #[trigger] plan_so_far[i] == plan[i],
    ensures
        next_step(plan_so_far, replies.take(count)) == step_at(plan[count]),
{
    let cut = replies.take(count);
    assert forall|i: int| 0 <= i < count implies (#[trigger] plan_so_far[i] matches PlannedView::Call(
        call,
    ) && judged(call, cut[i]) is None) by {
        assert(plan_so_far[i] == plan[i]);
        assert(cut[i] == replies[i]);
    }
    assert(plan_so_far[count] == plan[count]);
    lemma_next_entry(plan_so_far, cut);
}

/// An operation is complete once every call of its plan has a good answer;
/// answers beyond the plan's end do not count.
pub proof fn lemma_plan_done(plan: Seq<PlannedView>, replies: Seq<ReplyView>)
    requires
        plan.len() <= replies.len(),
        answered_well(plan, replies, plan.len() as int),
    ensures
        next_step(plan, replies) == StepView::Done(()),
    decreases plan.len(),
{
    if plan.len() > 0 {
        let plan_tail = plan.skip(1);
        let replies_tail = replies.skip(1);
        assert(plan[0] matches PlannedView::Call(call) && judged(call, replies[0]) is None);
        assert forall|i: int| 0 <= i < plan_tail.len() implies (
        #[trigger] plan_tail[i] matches PlannedView::Call(call) && judged(call, replies_tail[i])
            is None) by {
            assert(plan_tail[i] == plan[i + 1]);
            assert(replies_tail[i] == replies[i + 1]);
        }
        lemma_plan_done(plan_tail, replies_tail);
    }
}

/// The first answer that is judged fatal ends the operation with its error.
pub proof fn lemma_fatal_answer(plan: Seq<PlannedView>, replies: Seq<ReplyView>, at: int)
    requires
        0 <= at < plan.len(),
        at < replies.len(),
        answered_well(plan, replies, at),
        plan[at] matches PlannedView::Call(call) && judged(call, replies[at]) is Some,
    ensures
        plan[at] matches PlannedView::Call(call) && next_step(plan, replies) == StepView::<
            (),
        >::Failed(judged(call, replies[at])->Some_0),
    decreases plan.len(),
{
    if at > 0 {
        let plan_tail = plan.skip(1);
        let replies_tail = replies.skip(1);
        assert(plan[0] matches PlannedView::Call(call) && judged(call, replies[0]) is None);
        assert forall|i: int| 0 <= i < at - 1 implies (
        #[trigger] plan_tail[i] matches PlannedView::Call(call) && judged(call, replies_tail[i])
            is None) by {
            assert(plan_tail[i] == plan[i + 1]);
            assert(replies_tail[i] == replies[i + 1]);
        }
        assert(plan_tail[at - 1] == plan[at]);
        assert(replies_tail[at - 1] == replies[at]);
        lemma_fatal_answer(plan_tail, replies_tail, at - 1);
    }
}

impl ReplyView {
    /// This answer with the identity of the object it names forgotten.
    pub open spec fn without_objects(self) -> ReplyView {
        match self {
            ReplyView::Object(Some(_)) => ReplyView::Object(Some(0)),
            other => other,
        }
    }
}

impl CallView {
    /// This call with the identities of the buffers and vertex array
    /// objects it names forgotten.
    pub open spec fn without_objects(self) -> CallView {
        match self {
            CallView::BindBuffer { target, buffer } => CallView::BindBuffer { target, buffer: 0 },
            CallView::BindVertexArray { vertex_array } => CallView::BindVertexArray {
                vertex_array: 0,
            },
            CallView::BindBufferBase { target, index, buffer } => CallView::BindBufferBase {
                target,
                index,
                buffer: 0,
            },
            other => other,
        }
    }
}

impl PlannedView {
    /// This entry with the identities of the buffers and vertex array
    /// objects it names forgotten.
    pub open spec fn without_objects(self) -> PlannedView {
        match self {
            PlannedView::Call(call) => PlannedView::Call(call.without_objects()),
            PlannedView::Fail(error) => PlannedView::Fail(error),
        }
    }
}

impl<T> StepView<T> {
    /// This step with the identities of the buffers and vertex array objects
    /// it names forgotten.
    pub open spec fn without_objects(self) -> StepView<T> {
        match self {
            StepView::Call(call) => StepView::Call(call.without_objects()),
            other => other,
        }
    }
}

/// Whether two runs of answers are alike but for the identities of the
/// objects that were created.
pub open spec fn replies_alike(first: Seq<ReplyView>, second: Seq<ReplyView>) -> bool {
    &&& first.len() == second.len()
    &&& forall|i: int|
        0 <= i < first.len() ==> (#[trigger] first[i]).without_objects() == (
        #[trigger] second[i]).without_objects()
}

/// Whether two plans are alike but for the identities of the buffers and
/// vertex array objects that their calls name.
pub open spec fn plans_alike(first: Seq<PlannedView>, second: Seq<PlannedView>) -> bool {
    &&& first.len() == second.len()
    &&& forall|i: int|
        0 <= i < first.len() ==> (#[trigger] first[i]).without_objects() == (
        #[trigger] second[i]).without_objects()
}

/// How an answer is judged does not depend on which objects the call or the
/// answer names.
pub proof fn lemma_judged_alike(
    first: CallView,
    second: CallView,
    first_reply: ReplyView,
    second_reply: ReplyView,
)
    requires
        first.without_objects() == second.without_objects(),
        first_reply.without_objects() == second_reply.without_objects(),
    ensures
        judged(first, first_reply) == judged(second, second_reply),
{
}

/// Plans that are alike stand alike after answers that are alike.
pub proof fn lemma_next_step_alike(
    first: Seq<PlannedView>,
    second: Seq<PlannedView>,
    first_replies: Seq<ReplyView>,
    second_replies: Seq<ReplyView>,
)
    requires
        plans_alike(first, second),
        replies_alike(first_replies, second_replies),
    ensures
        next_step(first, first_replies).without_objects() == next_step(
            second,
            second_replies,
        ).without_objects(),
    decreases first.len(),
{
    if first.len() > 0 {
        assert(first[0].without_objects() == second[0].without_objects());
        match (first[0], second[0]) {
            (PlannedView::Call(a), PlannedView::Call(b)) => {
                if first_replies.len() > 0 {
                    assert(first_replies[0].without_objects()
                        == second_replies[0].without_objects());
                    lemma_judged_alike(a, b, first_replies[0], second_replies[0]);
                    let first_tail = first.skip(1);
                    let second_tail = second.skip(1);
                    let first_rest = first_replies.skip(1);
                    let second_rest = second_replies.skip(1);
                    assert forall|i: int| 0 <= i < first_tail.len() implies (
                    #[trigger] first_tail[i]).without_objects() == (
                    #[trigger] second_tail[i]).without_objects() by {
                        assert(first_tail[i] == first[i + 1]);
                        assert(second_tail[i] == second[i + 1]);
                    }
                    assert forall|i: int| 0 <= i < first_rest.len() implies (
                    #[trigger] first_rest[i]).without_objects() == (
                    #[trigger] second_rest[i]).without_objects() by {
                        assert(first_rest[i] == first_replies[i + 1]);
                        assert(second_rest[i] == second_replies[i + 1]);
                    }
                    lemma_next_step_alike(first_tail, second_tail, first_rest, second_rest);
                }
            },
            _ => {},
        }
    }
}

} // verus!
