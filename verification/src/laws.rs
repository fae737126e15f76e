//! What holds of every run.
//!
//! A run is a driver together with the answers it is given. The functions
//! `run` and `calls` say where a sequence of answers leads and which calls
//! it answers; the laws below are stated over them.

use crate::diagnostic::{is_success, log_text};
use crate::driver::{compile_failure, link_failure, Driver, Phase, StepView};
use crate::failure::FailureView;
use crate::geometry::{fixed_triangle, HALF, NEG_HALF, ZERO};
use crate::handles::Stage;
use crate::input::{any_closes, lemma_after_all_closing, InputEvent, Key, KeyAction, LoopState};
use crate::protocol::{Action, Reply};
use vstd::prelude::*;

verus! {

/// Where a run stands once `replies` have been given, in order, starting
/// from `from`. A run that is over takes no further answer.
pub open spec fn run(from: StepView, replies: Seq<Reply>) -> StepView
    decreases replies.len(),
{
    if replies.len() == 0 {
        from
    } else {
        match run(from, replies.drop_last()) {
            StepView::Continue(driver) => driver.next(replies.last()),
            StepView::Stop(outcome) => StepView::Stop(outcome),
        }
    }
}

/// The call that is pending where a run stands, if it is not over.
pub open spec fn pending_call(at: StepView) -> Option<Action> {
    match at {
        StepView::Continue(driver) => Some(driver.pending()),
        StepView::Stop(_) => None,
    }
}

/// The calls that `replies` answer, in order, in a run from `from`.
pub open spec fn calls(from: StepView, replies: Seq<Reply>) -> Seq<Action>
    decreases replies.len(),
{
    if replies.len() == 0 {
        Seq::empty()
    } else {
        match pending_call(run(from, replies.drop_last())) {
            Some(action) => calls(from, replies.drop_last()).push(action),
            None => calls(from, replies.drop_last()),
        }
    }
}

/// The start of every run.
pub open spec fn start() -> StepView {
    StepView::Continue(Driver::initial())
}

/// One more answer moves a run by one step.
pub proof fn lemma_run_push(from: StepView, replies: Seq<Reply>, reply: Reply)
    ensures
        run(from, replies.push(reply)) == match run(from, replies) {
            StepView::Continue(driver) => driver.next(reply),
            StepView::Stop(outcome) => StepView::Stop(outcome),
        },
        calls(from, replies.push(reply)) == match pending_call(run(from, replies)) {
            Some(action) => calls(from, replies).push(action),
            None => calls(from, replies),
        },
{
    assert(replies.push(reply).drop_last() == replies);
}

/// A run that is over stays as it is, and makes no further call.
pub proof fn law_stop_is_final(from: StepView, replies: Seq<Reply>, more: Seq<Reply>)
    requires
        run(from, replies) is Stop,
    ensures
        run(from, replies + more) == run(from, replies),
        calls(from, replies + more) == calls(from, replies),
    decreases more.len(),
{
    if more.len() == 0 {
        assert(replies + more == replies);
    } else {
        law_stop_is_final(from, replies, more.drop_last());
        assert((replies + more).drop_last() == replies + more.drop_last());
    }
}

/// The answer at place `k` moves the run from where the `k` answers before
/// it lead to where it and they lead.
pub proof fn lemma_run_take(from: StepView, replies: Seq<Reply>, k: int)
    requires
        0 <= k < replies.len(),
    ensures
        run(from, replies.take(k + 1)) == match run(from, replies.take(k)) {
            StepView::Continue(driver) => driver.next(replies[k]),
            StepView::Stop(outcome) => StepView::Stop(outcome),
        },
        calls(from, replies.take(k + 1)) == match pending_call(run(from, replies.take(k))) {
            Some(action) => calls(from, replies.take(k)).push(action),
            None => calls(from, replies.take(k)),
        },
{
    assert(replies.take(k + 1) == replies.take(k).push(replies[k]));
    lemma_run_push(from, replies.take(k), replies[k]);
}

/// A run can be cut in two: the second part starts where the first ends.
pub proof fn lemma_run_concat(from: StepView, first: Seq<Reply>, second: Seq<Reply>)
    ensures
        run(from, first + second) == run(run(from, first), second),
        calls(from, first + second) == calls(from, first) + calls(run(from, first), second),
    decreases second.len(),
{
    if second.len() == 0 {
        assert(first + second == first);
        assert(calls(from, first) + Seq::<Action>::empty() == calls(from, first));
    } else {
        lemma_run_concat(from, first, second.drop_last());
        assert((first + second).drop_last() == first + second.drop_last());
        assert((first + second).last() == second.last());
        let head = calls(from, first);
        let tail = calls(run(from, first), second.drop_last());
        match pending_call(run(from, first + second.drop_last())) {
            Some(action) => {
                assert((head + tail).push(action) == head + tail.push(action));
            },
            None => {},
        }
    }
}

/// The calls of one frame: one clear, one program bind, one array bind,
/// one draw of three vertices and one buffer swap, in this order.
pub open spec fn frame_calls(driver: Driver) -> Seq<Action> {
    seq![
        Action::ClearColor,
        Action::UseProgram { program: driver.program() },
        Action::BindVertexArray { array: driver.array() },
        Action::DrawTriangles { first: 0, count: 3 },
        Action::SwapBuffers,
    ]
}

/// Every frame is the same five calls, whatever they are answered with and
/// however many frames came before. After the swap the run is over if the
/// loop is closing, and polls again if it is not.
pub proof fn law_frame(driver: Driver, replies: Seq<Reply>)
    requires
        driver.phase == Phase::Clear,
        replies.len() == 5,
    ensures
        calls(StepView::Continue(driver), replies) == frame_calls(driver),
        run(StepView::Continue(driver), replies) == if driver.loop_state == LoopState::Closing {
            StepView::Stop(Ok(()))
        } else {
            StepView::Continue(driver.at(Phase::Poll))
        },
{
    let from = StepView::Continue(driver);
    lemma_run_take(from, replies, 0);
    lemma_run_take(from, replies, 1);
    lemma_run_take(from, replies, 2);
    lemma_run_take(from, replies, 3);
    lemma_run_take(from, replies, 4);
    assert(replies.take(5) == replies);
    assert(calls(from, replies) =~= frame_calls(driver));
}

/// One iteration of the loop polls once and draws one frame. An iteration
/// that drains a closing event is the last: its frame is shown and the run
/// ends in success. An iteration that drains none leaves the driver as it
/// found it, so the loop goes on.
pub proof fn law_iteration(driver: Driver, events: Vec<InputEvent>, replies: Seq<Reply>)
    requires
        driver.phase == Phase::Poll,
        driver.loop_state == LoopState::Running,
        replies.len() == 6,
        replies[0] == Reply::Events(events),
    ensures
        calls(StepView::Continue(driver), replies) == seq![Action::PollEvents] + frame_calls(
            driver,
        ),
        run(StepView::Continue(driver), replies) == if any_closes(events@) {
            StepView::Stop(Ok(()))
        } else {
            StepView::Continue(driver)
        },
{
    let from = StepView::Continue(driver);
    let polled = Driver { loop_state: driver.loop_state.after_all(events@), ..driver }.at(
        Phase::Clear,
    );
    let poll = replies.take(1);
    let frame = replies.skip(1);
    lemma_after_all_closing(driver.loop_state, events@);
    lemma_run_take(from, replies, 0);
    assert(run(from, poll) == StepView::Continue(polled));
    assert(calls(from, poll) == seq![Action::PollEvents]);
    law_frame(polled, frame);
    assert(replies == poll + frame);
    lemma_run_concat(from, poll, frame);
    assert(frame_calls(polled) == frame_calls(driver));
    if !any_closes(events@) {
        assert(polled.at(Phase::Poll) == driver);
    }
}

/// How many calls precede a phase of the start-up, up to the first shader
/// call; every later phase counts as that one.
pub open spec fn startup_index(phase: Phase) -> int {
    match phase {
        Phase::InitWindowing => 0,
        Phase::HintVersion => 1,
        Phase::HintProfile => 2,
        Phase::CreateWindow => 3,
        Phase::MakeCurrent => 4,
        Phase::EnableKeys => 5,
        Phase::LoadFunctions => 6,
        Phase::OpenSource(Stage::Vertex) => 7,
        Phase::ReadSource(Stage::Vertex) => 8,
        Phase::OpenSource(Stage::Fragment) => 9,
        Phase::ReadSource(Stage::Fragment) => 10,
        _ => 11,
    }
}

/// Whether, in a run from the start, the source of a stage was read to its
/// end: some answer among `replies` reports success to that call.
pub open spec fn source_was_read(replies: Seq<Reply>, stage: Stage) -> bool {
    exists|i: int|
        0 <= i < replies.len() && #[trigger] pending_call(run(start(), replies.take(i))) == Some(
            Action::ReadSource { stage },
        ) && replies[i] == Reply::Done
}

/// A run that is still going was going after each of its earlier answers.
pub proof fn lemma_running_before(from: StepView, replies: Seq<Reply>, k: int)
    requires
        0 <= k <= replies.len(),
        run(from, replies) is Continue,
    ensures
        run(from, replies.take(k)) is Continue,
    decreases replies.len(),
{
    if k == replies.len() {
        assert(replies.take(k) == replies);
    } else {
        lemma_running_before(from, replies.drop_last(), k);
        assert(replies.drop_last().take(k) == replies.take(k));
    }
}

/// The start-up is a straight line: while it lasts, the number of answers
/// given is the number of calls that precede the phase.
pub proof fn lemma_startup_is_linear(replies: Seq<Reply>)
    ensures
        run(start(), replies) matches StepView::Continue(driver) ==> {
            &&& startup_index(driver.phase) < 11 ==> replies.len() == startup_index(driver.phase)
            &&& startup_index(driver.phase) == 11 ==> replies.len() >= 11
        },
    decreases replies.len(),
{
    if replies.len() > 0 {
        lemma_startup_is_linear(replies.drop_last());
    }
}

/// Both sources are read before anything is compiled: where a shader call
/// is pending, the source of each stage has been read to its end.
pub proof fn law_sources_before_shaders(replies: Seq<Reply>)
    requires
        pending_call(run(start(), replies)) matches Some(action) && action.is_shader_call(),
    ensures
        source_was_read(replies, Stage::Vertex),
        source_was_read(replies, Stage::Fragment),
{
    lemma_startup_is_linear(replies);
    lemma_sources_read(replies);
}

/// A run that has left the start-up behind has read both sources.
proof fn lemma_sources_read(replies: Seq<Reply>)
    requires
        replies.len() >= 11,
        run(start(), replies) is Continue,
    ensures
        source_was_read(replies, Stage::Vertex),
        source_was_read(replies, Stage::Fragment),
{
    lemma_running_before(start(), replies, 8);
    lemma_running_before(start(), replies, 9);
    lemma_running_before(start(), replies, 10);
    lemma_running_before(start(), replies, 11);
    lemma_startup_is_linear(replies.take(8));
    lemma_startup_is_linear(replies.take(9));
    lemma_startup_is_linear(replies.take(10));
    lemma_startup_is_linear(replies.take(11));
    lemma_run_take(start(), replies, 8);
    lemma_run_take(start(), replies, 10);
    assert(pending_call(run(start(), replies.take(8))) == Some(
        Action::ReadSource { stage: Stage::Vertex },
    ));
    assert(replies[8] == Reply::Done);
    assert(pending_call(run(start(), replies.take(10))) == Some(
        Action::ReadSource { stage: Stage::Fragment },
    ));
    assert(replies[10] == Reply::Done);
}

/// A source file that cannot be opened or read ends the run at once, with
/// the failure that names the stage, and no shader call is ever made.
pub proof fn law_missing_source_is_fatal(replies: Seq<Reply>, i: int, stage: Stage)
    requires
        0 <= i < replies.len(),
        pending_call(run(start(), replies.take(i))) == Some(Action::OpenSource { stage })
            || pending_call(run(start(), replies.take(i))) == Some(Action::ReadSource { stage }),
        replies[i] == Reply::Failed,
    ensures
        pending_call(run(start(), replies.take(i))) == Some(Action::OpenSource { stage })
            ==> run(start(), replies) == StepView::Stop(Err(FailureView::SourceOpen { stage })),
        pending_call(run(start(), replies.take(i))) == Some(Action::ReadSource { stage })
            ==> run(start(), replies) == StepView::Stop(Err(FailureView::SourceRead { stage })),
        forall|j: int|
            0 <= j < calls(start(), replies).len() ==> !(#[trigger] calls(
                start(),
                replies,
            )[j]).is_shader_call(),
{
    lemma_run_take(start(), replies, i);
    lemma_startup_is_linear(replies.take(i));
    assert(replies == replies.take(i + 1) + replies.skip(i + 1));
    law_stop_is_final(start(), replies.take(i + 1), replies.skip(i + 1));
    lemma_startup_calls(replies.take(i + 1));
}

/// The calls of a run that has given at most eleven answers are calls of
/// the start-up, and none of them is a shader call.
proof fn lemma_startup_calls(replies: Seq<Reply>)
    requires
        replies.len() <= 11,
    ensures
        forall|j: int|
            0 <= j < calls(start(), replies).len() ==> !(#[trigger] calls(
                start(),
                replies,
            )[j]).is_shader_call(),
    decreases replies.len(),
{
    if replies.len() > 0 {
        let front = replies.drop_last();
        lemma_startup_calls(front);
        lemma_startup_is_linear(front);
        assert forall|j: int| 0 <= j < calls(start(), replies).len() implies !(#[trigger] calls(
            start(),
            replies,
        )[j]).is_shader_call() by {
            if j < calls(start(), front).len() {
                assert(calls(start(), replies)[j] == calls(start(), front)[j]);
            } else {
                let driver = run(start(), front)->Continue_0;
                assert(calls(start(), replies)[j] == driver.pending());
                assert(startup_index(driver.phase) < 11);
            }
        }
    }
}

/// The state of the loop after the first `k` events of a batch, the loop
/// having been running before the first.
pub open spec fn state_after(events: Seq<InputEvent>, k: int) -> LoopState {
    LoopState::Running.after_all(events.take(k))
}

/// Whether the loop turns from running to closing at event `k`.
pub open spec fn closes_at(events: Seq<InputEvent>, k: int) -> bool {
    &&& 0 <= k < events.len()
    &&& state_after(events, k) == LoopState::Running
    &&& state_after(events, k + 1) == LoopState::Closing
}

/// A press of the escape key closes a running loop.
pub proof fn law_escape_closes()
    ensures
        LoopState::Running.after(
            InputEvent::Key { key: Key::Escape, action: KeyAction::Press },
        ) == LoopState::Closing,
{
}

/// An event that is neither a press of the escape key nor a request to
/// close leaves the state as it was: a running loop goes on running.
pub proof fn law_other_events_change_nothing(state: LoopState, event: InputEvent)
    requires
        !event.closes(),
    ensures
        state.after(event) == state,
{
}

/// A batch without a closing event leaves a running loop running.
pub proof fn law_other_batches_change_nothing(events: Seq<InputEvent>)
    requires
        !any_closes(events),
    ensures
        LoopState::Running.after_all(events) == LoopState::Running,
{
    lemma_after_all_closing(LoopState::Running, events);
}

/// Closing is final: no event leads back to running.
pub proof fn law_closing_is_final(events: Seq<InputEvent>)
    ensures
        LoopState::Closing.after_all(events) == LoopState::Closing,
{
    lemma_after_all_closing(LoopState::Closing, events);
}

/// Once the loop is closing it stays so for the rest of the batch.
pub proof fn lemma_closing_stays(events: Seq<InputEvent>, j: int, k: int)
    requires
        0 <= j <= k <= events.len(),
        state_after(events, j) == LoopState::Closing,
    ensures
        state_after(events, k) == LoopState::Closing,
{
    lemma_after_all_closing(LoopState::Running, events.take(j));
    lemma_after_all_closing(LoopState::Running, events.take(k));
    let i = choose|i: int| 0 <= i < events.take(j).len() && (#[trigger] events.take(j)[i]).closes();
    assert(events.take(k)[i].closes());
}

/// The loop turns from running to closing at most once, and it does so
/// exactly when the batch holds a closing event: at the first of them.
pub proof fn law_closes_once(events: Seq<InputEvent>)
    ensures
        forall|j: int, k: int|
            closes_at(events, j) && closes_at(events, k) ==> j == k,
        any_closes(events) <==> exists|k: int| closes_at(events, k),
{
    assert forall|j: int, k: int| closes_at(events, j) && closes_at(events, k) implies j == k by {
        if j < k {
            lemma_closing_stays(events, j + 1, k);
        }
        if k < j {
            lemma_closing_stays(events, k + 1, j);
        }
    }
    if any_closes(events) {
        lemma_first_closing(events, events.len() as int);
    }
    if exists|k: int| closes_at(events, k) {
        let k = choose|k: int| closes_at(events, k);
        lemma_closing_stays(events, k + 1, events.len() as int);
        assert(events.take(events.len() as int) == events);
        lemma_after_all_closing(LoopState::Running, events);
    }
}

/// If the loop is closing after `k` events, it turned at one of them.
proof fn lemma_first_closing(events: Seq<InputEvent>, k: int)
    requires
        0 <= k <= events.len(),
        state_after(events, k) == LoopState::Closing || (k == events.len() && any_closes(events)),
    ensures
        exists|i: int| closes_at(events, i),
    decreases k,
{
    if k == events.len() {
        assert(events.take(k) == events);
        lemma_after_all_closing(LoopState::Running, events);
    }
    if k == 0 {
        assert(events.take(0).len() == 0);
    } else {
        if state_after(events, k - 1) == LoopState::Closing {
            lemma_first_closing(events, k - 1);
        } else {
            assert(closes_at(events, k - 1));
        }
    }
}

/// The buffer that is uploaded holds nine coordinates, thirty-six bytes:
/// (0, 0.5, 0), (-0.5, -0.5, 0) and (0.5, -0.5, 0).
pub proof fn law_mesh_contents()
    ensures
        fixed_triangle().words() == seq![
            ZERO,
            HALF,
            ZERO,
            NEG_HALF,
            NEG_HALF,
            ZERO,
            HALF,
            NEG_HALF,
            ZERO,
        ],
        fixed_triangle().words().len() == 9,
        fixed_triangle().byte_len() == 36,
{
}

/// Every upload carries the same mesh: whatever the state in which the
/// upload is pending, and however often it is reached, the contents are
/// those of the fixed triangle, bit for bit.
pub proof fn law_upload_is_fixed(first: Driver, second: Driver)
    requires
        first.pending() is UploadVertices,
        second.pending() is UploadVertices,
    ensures
        first.pending() == (Action::UploadVertices { mesh: fixed_triangle() }),
        first.pending() == second.pending(),
        first.pending()->mesh.words() == second.pending()->mesh.words(),
{
}

/// A call that returns nothing cannot fail the run: whatever it is
/// answered with, the run goes on in the same way.
pub proof fn law_unread_replies(driver: Driver, first: Reply, second: Reply)
    requires
        !driver.phase.reads_reply(),
    ensures
        driver.next(first) == driver.next(second),
        driver.phase != Phase::Swap ==> driver.next(first) == StepView::Continue(
            driver.at(driver.phase.following()),
        ),
{
}

/// Nothing is created in the loop: a driver in the loop asks for no new
/// object, keeps every identifier, and stays in the loop until the run is
/// over.
pub proof fn law_loop_creates_nothing(driver: Driver, reply: Reply)
    requires
        driver.phase.in_loop(),
    ensures
        !driver.pending().creates_object(),
        driver.next(reply) matches StepView::Continue(after) ==> {
            &&& after.phase.in_loop()
            &&& after.program() == driver.program()
            &&& after.array() == driver.array()
            &&& after.buffer() == driver.buffer()
            &&& after.shader(Stage::Vertex) == driver.shader(Stage::Vertex)
            &&& after.shader(Stage::Fragment) == driver.shader(Stage::Fragment)
        },
        driver.next(reply) matches StepView::Stop(outcome) ==> outcome is Ok || outcome == Err::<
            (),
            FailureView,
        >(FailureView::UnexpectedReply),
{
}

/// A compile that the device reports as successful lets the run go on to
/// the next stage with the shader it was given; any other status sends
/// the run to the shader's log.
pub proof fn law_compile_verdict(driver: Driver, stage: Stage, status: i32)
    requires
        driver.phase == Phase::CompileStatus(stage),
    ensures
        is_success(status) ==> driver.next(Reply::Status(status)) == StepView::Continue(
            driver.at(Phase::after_compile(stage)),
        ),
        !is_success(status) ==> pending_call(driver.next(Reply::Status(status))) == Some(
            Action::QueryShaderLogLength { shader: driver.shader(stage) },
        ),
{
}

/// A rejected compile ends the run with the device's own words: the
/// failure carries the text bytes of the log, decoded, and nothing else.
pub proof fn law_compile_failure_carries_log(
    driver: Driver,
    stage: Stage,
    reported: i32,
    buffer: Vec<u8>,
)
    requires
        driver.phase == Phase::ShaderLogLength(stage),
        reported >= 1,
    ensures
        run(
            StepView::Continue(driver),
            seq![Reply::Length(reported), Reply::Bytes(buffer)],
        ) == StepView::Stop(Err(compile_failure(stage, log_text(buffer@, reported)))),
        calls(StepView::Continue(driver), seq![Reply::Length(reported), Reply::Bytes(buffer)])
            == seq![
            Action::QueryShaderLogLength { shader: driver.shader(stage) },
            Action::FetchShaderLog { shader: driver.shader(stage), capacity: reported },
        ],
{
    let from = StepView::Continue(driver);
    let replies = seq![Reply::Length(reported), Reply::Bytes(buffer)];
    lemma_run_take(from, replies, 0);
    lemma_run_take(from, replies, 1);
    assert(replies.take(2) == replies);
}

/// A link that the device reports as successful lets the run go on to the
/// upload; any other status sends the run to the program's log.
pub proof fn law_link_verdict(driver: Driver, status: i32)
    requires
        driver.phase == Phase::LinkStatus,
    ensures
        is_success(status) ==> driver.next(Reply::Status(status)) == StepView::Continue(
            driver.at(Phase::CreateVertexArray),
        ),
        !is_success(status) ==> pending_call(driver.next(Reply::Status(status))) == Some(
            Action::QueryProgramLogLength { program: driver.program() },
        ),
{
}

/// A rejected link ends the run with the device's own words: the failure
/// carries the text bytes of the log, decoded, and nothing else.
pub proof fn law_link_failure_carries_log(driver: Driver, reported: i32, buffer: Vec<u8>)
    requires
        driver.phase == Phase::ProgramLogLength,
        reported >= 1,
    ensures
        run(
            StepView::Continue(driver),
            seq![Reply::Length(reported), Reply::Bytes(buffer)],
        ) == StepView::Stop(Err(link_failure(log_text(buffer@, reported)))),
        calls(StepView::Continue(driver), seq![Reply::Length(reported), Reply::Bytes(buffer)])
            == seq![
            Action::QueryProgramLogLength { program: driver.program() },
            Action::FetchProgramLog { program: driver.program(), capacity: reported },
        ],
{
    let from = StepView::Continue(driver);
    let replies = seq![Reply::Length(reported), Reply::Bytes(buffer)];
    lemma_run_take(from, replies, 0);
    lemma_run_take(from, replies, 1);
    assert(replies.take(2) == replies);
}

} // verus!
