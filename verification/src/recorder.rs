//! The recording worker and the controller that talks to it.
//!
//! The worker owns the platform capture handles, so it runs on a thread of
//! its own; the controller hands it commands over a channel and waits for the
//! answer. What the worker decides on each command is the pure state machine
//! [`worker_step`]; the capture handles themselves live with the caller that
//! drives the machine.

use std::path::PathBuf;
use std::sync::atomic::AtomicU32;
use std::sync::mpsc::{Receiver, Sender};
use std::sync::Arc;
use vstd::prelude::*;
use vstd::string::*;

verus! {

#[verifier::external_type_specification]
#[verifier::external_body]
pub struct ExPathBuf(PathBuf);

#[verifier::external_type_specification]
#[verifier::external_body]
#[verifier::reject_recursive_types(T)]
pub struct ExSender<T>(Sender<T>);

#[verifier::external_type_specification]
#[verifier::external_body]
#[verifier::reject_recursive_types(T)]
pub struct ExReceiver<T>(Receiver<T>);

/// The most recent peak input level, as the bit pattern of an `f32`.
pub type SharedLevel = Arc<AtomicU32>;

/// A request to the recording worker, with the channel that carries its answer.
pub enum Command {
    Start(PathBuf, Sender<Result<(), String>>),
    Stop(Sender<Result<PathBuf, String>>),
}

/// The request to start recording into `path`, answered on `response`.
pub fn start_command(path: PathBuf, response: Sender<Result<(), String>>) -> (command: Command)
    ensures
        command == Command::Start(path, response),
{
    Command::Start(path, response)
}

/// The request to stop the running recording, answered on `response`.
pub fn stop_command(response: Sender<Result<PathBuf, String>>) -> (command: Command)
    ensures
        command == Command::Stop(response),
{
    Command::Stop(response)
}

/// Where the worker stands between commands and while a capture is opened or
/// closed. Every phase but `Idle` holds the path of the microphone track that
/// the running (or starting, or stopping) recording writes.
#[derive(Debug)]
pub enum WorkerPhase {
    Idle,
    Opening(PathBuf),
    Recording(PathBuf),
    Closing(PathBuf),
}

/// What the worker learns: a command, or the outcome of the capture work it asked for.
pub enum WorkerEvent {
    StartRequested(PathBuf),
    StopRequested,
    CaptureOpened(Result<(), String>),
    CaptureClosed(Result<(), String>),
}

/// What the worker asks its driver to do next. `OpenCapture` asks for a
/// capture into the path that the new `Opening` phase holds.
#[derive(Debug)]
pub enum WorkerAction {
    OpenCapture,
    CloseCapture,
    AnswerStart(Result<(), String>),
    AnswerStop(Result<PathBuf, String>),
}

pub open spec fn already_recording_message() -> Seq<char> {
    "A recording is already in progress"@
}

pub open spec fn nothing_recording_message() -> Seq<char> {
    "No recording is in progress"@
}

pub open spec fn worker_unavailable_message() -> Seq<char> {
    "Audio worker is not available"@
}

pub open spec fn worker_vanished_message() -> Seq<char> {
    "Audio worker stopped unexpectedly"@
}

/// A phase in which the worker waits for the next command.
pub open spec fn is_settled(phase: WorkerPhase) -> bool {
    phase is Idle || phase is Recording
}

/// Which events the worker can receive in a phase: commands while settled,
/// and the outcome of the capture work while it is opening or closing one.
pub open spec fn event_fits(phase: WorkerPhase, event: WorkerEvent) -> bool {
    match event {
        WorkerEvent::StartRequested(_) => is_settled(phase),
        WorkerEvent::StopRequested => is_settled(phase),
        WorkerEvent::CaptureOpened(_) => phase is Opening,
        WorkerEvent::CaptureClosed(_) => phase is Closing,
    }
}

/// The phase the worker moves to from `phase` on `event`.
pub open spec fn next_phase(phase: WorkerPhase, event: WorkerEvent) -> WorkerPhase {
    match event {
        WorkerEvent::StartRequested(path) => if phase is Recording {
            phase
        } else {
            WorkerPhase::Opening(path)
        },
        WorkerEvent::StopRequested => match phase {
            WorkerPhase::Recording(path) => WorkerPhase::Closing(path),
            _ => phase,
        },
        WorkerEvent::CaptureOpened(outcome) => if outcome is Ok && phase is Opening {
            WorkerPhase::Recording(phase->Opening_0)
        } else {
            WorkerPhase::Idle
        },
        WorkerEvent::CaptureClosed(_) => WorkerPhase::Idle,
    }
}

/// What the worker asks for when it receives `event` in `phase`.
pub open spec fn action_fits(phase: WorkerPhase, event: WorkerEvent, action: WorkerAction) -> bool {
    match event {
        WorkerEvent::StartRequested(_) => if phase is Recording {
            &&& action matches WorkerAction::AnswerStart(Err(message))
            &&& message@ == already_recording_message()
        } else {
            action is OpenCapture
        },
        WorkerEvent::StopRequested => if phase is Recording {
            action is CloseCapture
        } else {
            &&& action matches WorkerAction::AnswerStop(Err(message))
            &&& message@ == nothing_recording_message()
        },
        WorkerEvent::CaptureOpened(outcome) => action == WorkerAction::AnswerStart(outcome),
        WorkerEvent::CaptureClosed(outcome) => match outcome {
            Ok(_) => action == WorkerAction::AnswerStop(Ok(phase->Closing_0)),
            Err(error) => action == WorkerAction::AnswerStop(Err(error)),
        },
    }
}

/// The worker's transition relation: from `phase`, on `event`, the worker
/// moves to `next` and asks for `action`.
pub open spec fn worker_moves(
    phase: WorkerPhase,
    event: WorkerEvent,
    next: WorkerPhase,
    action: WorkerAction,
) -> bool {
    next == next_phase(phase, event) && action_fits(phase, event, action)
}

/// One step of the recording worker.
///
/// A start is refused while a recording runs, and a stop while none does;
/// otherwise the worker asks for the capture to be opened or closed and, once
/// told the outcome, answers the command with it. A stop that closes the
/// capture is answered with the path the recording was started with. A
/// closed capture always leaves the worker idle, whether closing it
/// succeeded or not.
pub fn worker_step(phase: WorkerPhase, event: WorkerEvent) -> (r: (WorkerPhase, WorkerAction))
    requires
        event_fits(phase, event),
    ensures
        worker_moves(phase, event, r.0, r.1),
{
    match event {
        WorkerEvent::StartRequested(path) => match phase {
            WorkerPhase::Recording(started) => (
                WorkerPhase::Recording(started),
                WorkerAction::AnswerStart(Err(String::from_str("A recording is already in progress"))),
            ),
            _ => (WorkerPhase::Opening(path), WorkerAction::OpenCapture),
        },
        WorkerEvent::StopRequested => match phase {
            WorkerPhase::Recording(started) => (WorkerPhase::Closing(started), WorkerAction::CloseCapture),
            other => (
                other,
                WorkerAction::AnswerStop(Err(String::from_str("No recording is in progress"))),
            ),
        },
        WorkerEvent::CaptureOpened(outcome) => match phase {
            WorkerPhase::Opening(path) => if outcome.is_ok() {
                (WorkerPhase::Recording(path), WorkerAction::AnswerStart(outcome))
            } else {
                (WorkerPhase::Idle, WorkerAction::AnswerStart(outcome))
            },
            _ => (WorkerPhase::Idle, WorkerAction::AnswerStart(outcome)),
        },
        WorkerEvent::CaptureClosed(outcome) => match phase {
            WorkerPhase::Closing(path) => match outcome {
                Ok(()) => (WorkerPhase::Idle, WorkerAction::AnswerStop(Ok(path))),
                Err(error) => (WorkerPhase::Idle, WorkerAction::AnswerStop(Err(error))),
            },
            _ => (WorkerPhase::Idle, WorkerAction::CloseCapture),
        },
    }
}

/// Whether an action answers the command that caused it.
pub open spec fn is_answer(action: WorkerAction) -> bool {
    action is AnswerStart || action is AnswerStop
}

/// Whether an event is a command from the controller.
pub open spec fn is_command(event: WorkerEvent) -> bool {
    event is StartRequested || event is StopRequested
}

/// Every command is answered: from a phase that waits for commands, a command
/// either is answered at once, or asks for capture work whose reported
/// outcome, whatever it is, is then answered; either way the worker waits for
/// commands again afterwards.
pub proof fn lemma_every_command_is_answered(
    phase: WorkerPhase,
    command: WorkerEvent,
    next: WorkerPhase,
    action: WorkerAction,
    report: WorkerEvent,
    last: WorkerPhase,
    answer: WorkerAction,
)
    requires
        is_settled(phase),
        is_command(command),
        worker_moves(phase, command, next, action),
        !is_answer(action) ==> event_fits(next, report) && worker_moves(next, report, last, answer),
    ensures
        is_answer(action) ==> is_settled(next) && next == phase,
        !is_answer(action) ==> is_settled(last) && is_answer(answer),
{
}

/// A refused command leaves the worker as it was: a start while recording
/// keeps the recording, and a stop while idle keeps the worker idle.
pub proof fn lemma_refusals_change_nothing(
    phase: WorkerPhase,
    command: WorkerEvent,
    next: WorkerPhase,
    action: WorkerAction,
)
    requires
        is_settled(phase),
        is_command(command),
        worker_moves(phase, command, next, action),
        action matches WorkerAction::AnswerStart(Err(_)) || action matches WorkerAction::AnswerStop(Err(_)),
    ensures
        next == phase,
        phase is Recording <==> command is StartRequested,
{
}

/// A stop of a running recording always ends with the worker idle; the
/// caller gets the path the recording was started with when closing the
/// capture succeeded, and the closing error otherwise.
pub proof fn lemma_stop_answers_started_path(
    path: PathBuf,
    outcome: Result<(), String>,
    next: WorkerPhase,
    action: WorkerAction,
    last: WorkerPhase,
    answer: WorkerAction,
)
    requires
        worker_moves(WorkerPhase::Recording(path), WorkerEvent::StopRequested, next, action),
        worker_moves(next, WorkerEvent::CaptureClosed(outcome), last, answer),
    ensures
        next == WorkerPhase::Closing(path),
        action is CloseCapture,
        last is Idle,
        outcome is Ok ==> answer == WorkerAction::AnswerStop(Ok(path)),
        outcome matches Err(error) ==> answer == WorkerAction::AnswerStop(Err(error)),
{
}

/// A start from idle asks to capture into exactly the requested path, and the
/// worker records into that path afterwards exactly when opening the capture
/// succeeded; otherwise it is idle again.
pub proof fn lemma_start_records_iff_capture_opens(
    path: PathBuf,
    outcome: Result<(), String>,
    next: WorkerPhase,
    action: WorkerAction,
    last: WorkerPhase,
    answer: WorkerAction,
)
    requires
        worker_moves(WorkerPhase::Idle, WorkerEvent::StartRequested(path), next, action),
        worker_moves(next, WorkerEvent::CaptureOpened(outcome), last, answer),
    ensures
        next == WorkerPhase::Opening(path),
        action is OpenCapture,
        outcome is Ok ==> last == WorkerPhase::Recording(path),
        outcome is Err ==> last is Idle,
        answer == WorkerAction::AnswerStart(outcome),
{
}

/// A whole session from idle, in which the capture opens and closes without
/// error, answers the start with success and the stop with the very path
/// the start asked for, and leaves the worker idle.
pub proof fn lemma_session_answers_started_path(
    path: PathBuf,
    opening: WorkerPhase,
    open: WorkerAction,
    recording: WorkerPhase,
    started: WorkerAction,
    closing: WorkerPhase,
    close: WorkerAction,
    last: WorkerPhase,
    stopped: WorkerAction,
)
    requires
        worker_moves(WorkerPhase::Idle, WorkerEvent::StartRequested(path), opening, open),
        worker_moves(opening, WorkerEvent::CaptureOpened(Ok(())), recording, started),
        worker_moves(recording, WorkerEvent::StopRequested, closing, close),
        worker_moves(closing, WorkerEvent::CaptureClosed(Ok(())), last, stopped),
    ensures
        started == WorkerAction::AnswerStart(Ok(())),
        last is Idle,
        stopped == WorkerAction::AnswerStop(Ok(path)),
{
}

/// The phase reached from `phase` after the events in order.
pub open spec fn phase_after(phase: WorkerPhase, events: Seq<WorkerEvent>) -> WorkerPhase
    decreases events.len(),
{
    if events.len() == 0 {
        phase
    } else {
        next_phase(phase_after(phase, events.drop_last()), events.last())
    }
}

/// Whether each event fits the phase reached just before it.
pub open spec fn runs_through(phase: WorkerPhase, events: Seq<WorkerEvent>) -> bool
    decreases events.len(),
{
    events.len() == 0 || (runs_through(phase, events.drop_last()) && event_fits(
        phase_after(phase, events.drop_last()),
        events.last(),
    ))
}

/// Whether some capture was reported opened successfully among the events.
pub open spec fn some_capture_opened(events: Seq<WorkerEvent>) -> bool {
    exists|i: int| 0 <= i < events.len() && (#[trigger] events[i]) matches WorkerEvent::CaptureOpened(Ok(_))
}

/// Without a successful open, the worker never records: from idle, any
/// history in which no capture opened leaves it idle or opening, and idle
/// whenever it waits for a command, so a stop then is refused with
/// "No recording is in progress".
pub proof fn lemma_no_open_no_recording(events: Seq<WorkerEvent>)
    requires
        runs_through(WorkerPhase::Idle, events),
        !some_capture_opened(events),
    ensures
        phase_after(WorkerPhase::Idle, events) is Idle || phase_after(WorkerPhase::Idle, events) is Opening,
        is_settled(phase_after(WorkerPhase::Idle, events)) ==> phase_after(WorkerPhase::Idle, events) is Idle,
        forall|next: WorkerPhase, action: WorkerAction|
            is_settled(phase_after(WorkerPhase::Idle, events)) && #[trigger] worker_moves(
                phase_after(WorkerPhase::Idle, events),
                WorkerEvent::StopRequested,
                next,
                action,
            ) ==> (action matches WorkerAction::AnswerStop(Err(message))
                && message@ == nothing_recording_message()),
    decreases events.len(),
{
    if events.len() > 0 {
        let prefix = events.drop_last();
        assert forall|i: int| 0 <= i < prefix.len() implies !((#[trigger] prefix[i]) matches WorkerEvent::CaptureOpened(Ok(_))) by {
            assert(prefix[i] == events[i]);
        }
        lemma_no_open_no_recording(prefix);
        assert(!(events[events.len() - 1] matches WorkerEvent::CaptureOpened(Ok(_))));
    }
}

/// The path a phase holds, if any.
pub open spec fn phase_path(phase: WorkerPhase) -> Option<PathBuf> {
    match phase {
        WorkerPhase::Idle => None,
        WorkerPhase::Opening(path) => Some(path),
        WorkerPhase::Recording(path) => Some(path),
        WorkerPhase::Closing(path) => Some(path),
    }
}

/// The path a recording writes, and so the path a successful stop answers
/// with, is always one that a start command asked for.
pub proof fn lemma_recorded_path_was_requested(events: Seq<WorkerEvent>)
    requires
        runs_through(WorkerPhase::Idle, events),
    ensures
        phase_path(phase_after(WorkerPhase::Idle, events)) matches Some(path) ==> exists|i: int|
            0 <= i < events.len() && #[trigger] events[i] == WorkerEvent::StartRequested(path),
    decreases events.len(),
{
    if events.len() > 0 {
        let prefix = events.drop_last();
        lemma_recorded_path_was_requested(prefix);
        let before = phase_after(WorkerPhase::Idle, prefix);
        let after = phase_after(WorkerPhase::Idle, events);
        if let Some(path) = phase_path(after) {
            if events.last() == WorkerEvent::StartRequested(path) {
                assert(events[events.len() - 1] == WorkerEvent::StartRequested(path));
            } else {
                assert(phase_path(before) == Some(path));
                let i = choose|i: int| 0 <= i < prefix.len() && #[trigger] prefix[i] == WorkerEvent::StartRequested(path);
                assert(events[i] == prefix[i]);
            }
        }
    }
}

/// The answer a caller of the worker gets: the worker's own answer when the
/// command was delivered and answered, else the error that says which part
/// of the exchange failed.
pub open spec fn settles_to<T>(delivered: bool, answer: Option<Result<T, String>>, r: Result<T, String>) -> bool {
    if !delivered {
        r matches Err(message) && message@ == worker_unavailable_message()
    } else {
        match answer {
            Some(reply) => r == reply,
            None => r matches Err(message) && message@ == worker_vanished_message(),
        }
    }
}

/// Turns the outcome of one exchange with the worker into the caller's result.
pub fn settle_reply<T>(delivered: bool, answer: Option<Result<T, String>>) -> (r: Result<T, String>)
    ensures
        settles_to(delivered, answer, r),
{
    if !delivered {
        return Err(String::from_str("Audio worker is not available"));
    }
    match answer {
        Some(reply) => reply,
        None => Err(String::from_str("Audio worker stopped unexpectedly")),
    }
}

/// Opens a fresh channel (`std::sync::mpsc::channel`). Nothing is claimed of
/// the two ends beyond their types.
#[verifier::external_body]
fn open_channel<T>() -> (Sender<T>, Receiver<T>) {
    std::sync::mpsc::channel()
}

/// Hands `value` to the receiving end (`Sender::send`). Whether it arrives
/// depends on whether another thread still holds that end, so nothing is
/// claimed of the result.
#[verifier::external_body]
fn deliver<T>(sender: &Sender<T>, value: T) -> bool {
    sender.send(value).is_ok()
}

/// Waits for the next value on the channel (`Receiver::recv`); `None` when
/// every sender has gone. What arrives is up to other threads, so nothing is
/// claimed of it.
#[verifier::external_body]
fn await_value<T>(receiver: &Receiver<T>) -> Option<T> {
    receiver.recv().ok()
}

/// `sender` and `receiver` are the two ends of one channel that the
/// controller opened for a reply.
pub closed spec fn opened_together<T>(sender: Sender<T>, receiver: Receiver<T>) -> bool {
    call_ensures(open_channel::<T>, (), (sender, receiver))
}

/// Handing `command` to `commands` returned `delivered`.
pub closed spec fn handed_over(commands: Sender<Command>, command: Command, delivered: bool) -> bool {
    call_ensures(deliver::<Command>, (&commands, command), delivered)
}

/// Waiting on `receiver` returned `answer`: the reply that arrived, or
/// `None` when the other end went away first.
pub closed spec fn received<T>(receiver: Receiver<T>, answer: Option<T>) -> bool {
    call_ensures(await_value::<T>, (&receiver,), answer)
}

/// One exchange of `command_for(reply channel)` with the worker behind
/// `commands` ended in `r`: a fresh reply channel was opened, the command
/// carrying its sending end was handed over, the reply (if the command was
/// delivered) was awaited on its receiving end, and `r` is what
/// [`settle_reply`] makes of that.
pub open spec fn exchanged<T>(
    commands: Sender<Command>,
    command_for: spec_fn(Sender<Result<T, String>>) -> Command,
    r: Result<T, String>,
) -> bool {
    exists|sender: Sender<Result<T, String>>, receiver: Receiver<Result<T, String>>, delivered: bool, answer: Option<Result<T, String>>|
        #![trigger opened_together(sender, receiver), handed_over(commands, command_for(sender), delivered), settles_to(delivered, answer, r)]
        opened_together(sender, receiver)
        && handed_over(commands, command_for(sender), delivered)
        && (delivered ==> received(receiver, answer))
        && (!delivered ==> answer is None)
        && settles_to(delivered, answer, r)
}

/// The start command into `path`, for a given reply channel.
pub open spec fn start_request(path: PathBuf) -> spec_fn(Sender<Result<(), String>>) -> Command {
    |reply_to: Sender<Result<(), String>>| Command::Start(path, reply_to)
}

/// The stop command, for a given reply channel.
pub open spec fn stop_request() -> spec_fn(Sender<Result<PathBuf, String>>) -> Command {
    |reply_to: Sender<Result<PathBuf, String>>| Command::Stop(reply_to)
}

/// Whether `r` is one of the errors the controller makes up itself, rather
/// than an answer of the worker.
pub open spec fn is_exchange_failure<T>(r: Result<T, String>) -> bool {
    r matches Err(message) && (message@ == worker_unavailable_message() || message@ == worker_vanished_message())
}

/// The controller reports only what the worker answered: any result other
/// than its own two exchange errors (in particular any success) is exactly
/// the reply received on the channel whose sending end went to the worker
/// with the delivered command.
pub proof fn lemma_exchange_reports_the_reply<T>(
    commands: Sender<Command>,
    command_for: spec_fn(Sender<Result<T, String>>) -> Command,
    r: Result<T, String>,
)
    requires
        exchanged(commands, command_for, r),
    ensures
        !is_exchange_failure(r) ==> exists|sender: Sender<Result<T, String>>, receiver: Receiver<Result<T, String>>|
            #![trigger opened_together(sender, receiver), handed_over(commands, command_for(sender), true)]
            opened_together(sender, receiver)
            && handed_over(commands, command_for(sender), true)
            && received(receiver, Some(r)),
        r is Ok ==> !is_exchange_failure(r),
{
    let (sender, receiver, delivered, answer) = choose|sender: Sender<Result<T, String>>, receiver: Receiver<Result<T, String>>, delivered: bool, answer: Option<Result<T, String>>|
        opened_together(sender, receiver)
        && handed_over(commands, command_for(sender), delivered)
        && (delivered ==> received(receiver, answer))
        && (!delivered ==> answer is None)
        && settles_to(delivered, answer, r);
    if !is_exchange_failure(r) {
        assert(delivered && answer == Some(r));
        assert(handed_over(commands, command_for(sender), true));
    }
}

/// A start through the controller succeeds only when the worker answered
/// success to that very start command (carrying `path`) on the reply
/// channel it was sent with; a refusal from the worker, such as "A
/// recording is already in progress", comes back unchanged.
pub proof fn lemma_start_reports_the_worker_answer(commands: Sender<Command>, path: PathBuf, r: Result<(), String>)
    requires
        exchanged(commands, start_request(path), r),
    ensures
        r is Ok ==> exists|sender: Sender<Result<(), String>>, receiver: Receiver<Result<(), String>>|
            #![trigger opened_together(sender, receiver), handed_over(commands, Command::Start(path, sender), true)]
            opened_together(sender, receiver)
            && handed_over(commands, Command::Start(path, sender), true)
            && received(receiver, Some(r)),
        r is Err && !is_exchange_failure(r) ==> exists|sender: Sender<Result<(), String>>, receiver: Receiver<Result<(), String>>|
            #![trigger opened_together(sender, receiver), handed_over(commands, Command::Start(path, sender), true)]
            opened_together(sender, receiver)
            && handed_over(commands, Command::Start(path, sender), true)
            && received(receiver, Some(r)),
{
    lemma_exchange_reports_the_reply(commands, start_request(path), r);
    if !is_exchange_failure(r) {
        let (sender, receiver) = choose|sender: Sender<Result<(), String>>, receiver: Receiver<Result<(), String>>|
            #![trigger opened_together(sender, receiver), handed_over(commands, start_request(path)(sender), true)]
            opened_together(sender, receiver)
            && handed_over(commands, start_request(path)(sender), true)
            && received(receiver, Some(r));
        assert(start_request(path)(sender) == Command::Start(path, sender));
    }
}

/// A stop through the controller returns a path only when the worker
/// answered that very path to the stop command on the reply channel it was
/// sent with.
pub proof fn lemma_stop_reports_the_worker_answer(commands: Sender<Command>, r: Result<PathBuf, String>)
    requires
        exchanged(commands, stop_request(), r),
    ensures
        r matches Ok(path) ==> exists|sender: Sender<Result<PathBuf, String>>, receiver: Receiver<Result<PathBuf, String>>|
            #![trigger opened_together(sender, receiver), handed_over(commands, Command::Stop(sender), true)]
            opened_together(sender, receiver)
            && handed_over(commands, Command::Stop(sender), true)
            && received(receiver, Some(Ok(path))),
{
    lemma_exchange_reports_the_reply(commands, stop_request(), r);
    if r is Ok {
        let (sender, receiver) = choose|sender: Sender<Result<PathBuf, String>>, receiver: Receiver<Result<PathBuf, String>>|
            #![trigger opened_together(sender, receiver), handed_over(commands, stop_request()(sender), true)]
            opened_together(sender, receiver)
            && handed_over(commands, stop_request()(sender), true)
            && received(receiver, Some(r));
        assert(stop_request()(sender) == Command::Stop(sender));
    }
}

/// The handle through which the rest of the program starts and stops recordings.
pub struct RecordingController {
    commands: Sender<Command>,
    level: SharedLevel,
}

impl RecordingController {
    /// The channel on which the controller sends its commands.
    pub closed spec fn command_channel(&self) -> Sender<Command> {
        self.commands
    }

    /// The level shared with the worker.
    pub closed spec fn shared_level(&self) -> SharedLevel {
        self.level
    }

    /// A controller that sends its commands to the worker listening on the
    /// other end of `commands`, and shares `level` with it.
    pub fn new(commands: Sender<Command>, level: SharedLevel) -> (controller: Self)
        ensures
            controller.command_channel() == commands,
            controller.shared_level() == level,
    {
        RecordingController { commands, level }
    }

    /// The input level that the worker's captures update.
    pub fn level_handle(&self) -> (level: &SharedLevel)
        ensures
            *level == self.shared_level(),
    {
        &self.level
    }

    /// Asks the worker to start recording to `path`: sends it
    /// [`start_command`] with the sending end of a fresh reply channel, waits
    /// on that channel's receiving end, and returns [`settle_reply`] of how
    /// the exchange went. What the worker answers comes from another thread;
    /// the contract ties the result to that answer.
    pub fn start(&self, path: PathBuf) -> (r: Result<(), String>)
        ensures
            exchanged(self.command_channel(), start_request(path), r),
    {
        let open = open_channel::<Result<(), String>>;
        let (response, receiver) = open();
        let ghost reply_to = response;
        let command = start_command(path, response);
        let hand = deliver::<Command>;
        let delivered = hand(&self.commands, command);
        let wait = await_value::<Result<(), String>>;
        let answer = if delivered { wait(&receiver) } else { None };
        let ghost got = answer;
        let r = settle_reply(delivered, answer);
        proof {
            let command_for = start_request(path);
            assert(command_for(reply_to) == Command::Start(path, reply_to));
            assert(opened_together(reply_to, receiver));
            assert(handed_over(self.command_channel(), command_for(reply_to), delivered));
            assert(delivered ==> received(receiver, got));
        }
        r
    }

    /// Asks the worker to stop the running recording: sends it
    /// [`stop_command`] with the sending end of a fresh reply channel, waits
    /// on that channel's receiving end, and returns [`settle_reply`] of how
    /// the exchange went. On success the worker answers with the path the
    /// recording was started with.
    pub fn stop(&self) -> (r: Result<PathBuf, String>)
        ensures
            exchanged(self.command_channel(), stop_request(), r),
    {
        let open = open_channel::<Result<PathBuf, String>>;
        let (response, receiver) = open();
        let ghost reply_to = response;
        let command = stop_command(response);
        let hand = deliver::<Command>;
        let delivered = hand(&self.commands, command);
        let wait = await_value::<Result<PathBuf, String>>;
        let answer = if delivered { wait(&receiver) } else { None };
        let ghost got = answer;
        let r = settle_reply(delivered, answer);
        proof {
            let command_for = stop_request();
            assert(command_for(reply_to) == Command::Stop(reply_to));
            assert(opened_together(reply_to, receiver));
            assert(handed_over(self.command_channel(), command_for(reply_to), delivered));
            assert(delivered ==> received(receiver, got));
        }
        r
    }
}

} // verus!
