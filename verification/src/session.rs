//! The duplex session: the state machine that paces one window of audio
//! after another between the devices and the connection.
//!
//! The machine decides; its caller acts. Each call of
//! [`DuplexSession::step`] takes the event that the last action ended in
//! and answers with the next action. Reading, writing, sleeping and the
//! audio streams themselves stay with the caller.

use vstd::prelude::*;
use crate::codec::{buffer_to_audio_data, decoded};
use crate::error::ErrorKind;
use crate::format::{AudioFormat, WindowDuration};
use crate::transport::{ReadOutcome, SendOutcome};

verus! {

/// Where a session stands in its life.
#[derive(Clone, Copy, Debug, PartialEq, Eq, Structural)]
pub enum Phase {
    /// Built, not yet started.
    Idle,
    /// Running the window loop.
    Streaming,
    /// Stopping the audio streams and closing the connection.
    Closing,
    /// Over.
    Closed,
}

/// What the window loop is waiting for while the session streams.
#[derive(Clone, Copy, Debug, PartialEq, Eq, Structural)]
pub enum Stage {
    /// The connection is being put into non-blocking mode.
    Configuring,
    /// A read of up to one frame is under way.
    Reading,
    /// The received block is being queued and the streams are being started.
    Starting,
    /// The window is elapsing.
    Waiting,
    /// The captured block is being sent.
    Sending,
}

/// Everything a session knows.
#[derive(Clone, Copy, Debug, PartialEq, Eq)]
pub struct SessionState {
    pub format: AudioFormat,
    pub window: WindowDuration,
    /// Bytes of one frame.
    pub frame_len: usize,
    pub phase: Phase,
    /// Meaningful while the phase is `Streaming`.
    pub stage: Stage,
    /// Whether the capture and playback streams have been started.
    pub streams_running: bool,
    /// The failure that ends the session, once there is one.
    pub error: Option<ErrorKind>,
}

/// What the caller reports back to the session.
#[derive(Debug, PartialEq, Eq)]
pub enum Event {
    /// The devices and the connection are open: begin.
    Start,
    /// Whether the connection could be put into non-blocking mode.
    TransportReady(bool),
    /// How the read went.
    Read(ReadOutcome),
    /// Whether both audio streams are running.
    StreamsStarted(bool),
    /// The window's sleep is over.
    WindowElapsed,
    /// How sending the captured block went.
    Sent(SendOutcome),
    /// The session is asked to stop.
    Cancel,
    /// The audio streams have stopped and the connection is closed.
    Stopped,
}

/// What the session asks its caller to do next.
#[derive(Debug, PartialEq, Eq)]
pub enum Action {
    /// Put the connection into non-blocking mode; answer `TransportReady`.
    SetNonBlocking,
    /// Read at most `max_bytes` bytes without blocking; answer `Read`.
    Read { max_bytes: usize },
    /// Queue `block` for playback and, if `start_streams`, start the capture
    /// and playback streams; answer `StreamsStarted`. `missing` counts the
    /// bytes by which the read fell short of a frame: the output callback
    /// fills that span with silence. `notice` is `DecodeMismatch` where the
    /// read brought something other than one frame; it is there to be
    /// logged, and ends nothing.
    Play {
        block: Vec<u32>,
        start_streams: bool,
        missing: usize,
        notice: Option<ErrorKind>,
    },
    /// Sleep for the window; answer `WindowElapsed`, or `Cancel`.
    Sleep { seconds: u32 },
    /// Take the captured block, condition, encode and write it; answer `Sent`.
    Drain,
    /// Stop both audio streams and close the connection; answer `Stopped`.
    Teardown,
    /// Stop both audio streams and return `cause` at once.
    Abort { cause: ErrorKind },
    /// Return: the session is over, with `error` if it failed.
    Finish { error: Option<ErrorKind> },
    /// The event does not fit the state; nothing changes.
    Ignore,
}

/// An action with its block as a sequence.
pub enum ActionView {
    SetNonBlocking,
    Read { max_bytes: usize },
    Play {
        block: Seq<u32>,
        start_streams: bool,
        missing: usize,
        notice: Option<ErrorKind>,
    },
    Sleep { seconds: u32 },
    Drain,
    Teardown,
    Abort { cause: ErrorKind },
    Finish { error: Option<ErrorKind> },
    Ignore,
}

impl View for Action {
    type V = ActionView;

    open spec fn view(&self) -> ActionView {
        match self {
            Action::SetNonBlocking => ActionView::SetNonBlocking,
            Action::Read { max_bytes } => ActionView::Read { max_bytes: *max_bytes },
            Action::Play { block, start_streams, missing, notice } => ActionView::Play {
                block: block@,
                start_streams: *start_streams,
                missing: *missing,
                notice: *notice,
            },
            Action::Sleep { seconds } => ActionView::Sleep { seconds: *seconds },
            Action::Drain => ActionView::Drain,
            Action::Teardown => ActionView::Teardown,
            Action::Abort { cause } => ActionView::Abort { cause: *cause },
            Action::Finish { error } => ActionView::Finish { error: *error },
            Action::Ignore => ActionView::Ignore,
        }
    }
}

/// Whether a session can be built: the capture format is sound, the
/// playback device runs the same one, the window is not empty, and a frame
/// fits the machine's word.
pub open spec fn can_open(
    capture: AudioFormat,
    playback: AudioFormat,
    window: WindowDuration,
) -> bool {
    &&& capture.valid()
    &&& capture == playback
    &&& window.valid()
    &&& capture.frame_bytes(window) <= usize::MAX
}

/// The state of a session that has just been built.
pub open spec fn initial(format: AudioFormat, window: WindowDuration) -> SessionState {
    SessionState {
        format,
        window,
        frame_len: format.frame_bytes(window) as usize,
        phase: Phase::Idle,
        stage: Stage::Configuring,
        streams_running: false,
        error: None,
    }
}

/// The part of a read that is played: all of it, or its first frame's worth
/// if it is longer than a frame.
pub open spec fn frame_part(bytes: Seq<u8>, frame_len: usize) -> Seq<u8> {
    if bytes.len() <= frame_len {
        bytes
    } else {
        bytes.take(frame_len as int)
    }
}

/// Whether a read brought something other than one frame. A read that
/// brought nothing is no mismatch: there was nothing to decode.
pub open spec fn mismatched(bytes: Seq<u8>, frame_len: usize) -> bool {
    bytes.len() > 0 && bytes.len() != frame_len
}

/// The orderly way out: stop the streams, close the connection, remember
/// why.
pub open spec fn closing(s: SessionState, error: Option<ErrorKind>) -> (SessionState, ActionView) {
    (SessionState { phase: Phase::Closing, error, ..s }, ActionView::Teardown)
}

/// The way out when the connection is broken: straight to the end.
pub open spec fn aborted(s: SessionState, error: ErrorKind) -> (SessionState, ActionView) {
    (
        SessionState { phase: Phase::Closed, streams_running: false, error: Some(error), ..s },
        ActionView::Abort { cause: error },
    )
}

/// The next read of the window loop.
pub open spec fn reading(s: SessionState) -> (SessionState, ActionView) {
    (SessionState { stage: Stage::Reading, ..s }, ActionView::Read { max_bytes: s.frame_len })
}

/// Queueing what a read brought.
pub open spec fn playing(s: SessionState, bytes: Seq<u8>) -> (SessionState, ActionView) {
    (
        SessionState { stage: Stage::Starting, ..s },
        ActionView::Play {
            block: decoded(frame_part(bytes, s.frame_len)),
            start_streams: !s.streams_running,
            missing: (s.frame_len - frame_part(bytes, s.frame_len).len()) as usize,
            notice: if mismatched(bytes, s.frame_len) {
                Some(ErrorKind::DecodeMismatch)
            } else {
                None
            },
        },
    )
}

/// The step of a streaming session.
pub open spec fn streaming(s: SessionState, event: Event) -> (SessionState, ActionView) {
    match (s.stage, event) {
        (_, Event::Cancel) => closing(s, None),
        (Stage::Configuring, Event::TransportReady(ready)) => if ready {
            reading(s)
        } else {
            aborted(s, ErrorKind::TransportIOError)
        },
        (Stage::Reading, Event::Read(outcome)) => match outcome {
            ReadOutcome::Data(bytes) => playing(s, bytes@),
            ReadOutcome::WouldBlock => playing(s, Seq::empty()),
            ReadOutcome::Closed => closing(s, Some(ErrorKind::TransportClosed)),
            ReadOutcome::Failed => aborted(s, ErrorKind::TransportIOError),
        },
        (Stage::Starting, Event::StreamsStarted(started)) => if started {
            (
                SessionState { stage: Stage::Waiting, streams_running: true, ..s },
                ActionView::Sleep { seconds: s.window.seconds },
            )
        } else {
            closing(s, Some(ErrorKind::DeviceSetupError))
        },
        (Stage::Waiting, Event::WindowElapsed) => (
            SessionState { stage: Stage::Sending, ..s },
            ActionView::Drain,
        ),
        (Stage::Sending, Event::Sent(outcome)) => match outcome {
            SendOutcome::Nothing | SendOutcome::Complete | SendOutcome::Abandoned => reading(s),
            SendOutcome::Closed => closing(s, Some(ErrorKind::TransportClosed)),
            SendOutcome::Failed => aborted(s, ErrorKind::TransportIOError),
        },
        _ => (s, ActionView::Ignore),
    }
}

/// The session's one rule: the state and the action that follow from a
/// state and an event.
pub open spec fn transition(s: SessionState, event: Event) -> (SessionState, ActionView) {
    match s.phase {
        Phase::Idle => match event {
            Event::Start => (
                SessionState { phase: Phase::Streaming, stage: Stage::Configuring, ..s },
                ActionView::SetNonBlocking,
            ),
            Event::Cancel => closing(s, None),
            _ => (s, ActionView::Ignore),
        },
        Phase::Streaming => streaming(s, event),
        Phase::Closing => match event {
            Event::Stopped => (
                SessionState { phase: Phase::Closed, streams_running: false, ..s },
                ActionView::Finish { error: s.error },
            ),
            _ => (s, ActionView::Ignore),
        },
        Phase::Closed => (s, ActionView::Finish { error: s.error }),
    }
}

/// How far along its life a phase is.
pub open spec fn phase_rank(phase: Phase) -> nat {
    match phase {
        Phase::Idle => 0,
        Phase::Streaming => 1,
        Phase::Closing => 2,
        Phase::Closed => 3,
    }
}

/// A session only moves forward: from idle through streaming and closing
/// to closed, never back. Its format, window and frame length never change.
pub proof fn lemma_session_moves_forward(s: SessionState, event: Event)
    ensures
        phase_rank(transition(s, event).0.phase) >= phase_rank(s.phase),
        transition(s, event).0.format == s.format,
        transition(s, event).0.window == s.window,
        transition(s, event).0.frame_len == s.frame_len,
{
}

/// A closed session stays as it is and answers every event with its
/// result.
pub proof fn lemma_closed_is_final(s: SessionState, event: Event)
    requires
        s.phase == Phase::Closed,
    ensures
        transition(s, event) == (s, ActionView::Finish { error: s.error }),
{
}

/// When the connection reports that the peer closed it, during the read or
/// during the send of any window, the session asks for both audio streams
/// to be stopped, and once they have stopped it is closed, its streams are
/// down and its result is `TransportClosed`. No sleep lies in between.
pub proof fn lemma_closed_transport_ends_session(s: SessionState, event: Event)
    requires
        s.phase == Phase::Streaming,
        (s.stage == Stage::Reading && event == Event::Read(ReadOutcome::Closed)) || (s.stage
            == Stage::Sending && event == Event::Sent(SendOutcome::Closed)),
    ensures
        transition(s, event).1 == ActionView::Teardown,
        transition(s, event).0.phase == Phase::Closing,
        transition(transition(s, event).0, Event::Stopped) == (
            SessionState {
                phase: Phase::Closed,
                streams_running: false,
                error: Some(ErrorKind::TransportClosed),
                ..s
            },
            ActionView::Finish { error: Some(ErrorKind::TransportClosed) },
        ),
{
}

/// When the connection is broken, the session is closed at once with
/// `TransportIOError`, and the action it answers with stops the streams.
pub proof fn lemma_broken_transport_ends_session(s: SessionState, event: Event)
    requires
        s.phase == Phase::Streaming,
        (s.stage == Stage::Reading && event == Event::Read(ReadOutcome::Failed)) || (s.stage
            == Stage::Sending && event == Event::Sent(SendOutcome::Failed)) || (s.stage
            == Stage::Configuring && event == Event::TransportReady(false)),
    ensures
        transition(s, event) == (
            SessionState {
                phase: Phase::Closed,
                streams_running: false,
                error: Some(ErrorKind::TransportIOError),
                ..s
            },
            ActionView::Abort { cause: ErrorKind::TransportIOError },
        ),
{
}

/// Once a session is closing, it asks for no more reading, playing,
/// sleeping or sending: an unfinished window is never flushed.
pub proof fn lemma_no_work_after_close(s: SessionState, event: Event)
    requires
        phase_rank(s.phase) >= 2,
    ensures
        phase_rank(transition(s, event).0.phase) >= 2,
        transition(s, event).1 is Finish || transition(s, event).1 is Ignore,
{
}

/// A stop request is honoured wherever the window loop stands.
pub proof fn lemma_cancel_is_always_heard(s: SessionState)
    requires
        phase_rank(s.phase) <= 1,
    ensures
        transition(s, Event::Cancel) == closing(s, None),
        transition(transition(s, Event::Cancel).0, Event::Stopped).1 == (ActionView::Finish {
            error: None,
        }),
{
}

/// Every read asks for exactly one frame, and every sleep lasts exactly one
/// window.
pub proof fn lemma_requests_follow_format(s: SessionState, event: Event)
    ensures
        transition(s, event).1 matches ActionView::Read { max_bytes } ==> max_bytes == s.frame_len,
        transition(s, event).1 matches ActionView::Sleep { seconds } ==> seconds
            == s.window.seconds,
        transition(s, event).1 matches ActionView::Play { block, missing, .. } ==> 4 * block.len()
            + missing <= s.frame_len && missing + 4 * block.len() + 3 >= s.frame_len,
{
}

/// There is one sleep to a window: the event after a sleep leads to the
/// send of that window, to the way out, or to nothing, never to another
/// sleep.
pub proof fn lemma_one_sleep_per_window(s: SessionState, event: Event, after: Event)
    requires
        transition(s, event).1 is Sleep,
    ensures
        transition(s, event).0.phase == Phase::Streaming,
        transition(s, event).0.stage == Stage::Waiting,
        transition(s, event).0.streams_running,
        ({
            let action = transition(transition(s, event).0, after).1;
            action is Drain || action is Teardown || action is Ignore
        }),
{
}

/// Whether `event` is an answer that `action` asks for. A stop request
/// answers every action that asks for work.
pub open spec fn answers(action: ActionView, event: Event) -> bool {
    match action {
        ActionView::SetNonBlocking => event is TransportReady || event is Cancel,
        ActionView::Read { .. } => event is Read || event is Cancel,
        ActionView::Play { .. } => event is StreamsStarted || event is Cancel,
        ActionView::Sleep { .. } => event is WindowElapsed || event is Cancel,
        ActionView::Drain => event is Sent || event is Cancel,
        ActionView::Teardown => event is Stopped,
        ActionView::Abort { .. } | ActionView::Finish { .. } | ActionView::Ignore => false,
    }
}

/// A caller that starts an idle session and then answers each action with
/// an event that the action asks for is never ignored.
pub proof fn lemma_answers_are_heard(s: SessionState, event: Event, answer: Event)
    requires
        answers(transition(s, event).1, answer),
    ensures
        !(transition(transition(s, event).0, answer).1 is Ignore),
        s.phase == Phase::Idle ==> !(transition(s, Event::Start).1 is Ignore),
{
}

/// One duplex session. It is built from the formats of the two devices and
/// the window, and then driven by events.
pub struct DuplexSession {
    state: SessionState,
}

impl View for DuplexSession {
    type V = SessionState;

    closed spec fn view(&self) -> SessionState {
        self.state
    }
}

impl DuplexSession {
    /// Builds an idle session for a capture device of format `capture`, a
    /// playback device of format `playback` and windows of `window`. Fails
    /// with `DeviceSetupError`, and builds nothing, unless the formats are
    /// the same sound format and a frame of the window fits the machine's
    /// word.
    pub fn new(capture: AudioFormat, playback: AudioFormat, window: WindowDuration) -> (r: Result<
        DuplexSession,
        ErrorKind,
    >)
        ensures
            match r {
                Ok(session) => can_open(capture, playback, window) && session@ == initial(
                    capture,
                    window,
                ),
                Err(error) => !can_open(capture, playback, window) && error
                    == ErrorKind::DeviceSetupError,
            },
    {
        if capture.sample_rate == 0 || capture.channel_count == 0 || window.seconds == 0 {
            return Err(ErrorKind::DeviceSetupError);
        }
        if capture.sample_rate != playback.sample_rate || capture.channel_count
            != playback.channel_count {
            return Err(ErrorKind::DeviceSetupError);
        }
        match capture.frame_byte_length(&window) {
            Some(frame_len) => Ok(
                DuplexSession {
                    state: SessionState {
                        format: capture,
                        window,
                        frame_len,
                        phase: Phase::Idle,
                        stage: Stage::Configuring,
                        streams_running: false,
                        error: None,
                    },
                },
            ),
            None => Err(ErrorKind::DeviceSetupError),
        }
    }

    /// The session's state.
    pub fn state(&self) -> (s: SessionState)
        ensures
            s == self@,
    {
        self.state
    }

    /// The session's phase.
    pub fn phase(&self) -> (phase: Phase)
        ensures
            phase == self@.phase,
    {
        self.state.phase
    }

    /// Bytes of one frame.
    pub fn frame_byte_length(&self) -> (n: usize)
        ensures
            n == self@.frame_len,
    {
        self.state.frame_len
    }

    /// Samples of one window: the room a capture buffer needs.
    pub fn window_samples(&self) -> (n: usize)
        ensures
            n == self@.frame_len / 4,
    {
        self.state.frame_len / 4
    }

    /// Takes in `event` and answers with the next action, as
    /// [`transition`] lays down.
    pub fn step(&mut self, event: Event) -> (action: Action)
        ensures
            (final(self)@, action@) == transition(old(self)@, event),
    {
        match self.state.phase {
            Phase::Idle => match event {
                Event::Start => {
                    self.state.phase = Phase::Streaming;
                    self.state.stage = Stage::Configuring;
                    Action::SetNonBlocking
                },
                Event::Cancel => self.close(None),
                _ => Action::Ignore,
            },
            Phase::Streaming => self.stream(event),
            Phase::Closing => match event {
                Event::Stopped => {
                    self.state.phase = Phase::Closed;
                    self.state.streams_running = false;
                    Action::Finish { error: self.state.error }
                },
                _ => Action::Ignore,
            },
            Phase::Closed => Action::Finish { error: self.state.error },
        }
    }

    fn stream(&mut self, event: Event) -> (action: Action)
        requires
            old(self)@.phase == Phase::Streaming,
        ensures
            (final(self)@, action@) == streaming(old(self)@, event),
    {
        match event {
            Event::Cancel => self.close(None),
            Event::TransportReady(ready) => match self.state.stage {
                Stage::Configuring => if ready {
                    self.read()
                } else {
                    self.abort(ErrorKind::TransportIOError)
                },
                _ => Action::Ignore,
            },
            Event::Read(outcome) => match self.state.stage {
                Stage::Reading => match outcome {
                    ReadOutcome::Data(bytes) => self.play(bytes),
                    ReadOutcome::WouldBlock => self.play(Vec::new()),
                    ReadOutcome::Closed => self.close(Some(ErrorKind::TransportClosed)),
                    ReadOutcome::Failed => self.abort(ErrorKind::TransportIOError),
                },
                _ => Action::Ignore,
            },
            Event::StreamsStarted(started) => match self.state.stage {
                Stage::Starting => if started {
                    self.state.stage = Stage::Waiting;
                    self.state.streams_running = true;
                    Action::Sleep { seconds: self.state.window.seconds }
                } else {
                    self.close(Some(ErrorKind::DeviceSetupError))
                },
                _ => Action::Ignore,
            },
            Event::WindowElapsed => match self.state.stage {
                Stage::Waiting => {
                    self.state.stage = Stage::Sending;
                    Action::Drain
                },
                _ => Action::Ignore,
            },
            Event::Sent(outcome) => match self.state.stage {
                Stage::Sending => match outcome {
                    SendOutcome::Nothing => self.read(),
                    SendOutcome::Complete => self.read(),
                    SendOutcome::Abandoned => self.read(),
                    SendOutcome::Closed => self.close(Some(ErrorKind::TransportClosed)),
                    SendOutcome::Failed => self.abort(ErrorKind::TransportIOError),
                },
                _ => Action::Ignore,
            },
            _ => Action::Ignore,
        }
    }

    fn close(&mut self, error: Option<ErrorKind>) -> (action: Action)
        ensures
            (final(self)@, action@) == closing(old(self)@, error),
    {
        self.state.phase = Phase::Closing;
        self.state.error = error;
        Action::Teardown
    }

    fn abort(&mut self, error: ErrorKind) -> (action: Action)
        ensures
            (final(self)@, action@) == aborted(old(self)@, error),
    {
        self.state.phase = Phase::Closed;
        self.state.streams_running = false;
        self.state.error = Some(error);
        Action::Abort { cause: error }
    }

    fn read(&mut self) -> (action: Action)
        ensures
            (final(self)@, action@) == reading(old(self)@),
    {
        self.state.stage = Stage::Reading;
        Action::Read { max_bytes: self.state.frame_len }
    }

    fn play(&mut self, bytes: Vec<u8>) -> (action: Action)
        ensures
            (final(self)@, action@) == playing(old(self)@, bytes@),
    {
        let notice: Option<ErrorKind> = if bytes.len() > 0 && bytes.len()
            != self.state.frame_len {
            Some(ErrorKind::DecodeMismatch)
        } else {
            None
        };
        let mut frame = bytes;
        if frame.len() > self.state.frame_len {
            frame.truncate(self.state.frame_len);
        }
        assert(frame@ =~= frame_part(bytes@, self.state.frame_len));
        let block = buffer_to_audio_data(frame.as_slice());
        let missing: usize = self.state.frame_len - frame.len();
        self.state.stage = Stage::Starting;
        Action::Play { block, start_streams: !self.state.streams_running, missing, notice }
    }
}

} // verus!
