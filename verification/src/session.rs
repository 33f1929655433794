//! The life cycle of a capture session.
//!
//! The session owns no hardware. It decides: for every event it says what
//! state follows and what the owner of the audio device has to do, and the
//! owner reports back what came of it.
//!
//! ```text
//!            Start                StreamOpened            Stop, StreamError
//!   Idle ------------> Starting ----------------> Streaming ------------> Stopped
//!    ^  ^                 |                           |                    |  |
//!    |  +-- StartFailed --+                           |                    |  |
//!    +------------- SelectDevice (another device) ----+                    |  |
//!    +------------------------------ Reset --------------------------------+  |
//!                      Starting <------------------ Start --------------------+
//! ```

use crate::config::StreamFormat;
use vstd::prelude::*;

verus! {

/// Where a session is in its life.
#[derive(Clone, Copy, Debug, PartialEq, Eq, Structural)]
pub enum SessionState {
    /// No hardware stream is open.
    Idle,
    /// The owner is negotiating with the device and opening the stream.
    Starting,
    /// The hardware delivers frames.
    Streaming,
    /// The stream was closed, by the user or after a stream error. Buffers
    /// and history are still there.
    Stopped,
}

/// What went wrong, for the status display.
#[derive(Clone, Copy, Debug, PartialEq, Eq, Structural)]
pub enum SessionError {
    /// No input device is present.
    NoInputDevices,
    /// The selected device does not exist.
    DeviceOutOfRange,
    /// The device has no default input format.
    FormatUnavailable,
    /// The stream could not be built.
    StreamBuildFailed,
    /// The stream was built but would not start.
    StreamStartFailed,
    /// The running stream reported an error.
    StreamFailed,
}

impl SessionState {
    /// The name of the state, for the status display.
    pub open spec fn spec_label(self) -> Seq<char> {
        match self {
            SessionState::Idle => "Idle"@,
            SessionState::Starting => "Starting"@,
            SessionState::Streaming => "Streaming"@,
            SessionState::Stopped => "Stopped"@,
        }
    }

    pub fn label(self) -> (label: &'static str)
        ensures
            label@ == self.spec_label(),
    {
        match self {
            SessionState::Idle => "Idle",
            SessionState::Starting => "Starting",
            SessionState::Streaming => "Streaming",
            SessionState::Stopped => "Stopped",
        }
    }
}

impl SessionError {
    /// The text of the error, for the status display.
    pub open spec fn spec_message(self) -> Seq<char> {
        match self {
            SessionError::NoInputDevices => "no input device found"@,
            SessionError::DeviceOutOfRange => "the selected input device does not exist"@,
            SessionError::FormatUnavailable => "the device has no default input format"@,
            SessionError::StreamBuildFailed => "the input stream could not be built"@,
            SessionError::StreamStartFailed => "the input stream could not be started"@,
            SessionError::StreamFailed => "the input stream failed"@,
        }
    }

    pub fn message(self) -> (message: &'static str)
        ensures
            message@ == self.spec_message(),
    {
        match self {
            SessionError::NoInputDevices => "no input device found",
            SessionError::DeviceOutOfRange => "the selected input device does not exist",
            SessionError::FormatUnavailable => "the device has no default input format",
            SessionError::StreamBuildFailed => "the input stream could not be built",
            SessionError::StreamStartFailed => "the input stream could not be started",
            SessionError::StreamFailed => "the input stream failed",
        }
    }
}

/// What happened.
#[derive(Clone, Copy, Debug, PartialEq, Eq, Structural)]
pub enum SessionEvent {
    /// The user picked input device number `index`.
    SelectDevice { index: usize },
    /// The user asked to start, with `device_count` input devices present.
    Start { device_count: usize },
    /// The stream was opened and started; the device delivers `format`.
    StreamOpened { format: StreamFormat },
    /// The stream could not be opened.
    StartFailed { error: SessionError },
    /// The running stream reported an error.
    StreamError,
    /// The user asked to stop.
    Stop,
    /// The user asked to forget a stopped session.
    Reset,
}

/// What the owner of the audio device has to do next.
#[derive(Clone, Copy, Debug, PartialEq, Eq, Structural)]
pub enum SessionAction {
    /// Nothing.
    Nothing,
    /// Negotiate with input device number `device`, open its stream and
    /// report `StreamOpened` or `StartFailed`.
    OpenStream { device: usize },
    /// Tell the stream to stop and drop its handle.
    CloseStream,
}

/// Everything a session knows.
pub struct SessionView {
    pub state: SessionState,
    /// The input device selected for the next start.
    pub device: usize,
    /// The format of the stream opened last, until the next start.
    pub format: Option<StreamFormat>,
    /// The error reported last, until the next start or reset.
    pub last_error: Option<SessionError>,
}

/// The state that follows `before` on `event`, and what is to be done.
///
/// Events that make no sense in a state leave it as it is. In particular a
/// second `Start` while starting or streaming opens nothing: there is at
/// most one stream.
pub open spec fn transition(before: SessionView, event: SessionEvent) -> (
    SessionView,
    SessionAction,
) {
    match (before.state, event) {
        (SessionState::Idle, SessionEvent::SelectDevice { index })
        | (SessionState::Stopped, SessionEvent::SelectDevice { index }) => (
            SessionView { device: index, ..before },
            SessionAction::Nothing,
        ),
        (SessionState::Streaming, SessionEvent::SelectDevice { index }) => if index
            == before.device {
            (before, SessionAction::Nothing)
        } else {
            (
                SessionView { state: SessionState::Idle, device: index, ..before },
                SessionAction::CloseStream,
            )
        },
        (SessionState::Idle, SessionEvent::Start { device_count })
        | (SessionState::Stopped, SessionEvent::Start { device_count }) => if device_count == 0 {
            (
                SessionView {
                    state: SessionState::Idle,
                    last_error: Some(SessionError::NoInputDevices),
                    ..before
                },
                SessionAction::Nothing,
            )
        } else if before.device >= device_count {
            (
                SessionView {
                    state: SessionState::Idle,
                    last_error: Some(SessionError::DeviceOutOfRange),
                    ..before
                },
                SessionAction::Nothing,
            )
        } else {
            (
                SessionView {
                    state: SessionState::Starting,
                    device: before.device,
                    format: None,
                    last_error: None,
                },
                SessionAction::OpenStream { device: before.device },
            )
        },
        (SessionState::Starting, SessionEvent::StreamOpened { format }) => (
            SessionView { state: SessionState::Streaming, format: Some(format), ..before },
            SessionAction::Nothing,
        ),
        (SessionState::Starting, SessionEvent::StartFailed { error }) => (
            SessionView { state: SessionState::Idle, last_error: Some(error), ..before },
            SessionAction::Nothing,
        ),
        (SessionState::Streaming, SessionEvent::StreamError) => (
            SessionView {
                state: SessionState::Stopped,
                last_error: Some(SessionError::StreamFailed),
                ..before
            },
            SessionAction::CloseStream,
        ),
        (SessionState::Streaming, SessionEvent::Stop) => (
            SessionView { state: SessionState::Stopped, ..before },
            SessionAction::CloseStream,
        ),
        (SessionState::Idle, SessionEvent::Reset) | (SessionState::Stopped, SessionEvent::Reset) => (
            SessionView {
                state: SessionState::Idle,
                device: before.device,
                format: None,
                last_error: None,
            },
            SessionAction::Nothing,
        ),
        _ => (before, SessionAction::Nothing),
    }
}

/// The session after each of `events` in turn.
pub open spec fn run(start: SessionView, events: Seq<SessionEvent>) -> SessionView
    decreases events.len(),
{
    if events.len() == 0 {
        start
    } else {
        transition(run(start, events.drop_last()), events.last()).0
    }
}

/// A streaming session knows the format of its stream.
pub open spec fn consistent(session: SessionView) -> bool {
    session.state is Streaming ==> session.format is Some
}

/// The discipline of the stream handle: a stream is opened only while none
/// is open, and it is closed whenever streaming ends, and only then. So
/// there is never more than one stream, and a session that has stopped has
/// told its stream to stop.
pub proof fn lemma_stream_discipline(before: SessionView, event: SessionEvent)
    ensures
        ({
            let (after, action) = transition(before, event);
            &&& action is OpenStream <==> !(before.state is Starting) && after.state is Starting
            &&& action is OpenStream ==> (before.state is Idle || before.state is Stopped)
                && action->device == before.device
            &&& action is CloseStream <==> before.state is Streaming && !(after.state is Streaming)
            &&& after.state is Streaming ==> before.state is Streaming || (before.state is Starting
                && event is StreamOpened)
            &&& after.state is Stopped ==> before.state is Stopped || before.state is Streaming
            &&& consistent(before) ==> consistent(after)
        }),
{
}

/// Whatever happens to a session that starts out idle, while it streams it
/// knows the format of its stream.
pub proof fn lemma_run_is_consistent(start: SessionView, events: Seq<SessionEvent>)
    requires
        consistent(start),
    ensures
        consistent(run(start, events)),
    decreases events.len(),
{
    if events.len() > 0 {
        lemma_run_is_consistent(start, events.drop_last());
        lemma_stream_discipline(run(start, events.drop_last()), events.last());
    }
}

/// The state machine of one capture session.
#[derive(Clone, Copy, Debug, PartialEq, Eq)]
pub struct CaptureSession {
    state: SessionState,
    device: usize,
    format: Option<StreamFormat>,
    last_error: Option<SessionError>,
}

impl View for CaptureSession {
    type V = SessionView;

    closed spec fn view(&self) -> SessionView {
        SessionView {
            state: self.state,
            device: self.device,
            format: self.format,
            last_error: self.last_error,
        }
    }
}

impl CaptureSession {
    /// An idle session with device 0 selected.
    pub fn new() -> (session: Self)
        ensures
            session@ == (SessionView {
                state: SessionState::Idle,
                device: 0,
                format: None,
                last_error: None,
            }),
    {
        CaptureSession { state: SessionState::Idle, device: 0, format: None, last_error: None }
    }

    pub fn state(&self) -> (state: SessionState)
        ensures
            state == self@.state,
    {
        self.state
    }

    /// The input device selected for the next start.
    pub fn selected_device(&self) -> (device: usize)
        ensures
            device == self@.device,
    {
        self.device
    }

    /// The format of the stream opened last, until the next start.
    pub fn format(&self) -> (format: Option<StreamFormat>)
        ensures
            format == self@.format,
    {
        self.format
    }

    /// The error reported last, until the next start or reset.
    pub fn last_error(&self) -> (error: Option<SessionError>)
        ensures
            error == self@.last_error,
    {
        self.last_error
    }

    /// Takes one event: moves to the state that follows and says what the
    /// owner of the audio device has to do.
    pub fn handle(&mut self, event: SessionEvent) -> (action: SessionAction)
        ensures
            (final(self)@, action) == transition(old(self)@, event),
    {
        match (self.state, event) {
            (SessionState::Idle, SessionEvent::SelectDevice { index })
            | (SessionState::Stopped, SessionEvent::SelectDevice { index }) => {
                self.device = index;
                SessionAction::Nothing
            },
            (SessionState::Streaming, SessionEvent::SelectDevice { index }) => {
                if index == self.device {
                    SessionAction::Nothing
                } else {
                    self.state = SessionState::Idle;
                    self.device = index;
                    SessionAction::CloseStream
                }
            },
            (SessionState::Idle, SessionEvent::Start { device_count })
            | (SessionState::Stopped, SessionEvent::Start { device_count }) => {
                if device_count == 0 {
                    self.state = SessionState::Idle;
                    self.last_error = Some(SessionError::NoInputDevices);
                    SessionAction::Nothing
                } else if self.device >= device_count {
                    self.state = SessionState::Idle;
                    self.last_error = Some(SessionError::DeviceOutOfRange);
                    SessionAction::Nothing
                } else {
                    self.state = SessionState::Starting;
                    self.format = None;
                    self.last_error = None;
                    SessionAction::OpenStream { device: self.device }
                }
            },
            (SessionState::Starting, SessionEvent::StreamOpened { format }) => {
                self.state = SessionState::Streaming;
                self.format = Some(format);
                SessionAction::Nothing
            },
            (SessionState::Starting, SessionEvent::StartFailed { error }) => {
                self.state = SessionState::Idle;
                self.last_error = Some(error);
                SessionAction::Nothing
            },
            (SessionState::Streaming, SessionEvent::StreamError) => {
                self.state = SessionState::Stopped;
                self.last_error = Some(SessionError::StreamFailed);
                SessionAction::CloseStream
            },
            (SessionState::Streaming, SessionEvent::Stop) => {
                self.state = SessionState::Stopped;
                SessionAction::CloseStream
            },
            (SessionState::Idle, SessionEvent::Reset)
            | (SessionState::Stopped, SessionEvent::Reset) => {
                self.state = SessionState::Idle;
                self.format = None;
                self.last_error = None;
                SessionAction::Nothing
            },
            _ => SessionAction::Nothing,
        }
    }

    /// The user asked to start, with `device_count` input devices present.
    pub fn start(&mut self, device_count: usize) -> (action: SessionAction)
        ensures
            (final(self)@, action) == transition(
                old(self)@,
                SessionEvent::Start { device_count },
            ),
    {
        self.handle(SessionEvent::Start { device_count })
    }

    /// The user asked to stop.
    pub fn stop(&mut self) -> (action: SessionAction)
        ensures
            (final(self)@, action) == transition(old(self)@, SessionEvent::Stop),
    {
        self.handle(SessionEvent::Stop)
    }

    /// The user picked input device number `index`.
    pub fn select_device(&mut self, index: usize) -> (action: SessionAction)
        ensures
            (final(self)@, action) == transition(
                old(self)@,
                SessionEvent::SelectDevice { index },
            ),
    {
        self.handle(SessionEvent::SelectDevice { index })
    }
}

} // verus!
