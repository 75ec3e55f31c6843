//! The lifecycle of the session and the transmission gate between capture
//! and network.
//!
//! The controller never touches a device or a socket.  Each command and each
//! report from the tasks around it is one transition; what a transition
//! returns tells the caller which outside work is now due.

use vstd::prelude::*;
use crate::pcm::{frame_bytes, frame_of};

verus! {

/// Where the connection stands.
#[derive(Clone, Copy, Debug, PartialEq, Eq, Structural)]
pub enum Phase {
    /// No session, and none being opened.
    Idle,
    /// A session is being opened.
    Connecting,
    /// A session is open.
    Connected,
}

/// The state of the pipeline as its users see it.
#[derive(Clone, Copy, Debug, PartialEq, Eq, Structural)]
pub enum LifecycleState {
    /// No session.
    Idle,
    /// A session is being opened.
    Connecting,
    /// A session is open and nothing is sent.
    ConnectedPaused,
    /// A session is open and audio is sent.
    ConnectedActive,
}

/// The number after `serial`, going round to zero after the last.
pub open spec fn next_serial(serial: u64) -> u64 {
    if serial == u64::MAX {
        0
    } else {
        (serial + 1) as u64
    }
}

/// What a controller holds: the phase of the connection, the listening flag,
/// and the serial number of the session taken up last.  Every combination of
/// the three is a state the controller can be in.
pub struct ControllerModel {
    pub phase: Phase,
    pub listening: bool,
    pub serial: u64,
}

impl ControllerModel {
    /// The state of a new controller: idle, not listening.
    pub open spec fn initial() -> ControllerModel {
        ControllerModel { phase: Phase::Idle, listening: false, serial: 0 }
    }

    /// The state as users see it.  Without a session the listening flag does
    /// not show.
    pub open spec fn state(self) -> LifecycleState {
        match self.phase {
            Phase::Idle => LifecycleState::Idle,
            Phase::Connecting => LifecycleState::Connecting,
            Phase::Connected => if self.listening {
                LifecycleState::ConnectedActive
            } else {
                LifecycleState::ConnectedPaused
            },
        }
    }

    /// Whether a session is open.
    pub open spec fn has_session(self) -> bool {
        self.phase == Phase::Connected
    }

    /// The serial number of the open session, if there is one.
    pub open spec fn session(self) -> Option<u64> {
        if self.phase == Phase::Connected {
            Some(self.serial)
        } else {
            None
        }
    }

    /// Whether chunks pass: a session is open and the listening flag is set.
    pub open spec fn admits(self) -> bool {
        self.phase == Phase::Connected && self.listening
    }

    /// Whether `initialize` asks for a session to be opened.
    pub open spec fn initialize_opens(self) -> bool {
        self.phase == Phase::Idle
    }

    /// The state after `initialize`.
    pub open spec fn initialize(self) -> ControllerModel {
        if self.phase == Phase::Idle {
            ControllerModel { phase: Phase::Connecting, ..self }
        } else {
            self
        }
    }

    /// The serial number under which a freshly opened session is taken up,
    /// if it is.
    pub open spec fn opened_as(self) -> Option<u64> {
        if self.phase == Phase::Connecting {
            Some(next_serial(self.serial))
        } else {
            None
        }
    }

    /// The state after a session was opened.
    pub open spec fn session_opened(self) -> ControllerModel {
        if self.phase == Phase::Connecting {
            ControllerModel {
                phase: Phase::Connected,
                listening: false,
                serial: next_serial(self.serial),
            }
        } else {
            self
        }
    }

    /// The state after opening a session failed.
    pub open spec fn session_failed(self) -> ControllerModel {
        if self.phase == Phase::Connecting {
            ControllerModel { phase: Phase::Idle, ..self }
        } else {
            self
        }
    }

    /// The state after `start`.
    pub open spec fn start(self) -> ControllerModel {
        ControllerModel { listening: true, ..self }
    }

    /// Whether `stop` has a session to close.
    pub open spec fn stop_closes(self) -> bool {
        self.phase == Phase::Connected
    }

    /// The state after `stop`.
    pub open spec fn stop(self) -> ControllerModel {
        ControllerModel { phase: Phase::Idle, listening: false, ..self }
    }

    /// Whether the end of session `serial` concerns this state: it is the
    /// session that is open.
    pub open spec fn ended_drops(self, serial: u64) -> bool {
        self.phase == Phase::Connected && self.serial == serial
    }

    /// The state after session `serial` ended from the far side or by a
    /// failure.
    pub open spec fn session_ended(self, serial: u64) -> ControllerModel {
        if self.ended_drops(serial) {
            ControllerModel { phase: Phase::Idle, listening: false, ..self }
        } else {
            self
        }
    }

    /// The frame that goes to the network for a chunk, if any.  A chunk that
    /// does not pass is dropped: nothing of it is kept.
    pub open spec fn forwards(self, chunk: Seq<i16>) -> Option<Seq<u8>> {
        if self.admits() {
            Some(frame_of(chunk))
        } else {
            None
        }
    }
}

/// The lifecycle controller.
#[derive(Clone, Copy, Debug)]
pub struct Controller {
    phase: Phase,
    listening: bool,
    serial: u64,
}

impl View for Controller {
    type V = ControllerModel;

    closed spec fn view(&self) -> ControllerModel {
        ControllerModel { phase: self.phase, listening: self.listening, serial: self.serial }
    }
}

impl Controller {
    /// A controller with no session and the listening flag cleared.
    pub fn new() -> (controller: Controller)
        ensures
            controller@ == ControllerModel::initial(),
    {
        Controller { phase: Phase::Idle, listening: false, serial: 0 }
    }

    /// The current state.
    pub fn state(&self) -> (state: LifecycleState)
        ensures
            state == self@.state(),
    {
        match self.phase {
            Phase::Idle => LifecycleState::Idle,
            Phase::Connecting => LifecycleState::Connecting,
            Phase::Connected => if self.listening {
                LifecycleState::ConnectedActive
            } else {
                LifecycleState::ConnectedPaused
            },
        }
    }

    /// The listening flag.
    pub fn is_listening(&self) -> (listening: bool)
        ensures
            listening == self@.listening,
    {
        self.listening
    }

    /// Whether a session is open.
    pub fn has_session(&self) -> (present: bool)
        ensures
            present == self@.has_session(),
    {
        self.phase == Phase::Connected
    }

    /// The serial number of the open session, if there is one.
    pub fn session(&self) -> (serial: Option<u64>)
        ensures
            serial == self@.session(),
    {
        if self.phase == Phase::Connected {
            Some(self.serial)
        } else {
            None
        }
    }

    /// Whether chunks pass.
    pub fn admits(&self) -> (open: bool)
        ensures
            open == self@.admits(),
    {
        self.phase == Phase::Connected && self.listening
    }

    /// The command that asks for a session.
    ///
    /// From idle the controller starts connecting and returns `true`: the
    /// caller now opens the session and reports `session_opened` or
    /// `session_failed`.  In every other state nothing changes and `false`
    /// is returned: the command has succeeded with nothing to do.
    pub fn initialize(&mut self) -> (open: bool)
        ensures
            final(self)@ == old(self)@.initialize(),
            open == old(self)@.initialize_opens(),
    {
        if self.phase == Phase::Idle {
            self.phase = Phase::Connecting;
            true
        } else {
            false
        }
    }

    /// Reports that the session asked for is open.
    ///
    /// While connecting, the session is taken up, paused, under the next
    /// serial number, which is returned.  Otherwise nothing changes and
    /// `None` is returned: the session was given up meanwhile and the caller
    /// closes it.
    pub fn session_opened(&mut self) -> (serial: Option<u64>)
        ensures
            final(self)@ == old(self)@.session_opened(),
            serial == old(self)@.opened_as(),
    {
        if self.phase == Phase::Connecting {
            self.phase = Phase::Connected;
            self.listening = false;
            self.serial = if self.serial == u64::MAX {
                0
            } else {
                self.serial + 1
            };
            Some(self.serial)
        } else {
            None
        }
    }

    /// Reports that the session asked for could not be opened.  A connecting
    /// controller goes back to idle.
    pub fn session_failed(&mut self)
        ensures
            final(self)@ == old(self)@.session_failed(),
    {
        if self.phase == Phase::Connecting {
            self.phase = Phase::Idle;
        }
    }

    /// The command that lets audio through: sets the listening flag.
    pub fn start(&mut self)
        ensures
            final(self)@ == old(self)@.start(),
    {
        self.listening = true;
    }

    /// The command that ends the session: clears the listening flag and goes
    /// to idle.  Returns `true` when a session was open, which the caller now
    /// closes and discards.
    pub fn stop(&mut self) -> (close: bool)
        ensures
            final(self)@ == old(self)@.stop(),
            close == old(self)@.stop_closes(),
    {
        let close = self.phase == Phase::Connected;
        self.phase = Phase::Idle;
        self.listening = false;
        close
    }

    /// Reports that session `serial` ended: the service closed it, or reading
    /// or writing failed.  If that session is the open one, the controller
    /// clears the flag, goes to idle and returns `true`: the caller drops the
    /// handle and, where a failure ended the session, tells the consumer.  A
    /// report on a session that the controller has left already changes
    /// nothing and returns `false`: there is nothing to drop or to tell.
    pub fn session_ended(&mut self, serial: u64) -> (drop_handle: bool)
        ensures
            final(self)@ == old(self)@.session_ended(serial),
            drop_handle == old(self)@.ended_drops(serial),
    {
        if self.phase == Phase::Connected && self.serial == serial {
            self.phase = Phase::Idle;
            self.listening = false;
            true
        } else {
            false
        }
    }

    /// Decides what becomes of a chunk from capture.  If chunks pass, the
    /// binary frame to send comes back; otherwise `None`, and the chunk is
    /// gone.
    pub fn forward(&self, chunk: &Vec<i16>) -> (frame: Option<Vec<u8>>)
        ensures
            frame is Some == self@.admits(),
            match frame {
                Some(bytes) => self@.forwards(chunk@) == Some(bytes@),
                None => self@.forwards(chunk@) is None,
            },
    {
        if self.phase == Phase::Connected && self.listening {
            Some(frame_bytes(chunk))
        } else {
            None
        }
    }
}

} // verus!
