//! Signals for the child of a supervised application: any signal, the
//! request to stop, and the kill.

use crate::application::check_app_exists;
use crate::error::CrescentError;
use crate::subprocess::{frame_of, Event, SocketEvent, SIGKILL, SIGTERM};
use vstd::prelude::*;

verus! {

/// Send a signal to the application subprocess.
#[derive(Debug)]
pub struct SignalArgs {
    /// Application name.
    pub name: String,
    /// Signal to send.
    pub signal: u8,
}

/// Send a stop command or a SIGTERM signal to the application subprocess.
#[derive(Debug)]
pub struct StopArgs {
    /// Application name.
    pub name: String,
    /// Ignore the stop command and send a SIGTERM signal.
    pub force: bool,
}

/// Send a SIGKILL signal to the application subprocess.
#[derive(Debug)]
pub struct KillArgs {
    /// Application name.
    pub name: String,
}

/// A signal to deliver.
#[derive(Debug, Clone, Copy, PartialEq, Eq, Structural)]
pub struct Delivery {
    /// The process that gets the signal: the application's child.
    pub pid: u32,
    /// The signal's number.
    pub signal: u8,
}

/// How an application is asked to stop.
#[derive(Debug)]
pub enum StopRequest {
    /// A signal is delivered to the child.
    Signal(Delivery),
    /// These bytes are sent to the supervisor.
    Event(Vec<u8>),
}

/// What a request to stop holds.
pub enum StopWay {
    Signal(Delivery),
    Event(Seq<u8>),
}

impl View for StopRequest {
    type V = StopWay;

    open spec fn view(&self) -> StopWay {
        match self {
            StopRequest::Signal(d) => StopWay::Signal(*d),
            StopRequest::Event(bytes) => StopWay::Event(bytes@),
        }
    }
}

/// The delivery of `signal` to the child of an application: the
/// application must be there and running, and its PID file must tell the
/// child, which is the second process in it.
pub open spec fn delivery_for(signal: u8, exists: bool, running: bool, pids: Seq<u32>) -> Result<
    Delivery,
    CrescentError,
> {
    if !exists {
        Err(CrescentError::ApplicationNotFound)
    } else if !running || pids.len() < 2 {
        Err(CrescentError::ApplicationNotRunning)
    } else {
        Ok(Delivery { pid: pids[1], signal })
    }
}

/// How an application is asked to stop: by `SIGTERM` where that is forced,
/// else by the event `Stop`.
pub open spec fn stop_for(force: bool, exists: bool, running: bool, pids: Seq<u32>) -> Result<
    StopWay,
    CrescentError,
> {
    if force {
        match delivery_for(SIGTERM, exists, running, pids) {
            Ok(d) => Ok(StopWay::Signal(d)),
            Err(e) => Err(e),
        }
    } else {
        Ok(StopWay::Event(frame_of(Event::Stop)))
    }
}

impl SignalArgs {
    /// Decides what the command does. `pids` are the process numbers that
    /// the application's PID file tells.
    pub fn run(self, exists: bool, running: bool, pids: &Vec<u32>) -> (r: Result<
        Delivery,
        CrescentError,
    >)
        ensures
            r == delivery_for(self.signal, exists, running, pids@),
    {
        match check_app_exists(exists) {
            Err(e) => {
                return Err(e);
            },
            Ok(()) => {},
        }
        if !running || pids.len() < 2 {
            return Err(CrescentError::ApplicationNotRunning);
        }
        Ok(Delivery { pid: pids[1], signal: self.signal })
    }
}

impl StopArgs {
    /// Decides what the command does. `pids` are the process numbers that
    /// the application's PID file tells.
    pub fn run(self, exists: bool, running: bool, pids: &Vec<u32>) -> (r: Result<
        StopRequest,
        CrescentError,
    >)
        ensures
            match r {
                Ok(way) => stop_for(self.force, exists, running, pids@) == Ok::<
                    StopWay,
                    CrescentError,
                >(way@),
                Err(e) => stop_for(self.force, exists, running, pids@) == Err::<
                    StopWay,
                    CrescentError,
                >(e),
            },
    {
        if self.force {
            let signal = SignalArgs { name: self.name, signal: SIGTERM };
            return match signal.run(exists, running, pids) {
                Ok(d) => Ok(StopRequest::Signal(d)),
                Err(e) => Err(e),
            };
        }
        Ok(StopRequest::Event(SocketEvent::Stop.encode()))
    }
}

impl KillArgs {
    /// Decides what the command does. `pids` are the process numbers that
    /// the application's PID file tells.
    pub fn run(self, exists: bool, running: bool, pids: &Vec<u32>) -> (r: Result<
        Delivery,
        CrescentError,
    >)
        ensures
            r == delivery_for(SIGKILL, exists, running, pids@),
    {
        let signal = SignalArgs { name: self.name, signal: SIGKILL };
        signal.run(exists, running, pids)
    }
}

} // verus!
