//! Bookkeeping for the sessions of the input devices.
//!
//! A session is a connection to one device, fed by a reader of its own. The
//! readers run outside this library, so whether one is still alive is told
//! to the functions here by their caller.

use vstd::prelude::*;

verus! {

/// The classes of input device.
#[derive(Clone, Copy, Debug, PartialEq, Eq, Structural)]
pub enum InputDevice {
    /// The pen digitizer.
    Wacom,
    /// The touch screen.
    Multitouch,
    /// The hardware buttons.
    GPIO,
    /// Anything else.
    Unknown,
}

/// The answer to a request to deactivate a device.
#[derive(Clone, Copy, Debug, PartialEq, Eq, Structural)]
pub struct Deactivation {
    /// The device is inactive now.
    pub inactive: bool,
    /// The caller holds a running session of the device that the registry
    /// has just given up, and is to stop it.
    pub stop_session: bool,
}

/// The number of the event source that the readers of `device` are bound
/// to, if it is a device that can be read.
pub open spec fn source_of(device: InputDevice) -> Option<u8> {
    match device {
        InputDevice::Wacom => Some(0u8),
        InputDevice::Multitouch => Some(1u8),
        InputDevice::GPIO => Some(2u8),
        InputDevice::Unknown => None,
    }
}

/// The number of the event source that the readers of `device` are bound to.
pub fn event_source(device: InputDevice) -> (source: Option<u8>)
    ensures
        source == source_of(device),
{
    match device {
        InputDevice::Wacom => Some(0),
        InputDevice::Multitouch => Some(1),
        InputDevice::GPIO => Some(2),
        InputDevice::Unknown => None,
    }
}

/// The devices among pen, touch screen and buttons that are marked, in this
/// order: the order in which sessions are started and joined.
pub open spec fn in_order(wacom: bool, multitouch: bool, gpio: bool) -> Seq<InputDevice> {
    let first = if wacom { seq![InputDevice::Wacom] } else { Seq::<InputDevice>::empty() };
    let second = if multitouch { first.push(InputDevice::Multitouch) } else { first };
    if gpio { second.push(InputDevice::GPIO) } else { second }
}

/// Deactivating a known device twice in a row answers both times that it is
/// inactive, whatever its reader does in between, and a session that the
/// first call had stopped is not stopped again.
pub proof fn deactivating_twice(sessions: DeviceSessions, device: InputDevice, alive_first: bool, alive_second: bool)
    requires
        device != InputDevice::Unknown,
    ensures
        sessions.deactivation(device, alive_first).inactive,
        sessions.deactivated(device, alive_first).deactivation(device, alive_second).inactive,
        sessions.deactivation(device, alive_first).stop_session ==> !sessions.deactivated(
            device,
            alive_first,
        ).deactivation(device, alive_second).stop_session,
        sessions.deactivation(device, alive_first).stop_session ==> sessions.deactivated(
            device,
            alive_first,
        ).deactivated(device, alive_second) == sessions.deactivated(device, alive_first),
{
}

/// Which devices have a session. At most one session exists per device.
#[derive(Clone, Copy, Debug, PartialEq, Eq, Structural)]
pub struct DeviceSessions {
    pub wacom: bool,
    pub multitouch: bool,
    pub gpio: bool,
}

impl DeviceSessions {
    /// `device` has a session.
    pub open spec fn holds(self, device: InputDevice) -> bool {
        match device {
            InputDevice::Wacom => self.wacom,
            InputDevice::Multitouch => self.multitouch,
            InputDevice::GPIO => self.gpio,
            InputDevice::Unknown => false,
        }
    }

    /// The sessions without the one of `device`.
    pub open spec fn without(self, device: InputDevice) -> DeviceSessions {
        match device {
            InputDevice::Wacom => DeviceSessions { wacom: false, ..self },
            InputDevice::Multitouch => DeviceSessions { multitouch: false, ..self },
            InputDevice::GPIO => DeviceSessions { gpio: false, ..self },
            InputDevice::Unknown => self,
        }
    }

    /// What deactivating `device` answers, with its reader alive or not:
    /// an unknown device is refused, an inactive one is left as it is, and
    /// the session of an active one is to be stopped.
    pub open spec fn deactivation(self, device: InputDevice, reader_alive: bool) -> Deactivation {
        Deactivation {
            inactive: device != InputDevice::Unknown,
            stop_session: self.holds(device) && reader_alive,
        }
    }

    /// The sessions after `device` was deactivated, with its reader alive
    /// or not: the session of an active device is gone.
    pub open spec fn deactivated(self, device: InputDevice, reader_alive: bool) -> DeviceSessions {
        if self.deactivation(device, reader_alive).stop_session {
            self.without(device)
        } else {
            self
        }
    }

    /// No sessions.
    pub fn new() -> (sessions: DeviceSessions)
        ensures
            sessions == (DeviceSessions { wacom: false, multitouch: false, gpio: false }),
    {
        DeviceSessions { wacom: false, multitouch: false, gpio: false }
    }

    /// `device` has a session.
    pub fn has_session(&self, device: InputDevice) -> (held: bool)
        ensures
            held == self.holds(device),
    {
        match device {
            InputDevice::Wacom => self.wacom,
            InputDevice::Multitouch => self.multitouch,
            InputDevice::GPIO => self.gpio,
            InputDevice::Unknown => false,
        }
    }

    /// `device` is active: it has a session and the reader of that session
    /// is alive.
    pub fn is_active(&self, device: InputDevice, reader_alive: bool) -> (active: bool)
        ensures
            active == (self.holds(device) && reader_alive),
    {
        self.has_session(device) && reader_alive
    }

    /// Replaces the sessions by those of the enabled devices, and returns
    /// the devices whose readers are to be started, in starting order.
    pub fn start(&mut self, enable_button: bool, enable_wacom: bool, enable_touch: bool) -> (started: Vec<
        InputDevice,
    >)
        ensures
            *final(self) == (DeviceSessions { wacom: enable_wacom, multitouch: enable_touch, gpio: enable_button }),
            started@ == in_order(enable_wacom, enable_touch, enable_button),
    {
        self.wacom = enable_wacom;
        self.multitouch = enable_touch;
        self.gpio = enable_button;
        self.listed()
    }

    /// The devices that have a session, in starting order.
    pub fn listed(&self) -> (devices: Vec<InputDevice>)
        ensures
            devices@ == in_order(self.wacom, self.multitouch, self.gpio),
    {
        let mut devices: Vec<InputDevice> = Vec::new();
        if self.wacom {
            devices.push(InputDevice::Wacom);
        }
        if self.multitouch {
            devices.push(InputDevice::Multitouch);
        }
        if self.gpio {
            devices.push(InputDevice::GPIO);
        }
        assert(devices@ =~= in_order(self.wacom, self.multitouch, self.gpio));
        devices
    }

    /// Deactivates `device`. An unknown device is refused. A device without
    /// a session, or whose reader is no longer alive, is inactive already
    /// and nothing changes. Otherwise the session leaves the registry and
    /// the caller is told to stop it.
    pub fn deactivate(&mut self, device: InputDevice, reader_alive: bool) -> (answer: Deactivation)
        ensures
            answer == old(self).deactivation(device, reader_alive),
            *final(self) == old(self).deactivated(device, reader_alive),
    {
        if !self.is_active(device, reader_alive) {
            return Deactivation { inactive: device != InputDevice::Unknown, stop_session: false };
        }
        match device {
            InputDevice::Wacom => {
                self.wacom = false;
            },
            InputDevice::Multitouch => {
                self.multitouch = false;
            },
            InputDevice::GPIO => {
                self.gpio = false;
            },
            InputDevice::Unknown => {},
        }
        Deactivation { inactive: true, stop_session: true }
    }

    /// Gives up all sessions, and returns the devices whose readers are to
    /// be joined, in joining order.
    pub fn take_all(&mut self) -> (joined: Vec<InputDevice>)
        ensures
            *final(self) == (DeviceSessions { wacom: false, multitouch: false, gpio: false }),
            joined@ == in_order(old(self).wacom, old(self).multitouch, old(self).gpio),
    {
        let joined = self.listed();
        self.wacom = false;
        self.multitouch = false;
        self.gpio = false;
        joined
    }
}

} // verus!
