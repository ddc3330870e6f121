//! The probe collaborator as the session sees it. No probe hardware is
//! driven here: the manager stands for a single simulated probe and target,
//! which can always be engaged.
use vstd::prelude::*;

use crate::protocol::{opt_text, ProbeInfo};

verus! {

/// The clock frequency of the simulated target, in hertz.
pub const TARGET_CPU_HZ: u64 = 168_000_000;

/// The identifier of the simulated probe.
pub open spec fn simulated_probe_id() -> Seq<char> {
    "mock:0001"@
}

/// What the simulated probe reports as its target.
pub open spec fn simulated_target() -> Seq<char> {
    "Mock Target"@
}

/// What the simulated probe reports as its chip.
pub open spec fn simulated_chip() -> Seq<char> {
    "STM32F4xx"@
}

/// An engaged probe and its target.
pub struct ProbeSession {
    pub connected: bool,
    pub target: Option<String>,
    pub chip: Option<String>,
}

/// The mathematical value of a [`ProbeSession`].
pub struct ProbeSessionView {
    pub connected: bool,
    pub target: Option<Seq<char>>,
    pub chip: Option<Seq<char>>,
}

impl View for ProbeSession {
    type V = ProbeSessionView;

    open spec fn view(&self) -> ProbeSessionView {
        ProbeSessionView {
            connected: self.connected,
            target: opt_text(self.target),
            chip: opt_text(self.chip),
        }
    }
}

/// The session that engaging the simulated probe opens.
pub open spec fn simulated_session() -> ProbeSessionView {
    ProbeSessionView {
        connected: true,
        target: Some(simulated_target()),
        chip: Some(simulated_chip()),
    }
}

/// Why the probe collaborator could not be used.
#[derive(Debug, Clone, Copy, PartialEq, Eq, Structural)]
pub enum ProbeError {
    /// No probe or target could be reached.
    ProbeUnavailable,
}

/// Opens and closes probe sessions.
pub struct ProbeManager {
    active_session: Option<ProbeSession>,
}

impl View for ProbeManager {
    type V = Option<ProbeSessionView>;

    closed spec fn view(&self) -> Option<ProbeSessionView> {
        match self.active_session {
            Some(s) => Some(s@),
            None => None,
        }
    }
}

impl ProbeManager {
    /// A manager with no open session.
    pub fn new() -> (r: ProbeManager)
        ensures
            r@ is None,
    {
        ProbeManager { active_session: None }
    }

    /// The probes that can be engaged: the one simulated probe.
    pub fn list_probes() -> (r: Vec<ProbeInfo>)
        ensures
            r@.len() == 1,
            r@[0].identifier@ == simulated_probe_id(),
            r@[0].vendor_id == 0x1234,
            r@[0].product_id == 0x5678,
            opt_text(r@[0].serial_number) == Some("MOCK001"@),
            r@[0].hid_interface is None,
    {
        vec![
            ProbeInfo {
                identifier: "mock:0001".to_owned(),
                vendor_id: 0x1234,
                product_id: 0x5678,
                serial_number: Some("MOCK001".to_owned()),
                hid_interface: None,
            },
        ]
    }

    /// Engages the probe for the ports in `allow_mask` at `baud_rate` (or
    /// the probe's default). The simulated probe is always available.
    pub fn start_session(&mut self, allow_mask: u32, baud_rate: Option<u32>) -> (r: Result<
        (),
        ProbeError,
    >)
        ensures
            r is Ok,
            final(self)@ == Some(simulated_session()),
    {
        self.active_session = Some(
            ProbeSession {
                connected: true,
                target: Some("Mock Target".to_owned()),
                chip: Some("STM32F4xx".to_owned()),
            },
        );
        Ok(())
    }

    /// Halts the probe and closes its session.
    pub fn stop_session(&mut self) -> (r: Result<(), ProbeError>)
        ensures
            r is Ok,
            final(self)@ is None,
    {
        self.active_session = None;
        Ok(())
    }

    /// Whether a session is open and connected.
    pub fn is_connected(&self) -> (r: bool)
        ensures
            r == (self@ is Some && self@->0.connected),
    {
        match &self.active_session {
            Some(s) => s.connected,
            None => false,
        }
    }

    /// The open session, if any.
    pub fn get_session_info(&self) -> (r: Option<&ProbeSession>)
        ensures
            self@ == (match r {
                Some(s) => Some(s@),
                None => None,
            }),
    {
        self.active_session.as_ref()
    }
}

impl Default for ProbeManager {
    fn default() -> (r: ProbeManager)
        ensures
            r@ is None,
    {
        ProbeManager::new()
    }
}

} // verus!
