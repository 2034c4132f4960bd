use crate::message::{DeviceRequest, DeviceResponse, MidiMessage, RouterResponse};
use crate::table::{has_name, inserted, lookup, names_distinct, removed, EndpointTable};
use vstd::prelude::*;

verus! {

/// Which way a supervisor carries MIDI data.
#[derive(Clone, Copy, Debug, PartialEq, Eq, Structural)]
pub enum Direction {
    Input,
    Output,
}

/// What the supervisor thread does for a request.
pub enum SupervisorStep<H> {
    /// Send this reply.
    Reply(DeviceResponse),
    /// Open backend port `port` under `name`, then report with `connected`.
    Connect(String, usize),
    /// Reply with the backend's list of port names.
    ListPorts,
    /// Close this handle, if any, and reply `Success`.
    Release(Option<H>),
    /// Close every handle, reply `Success` and stop.
    Stop(Vec<H>),
}

pub open spec fn handler_label(d: Direction) -> Seq<char> {
    match d {
        Direction::Input => "input handler"@,
        Direction::Output => "output handler"@,
    }
}

/// The text of an error reply.
pub open spec fn error_text(r: DeviceResponse) -> Seq<char> {
    match r {
        DeviceResponse::Error(e) => e@,
        _ => Seq::empty(),
    }
}

/// `r` is an error reply with text `t`.
pub open spec fn is_error_reply(r: DeviceResponse, t: Seq<char>) -> bool {
    r is Error && error_text(r) == t
}

/// `s` is a step that sends an error reply with text `t`.
pub open spec fn is_error_step<H>(s: SupervisorStep<H>, t: Seq<char>) -> bool {
    match s {
        SupervisorStep::Reply(e) => is_error_reply(e, t),
        _ => false,
    }
}

/// `r` failed with the message `t`.
pub open spec fn fails_with<T>(r: Result<T, String>, t: Seq<char>) -> bool {
    match r {
        Err(e) => e@ == t,
        Ok(_) => false,
    }
}

/// The port table of one supervisor: open backend handles by name, each
/// name open at most once.
pub struct PortSupervisor<H> {
    direction: Direction,
    ports: EndpointTable<H>,
}

impl<H> PortSupervisor<H> {
    pub closed spec fn port_table(&self) -> Seq<(Seq<char>, H)> {
        self.ports@
    }

    pub closed spec fn way(&self) -> Direction {
        self.direction
    }

    pub open spec fn wf(&self) -> bool {
        names_distinct(self.port_table())
    }

    pub fn new(direction: Direction) -> (r: PortSupervisor<H>)
        ensures
            r.wf(),
            r.way() == direction,
            r.port_table().len() == 0,
    {
        PortSupervisor { direction, ports: EndpointTable::new() }
    }

    fn label(&self) -> (r: String)
        ensures
            r@ == handler_label(self.way()),
    {
        match self.direction {
            Direction::Input => "input handler".to_owned(),
            Direction::Output => "output handler".to_owned(),
        }
    }

    /// Decides what a request asks for. An open of a name already open is
    /// refused (duplicate); a close of a missing name still succeeds; an open
    /// or close for the other direction is an unknown command.
    pub fn plan(&mut self, req: DeviceRequest) -> (r: SupervisorStep<H>)
        requires
            old(self).wf(),
        ensures
            final(self).wf(),
            final(self).way() == old(self).way(),
            match req {
                DeviceRequest::OpenIn(n, p) => if old(self).way() == Direction::Input {
                    if has_name(old(self).port_table(), n@) {
                        is_error_step(r, handler_label(old(self).way()) + ": device already added"@)
                    } else {
                        r == SupervisorStep::<H>::Connect(n, p)
                    }
                } else {
                    is_error_step(r, handler_label(old(self).way()) + ": unknown command"@)
                },
                DeviceRequest::OpenOut(n, p) => if old(self).way() == Direction::Output {
                    if has_name(old(self).port_table(), n@) {
                        is_error_step(r, handler_label(old(self).way()) + ": device already added"@)
                    } else {
                        r == SupervisorStep::<H>::Connect(n, p)
                    }
                } else {
                    is_error_step(r, handler_label(old(self).way()) + ": unknown command"@)
                },
                DeviceRequest::CloseIn(n) => if old(self).way() == Direction::Input {
                    r == SupervisorStep::<H>::Release(lookup(old(self).port_table(), n@))
                        && final(self).port_table() == removed(old(self).port_table(), n@)
                } else {
                    is_error_step(r, handler_label(old(self).way()) + ": unknown command"@)
                },
                DeviceRequest::CloseOut(n) => if old(self).way() == Direction::Output {
                    r == SupervisorStep::<H>::Release(lookup(old(self).port_table(), n@))
                        && final(self).port_table() == removed(old(self).port_table(), n@)
                } else {
                    is_error_step(r, handler_label(old(self).way()) + ": unknown command"@)
                },
                DeviceRequest::QueryDevice(n) => r == SupervisorStep::<H>::Reply(
                    DeviceResponse::Device(n, has_name(old(self).port_table(), n@)),
                ),
                DeviceRequest::QueryList => r is ListPorts,
                DeviceRequest::Shutdown => (r matches SupervisorStep::Stop(hs) && hs@.len()
                    == old(self).port_table().len()) && final(self).port_table().len() == 0,
            },
            !((req is CloseIn && old(self).way() == Direction::Input) || (req is CloseOut && old(
                self,
            ).way() == Direction::Output) || req is Shutdown) ==> final(self).port_table() == old(
                self,
            ).port_table(),
    {
        match req {
            DeviceRequest::OpenIn(name, port) => {
                if self.direction == Direction::Input {
                    self.open(name, port)
                } else {
                    self.unknown()
                }
            },
            DeviceRequest::OpenOut(name, port) => {
                if self.direction == Direction::Output {
                    self.open(name, port)
                } else {
                    self.unknown()
                }
            },
            DeviceRequest::CloseIn(name) => {
                if self.direction == Direction::Input {
                    SupervisorStep::Release(self.ports.remove(&name))
                } else {
                    self.unknown()
                }
            },
            DeviceRequest::CloseOut(name) => {
                if self.direction == Direction::Output {
                    SupervisorStep::Release(self.ports.remove(&name))
                } else {
                    self.unknown()
                }
            },
            DeviceRequest::QueryDevice(name) => {
                let present = self.ports.contains(&name);
                SupervisorStep::Reply(DeviceResponse::Device(name, present))
            },
            DeviceRequest::QueryList => SupervisorStep::ListPorts,
            DeviceRequest::Shutdown => SupervisorStep::Stop(self.ports.take_all()),
        }
    }

    fn open(&self, name: String, port: usize) -> (r: SupervisorStep<H>)
        requires
            self.wf(),
        ensures
            has_name(self.port_table(), name@) ==> is_error_step(r, handler_label(self.way()) + ": device already added"@),
            !has_name(self.port_table(), name@) ==> r == SupervisorStep::<H>::Connect(name, port),
    {
        if self.ports.contains(&name) {
            SupervisorStep::Reply(
                DeviceResponse::Error(self.label().concat(": device already added")),
            )
        } else {
            SupervisorStep::Connect(name, port)
        }
    }

    fn unknown(&self) -> (r: SupervisorStep<H>)
        ensures
            is_error_step(r, handler_label(self.way()) + ": unknown command"@),
    {
        SupervisorStep::Reply(DeviceResponse::Error(self.label().concat(": unknown command")))
    }

    /// Records the outcome of a `Connect` step and gives the reply: the
    /// handle is stored under `name`, or the backend's refusal is reported.
    pub fn connected(&mut self, name: String, outcome: Result<H, String>) -> (r: DeviceResponse)
        requires
            old(self).wf(),
        ensures
            final(self).wf(),
            final(self).way() == old(self).way(),
            outcome matches Ok(h) ==> r == DeviceResponse::Success && final(self).port_table()
                == inserted(old(self).port_table(), name@, h),
            outcome matches Err(e) ==> is_error_reply(
                r,
                handler_label(old(self).way()) + ": failed to add device: "@ + e@,
            ) && final(self).port_table() == old(self).port_table(),
    {
        match outcome {
            Ok(handle) => {
                self.ports.insert(name, handle);
                DeviceResponse::Success
            },
            Err(e) => DeviceResponse::Error(
                self.label().concat(": failed to add device: ").concat(e.as_str()),
            ),
        }
    }

    /// Where the port that an outbound message goes to stands: the port
    /// named after its device; `None` drops the message (a device this
    /// supervisor does not own).
    pub fn port_index(&self, msg: &MidiMessage) -> (r: Option<usize>)
        requires
            self.wf(),
        ensures
            r is None <==> !has_name(self.port_table(), msg.device@),
            r matches Some(i) ==> i < self.port_table().len() && self.port_table()[i as int].0
                == msg.device@,
    {
        self.ports.position(&msg.device)
    }

    /// The handle at position `i`, to write through; only that handle may
    /// change, every name stays.
    pub fn port_mut(&mut self, i: usize) -> (r: &mut H)
        requires
            i < old(self).port_table().len(),
        ensures
            *r == old(self).port_table()[i as int].1,
            final(self).port_table() == old(self).port_table().update(
                i as int,
                (old(self).port_table()[i as int].0, *final(r)),
            ),
            final(self).way() == old(self).way(),
    {
        self.ports.value_mut(i)
    }

    /// The names of the open ports.
    pub fn open_names(&self) -> (r: Vec<String>)
        ensures
            r@.map_values(|s: String| s@) == crate::table::names_of(self.port_table()),
    {
        self.ports.names()
    }
}

/// How a caller reads the reply to a request that expects `Success`.
pub fn expect_done(who: &str, reply: Option<DeviceResponse>) -> (r: Result<(), String>)
    ensures
        reply matches Some(DeviceResponse::Success) ==> r is Ok,
        reply matches Some(DeviceResponse::Error(e)) ==> r == Err::<(), String>(e),
        reply matches Some(DeviceResponse::Device(_, _)) ==> fails_with(r, who@ + " desync"@),
        reply matches Some(DeviceResponse::List(_)) ==> fails_with(r, who@ + " desync"@),
        reply is None ==> fails_with(r, who@ + " timed out"@),
{
    match reply {
        Some(DeviceResponse::Success) => Ok(()),
        Some(DeviceResponse::Error(e)) => Err(e),
        Some(_) => Err(who.to_owned().concat(" desync")),
        None => Err(who.to_owned().concat(" timed out")),
    }
}

/// How a caller reads the reply to a presence query.
pub fn expect_presence(who: &str, reply: Option<DeviceResponse>) -> (r: Result<bool, String>)
    ensures
        reply matches Some(DeviceResponse::Device(_, b)) ==> r == Ok::<bool, String>(b),
        reply matches Some(DeviceResponse::Error(e)) ==> r == Err::<bool, String>(e),
        reply matches Some(DeviceResponse::Success) ==> fails_with(r, who@ + " desync"@),
        reply matches Some(DeviceResponse::List(_)) ==> fails_with(r, who@ + " desync"@),
        reply is None ==> fails_with(r, who@ + " timed out"@),
{
    match reply {
        Some(DeviceResponse::Device(_, present)) => Ok(present),
        Some(DeviceResponse::Error(e)) => Err(e),
        Some(_) => Err(who.to_owned().concat(" desync")),
        None => Err(who.to_owned().concat(" timed out")),
    }
}

/// How a caller reads the reply to a list query.
pub fn expect_list(who: &str, reply: Option<DeviceResponse>) -> (r: Result<Vec<String>, String>)
    ensures
        reply matches Some(DeviceResponse::List(l)) ==> r == Ok::<Vec<String>, String>(l),
        reply matches Some(DeviceResponse::Error(e)) ==> r == Err::<Vec<String>, String>(e),
        reply matches Some(DeviceResponse::Success) ==> fails_with(r, who@ + " desync"@),
        reply matches Some(DeviceResponse::Device(_, _)) ==> fails_with(r, who@ + " desync"@),
        reply is None ==> fails_with(r, who@ + " timed out"@),
{
    match reply {
        Some(DeviceResponse::List(list)) => Ok(list),
        Some(DeviceResponse::Error(e)) => Err(e),
        Some(_) => Err(who.to_owned().concat(" desync")),
        None => Err(who.to_owned().concat(" timed out")),
    }
}

impl RouterResponse {
    /// The same reply in the supervisors' vocabulary, which callers read
    /// with `expect_done`, `expect_presence` and `expect_list`.
    pub fn into_device_response(self) -> (r: DeviceResponse)
        ensures
            self matches RouterResponse::Device(n, b) ==> r == DeviceResponse::Device(n, b),
            self matches RouterResponse::List(l) ==> r == DeviceResponse::List(l),
            self matches RouterResponse::Error(e) ==> r == DeviceResponse::Error(e),
            self is Success ==> r is Success,
    {
        match self {
            RouterResponse::Device(n, b) => DeviceResponse::Device(n, b),
            RouterResponse::List(l) => DeviceResponse::List(l),
            RouterResponse::Error(e) => DeviceResponse::Error(e),
            RouterResponse::Success => DeviceResponse::Success,
        }
    }
}

/// The operations of a port supervisor's handle, as its users call them.
pub trait MidiDevice {
    fn open_port(&self, name: String, port_id: usize) -> Result<(), String>;

    fn close_port(&self, name: String) -> Result<(), String>;

    fn query(&self, name: String) -> Result<bool, String>;

    fn query_all(&self) -> Result<Vec<String>, String>;
}

} // verus!
