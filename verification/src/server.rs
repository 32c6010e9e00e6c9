//! The fake protocol server: a connect/handshake/dispatch state machine
//! that emulates a real protocol endpoint closely enough that a client
//! cannot tell it from hardware.
//!
//! Connecting hands back one device-added notification per roster entry,
//! in roster order; the caller that owns the transport delivers them to
//! the client after a short readiness delay, so that a client that
//! registers its listener right after connecting cannot miss them.
//! Once connected, the server dispatches each inbound message by kind:
//! handshake and device-list requests get their fixed replies, commands
//! that name a device are recorded in the call registry and then
//! acknowledged, and everything else is acknowledged without being
//! recorded. An acknowledgement is produced only after the command is
//! recorded, so a caller that has the acknowledgement in hand is
//! guaranteed the registry already reflects the command.

use vstd::prelude::*;

use crate::devices::DeviceAdded;
use crate::messages::ClientMessage;
use crate::messages::ClientMessageModel;
use crate::messages::ServerMessage;
use crate::messages::ServerMessageModel;
use crate::registry::FakeConnectorCallRegistry;
use crate::registry::FakeMessage;
use crate::registry::FakeMessageModel;

verus! {

/// The connection state of the simulated endpoint.
#[derive(Clone, Copy, PartialEq, Eq, Structural, Debug)]
pub enum ConnectionState {
    Disconnected,
    Connected,
}

/// The protocol version the simulator negotiates in its handshake reply.
pub const PROTOCOL_VERSION: u32 = 3;

/// The reply the server owes for each client message: handshake and
/// device-list requests get their fixed replies, every other kind is
/// acknowledged; the correlation identifier is always preserved.
/// Devices are announced through the notification stream at connect
/// time, not through the device-list call, so the device-list reply is
/// empty.
pub open spec fn reply_for(m: ClientMessageModel) -> ServerMessageModel {
    match m {
        ClientMessageModel::RequestServerInfo { id } => ServerMessageModel::ServerInfo {
            id,
            server_name: "test server"@,
            message_version: PROTOCOL_VERSION,
            max_ping_time: 0,
        },
        ClientMessageModel::RequestDeviceList { id } => ServerMessageModel::DeviceList {
            id,
            devices: Seq::empty(),
        },
        _ => ServerMessageModel::Ack { id: m.id() },
    }
}

/// A connector that emulates a device roster for testing purposes:
/// it announces the configured devices and records every command
/// addressed to one of them.
pub struct FakeDeviceConnector {
    pub devices: Vec<DeviceAdded>,
    pub call_registry: FakeConnectorCallRegistry,
    pub state: ConnectionState,
}

impl FakeDeviceConnector {
    /// The call registry holds only recordable commands.
    pub open spec fn wf(self) -> bool {
        self.call_registry.wf()
    }

    /// The connection state of the endpoint.
    pub open spec fn connection_state(self) -> ConnectionState {
        self.state
    }

    /// The command ledger, for contracts about recorded commands.
    pub open spec fn registry(self) -> Seq<(u32, FakeMessageModel)> {
        self.call_registry@
    }

    /// A disconnected connector with the given roster and an empty call
    /// registry.
    pub fn new(devices: Vec<DeviceAdded>) -> (r: Self)
        ensures
            r.devices == devices,
            r.connection_state() == ConnectionState::Disconnected,
            r.registry() == Seq::<(u32, FakeMessageModel)>::empty(),
            r.wf(),
    {
        FakeDeviceConnector {
            devices,
            call_registry: FakeConnectorCallRegistry::new(),
            state: ConnectionState::Disconnected,
        }
    }

    /// A demonstration roster: three vibrators, three linear actuators
    /// and one rotator, with identifiers 1 to 7 in roster order.
    pub fn device_demo() -> (r: Self)
        ensures
            r.connection_state() == ConnectionState::Disconnected,
            r.registry() == Seq::<(u32, FakeMessageModel)>::empty(),
            r.wf(),
            r.devices@.len() == 7,
            forall|i: int| 0 <= i < 7 ==> (#[trigger] r.devices@[i])@.index == i + 1,
            r.devices@[0]@.name == "Vibator 1"@,
            r.devices@[1]@.name == "Vibrator 2"@,
            r.devices@[2]@.name == "Vibrator 3"@,
            r.devices@[3]@.name == "Linear 1"@,
            r.devices@[4]@.name == "Linear 2"@,
            r.devices@[5]@.name == "Linear 3"@,
            r.devices@[6]@.name == "Rotator 1"@,
            r.devices@[0]@.attributes.scalar_cmd is Some,
            r.devices@[1]@.attributes.scalar_cmd is Some,
            r.devices@[2]@.attributes.scalar_cmd is Some,
            r.devices@[3]@.attributes.linear_cmd is Some,
            r.devices@[4]@.attributes.linear_cmd is Some,
            r.devices@[5]@.attributes.linear_cmd is Some,
            r.devices@[6]@.attributes.rotate_cmd is Some,
    {
        let mut devices: Vec<DeviceAdded> = Vec::new();
        devices.push(crate::devices::vibrator(1, "Vibator 1"));
        devices.push(crate::devices::vibrator(2, "Vibrator 2"));
        devices.push(crate::devices::vibrator(3, "Vibrator 3"));
        devices.push(crate::devices::linear(4, "Linear 1"));
        devices.push(crate::devices::linear(5, "Linear 2"));
        devices.push(crate::devices::linear(6, "Linear 3"));
        devices.push(crate::devices::rotate(7, "Rotator 1"));
        Self::new(devices)
    }

    /// Read access to the call registry, for the assertion query surface.
    pub fn get_call_registry(&self) -> (r: &FakeConnectorCallRegistry)
        ensures
            *r == self.call_registry,
            r@ == self.registry(),
    {
        &self.call_registry
    }

    /// Connects the endpoint: enters the connected state and hands back
    /// one device-added notification per roster entry, in roster order.
    /// The caller delivers them to the client once its listener is
    /// registered; if the outbound channel is gone by then, there is
    /// simply nothing to announce to.
    pub fn connect(&mut self) -> (announcements: Vec<ServerMessage>)
        ensures
            final(self).connection_state() == ConnectionState::Connected,
            final(self).devices == old(self).devices,
            final(self).registry() == old(self).registry(),
            old(self).wf() ==> final(self).wf(),
            announcements@.len() == old(self).devices@.len(),
            forall|i: int|
                0 <= i < announcements@.len() ==> (#[trigger] announcements@[i])@
                    == (ServerMessageModel::DeviceAdded { device: old(self).devices@[i]@ }),
    {
        let mut announcements: Vec<ServerMessage> = Vec::new();
        let mut i: usize = 0;
        while i < self.devices.len()
            invariant
                *self == *old(self),
                i <= self.devices@.len(),
                announcements@.len() == i,
                forall|j: int|
                    0 <= j < i ==> (#[trigger] announcements@[j])@
                        == (ServerMessageModel::DeviceAdded { device: self.devices@[j]@ }),
            decreases self.devices@.len() - i,
        {
            let device = self.devices[i].clone();
            announcements.push(ServerMessage::DeviceAdded { device });
            i += 1;
        }
        self.state = ConnectionState::Connected;
        announcements
    }

    /// Disconnects unconditionally; always succeeds, whatever the state.
    pub fn disconnect(&mut self)
        ensures
            final(self).connection_state() == ConnectionState::Disconnected,
            final(self).devices == old(self).devices,
            final(self).registry() == old(self).registry(),
            old(self).wf() ==> final(self).wf(),
    {
        self.state = ConnectionState::Disconnected;
    }

    /// The generic acknowledgement for the message with identifier
    /// `msg_id`.
    fn ok_response(&self, msg_id: u32) -> (r: ServerMessage)
        ensures
            r@ == (ServerMessageModel::Ack { id: msg_id }),
    {
        ServerMessage::Ack { id: msg_id }
    }

    /// Dispatches one inbound client message, received at `now_ms`
    /// milliseconds into the session: records it in the call registry if
    /// it is of a recordable kind, and returns the reply the protocol
    /// owes, carrying the message's correlation identifier. The simulator
    /// never rejects a message; a stop-all command and any unmodeled kind
    /// are acknowledged without being recorded.
    pub fn send(&mut self, msg: ClientMessage, now_ms: u64) -> (reply: ServerMessage)
        requires
            old(self).wf(),
        ensures
            final(self).wf(),
            final(self).connection_state() == old(self).connection_state(),
            final(self).devices == old(self).devices,
            reply@ == reply_for(msg@),
            final(self).registry() == if msg@.is_recordable() {
                old(self).registry().push(
                    (msg@.device_index(), FakeMessageModel { message: msg@, time: now_ms }),
                )
            } else {
                old(self).registry()
            },
    {
        let msg_id = msg.id();
        if msg.is_recordable() {
            self.call_registry.store_record(FakeMessage::new(msg, now_ms));
            self.ok_response(msg_id)
        } else {
            match msg {
                ClientMessage::RequestServerInfo { .. } => {
                    let reply = ServerMessage::ServerInfo {
                        id: msg_id,
                        server_name: "test server".to_owned(),
                        message_version: PROTOCOL_VERSION,
                        max_ping_time: 0,
                    };
                    proof {
                        assert(reply@ =~= reply_for(msg@));
                    }
                    reply
                },
                ClientMessage::RequestDeviceList { .. } => {
                    let reply = ServerMessage::DeviceList { id: msg_id, devices: Vec::new() };
                    proof {
                        assert(reply@ =~= reply_for(msg@));
                    }
                    reply
                },
                _ => self.ok_response(msg_id),
            }
        }
    }
}

} // verus!
