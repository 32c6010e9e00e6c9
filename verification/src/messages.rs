//! The message vocabulary of the simulated protocol.
//!
//! The real protocol's vocabulary is an open-ended tagged union owned by
//! an external collaborator. Here it is modeled as a closed variant type
//! with one case per message kind the simulator handles, plus a catch-all
//! case that is acknowledged but ignored, so the simulator stays
//! forward-compatible with vocabulary growth.
//!
//! Scalar strengths, linear positions and rotation speeds are fixed-point
//! values in thousandths of full scale (0 is off, 1000 is full).

use vstd::prelude::*;

use crate::devices::ActuatorKind;
use crate::devices::DeviceAdded;
use crate::devices::DeviceAddedModel;

verus! {

/// One single-value actuator output of a scalar command.
#[derive(Clone, Copy, PartialEq, Eq, Structural, Debug)]
pub struct ScalarSubcommand {
    /// Which actuator of the device is addressed.
    pub index: u32,
    /// The strength to set, in thousandths of full scale.
    pub scalar: u32,
    /// The actuator kind the value is meant for.
    pub actuator: ActuatorKind,
}

/// One move-to-position instruction of a linear command.
#[derive(Clone, Copy, PartialEq, Eq, Structural, Debug)]
pub struct VectorSubcommand {
    /// Which actuator of the device is addressed.
    pub index: u32,
    /// How long the move should take, in milliseconds.
    pub duration: u32,
    /// The target position, in thousandths of full scale.
    pub position: u32,
}

/// One motor instruction of a rotate command.
#[derive(Clone, Copy, PartialEq, Eq, Structural, Debug)]
pub struct RotationSubcommand {
    /// Which motor of the device is addressed.
    pub index: u32,
    /// The rotation speed, in thousandths of full scale.
    pub speed: u32,
    /// The direction of rotation.
    pub clockwise: bool,
}

/// A client-to-server message. Every variant carries a correlation
/// identifier that the server copies into its reply.
pub enum ClientMessage {
    /// Handshake: ask for the server identity and protocol version.
    RequestServerInfo { id: u32 },
    /// Ask for the list of currently known devices.
    RequestDeviceList { id: u32 },
    /// Set one or more single-value actuator outputs of one device.
    ScalarCmd { id: u32, device_index: u32, scalars: Vec<ScalarSubcommand> },
    /// Move one or more actuators of one device to a position over a duration.
    LinearCmd { id: u32, device_index: u32, vectors: Vec<VectorSubcommand> },
    /// Set speed and direction of one or more motors of one device.
    RotateCmd { id: u32, device_index: u32, rotations: Vec<RotationSubcommand> },
    /// Start scanning for devices on behalf of one device manager.
    /// A transport whose wire form carries no device identifier here
    /// supplies a reserved one, under which the request is recorded.
    StartScanning { id: u32, device_index: u32 },
    /// Stop scanning for devices on behalf of one device manager.
    /// A transport whose wire form carries no device identifier here
    /// supplies a reserved one, under which the request is recorded.
    StopScanning { id: u32, device_index: u32 },
    /// Stop every device at once. Carries no single device identifier.
    StopAllDevices { id: u32 },
    /// Any message kind the simulator does not model.
    Other { id: u32 },
}

/// Mathematical model of [`ClientMessage`].
#[verifier::ext_equal]
pub enum ClientMessageModel {
    RequestServerInfo { id: u32 },
    RequestDeviceList { id: u32 },
    ScalarCmd { id: u32, device_index: u32, scalars: Seq<ScalarSubcommand> },
    LinearCmd { id: u32, device_index: u32, vectors: Seq<VectorSubcommand> },
    RotateCmd { id: u32, device_index: u32, rotations: Seq<RotationSubcommand> },
    StartScanning { id: u32, device_index: u32 },
    StopScanning { id: u32, device_index: u32 },
    StopAllDevices { id: u32 },
    Other { id: u32 },
}

impl View for ClientMessage {
    type V = ClientMessageModel;

    open spec fn view(&self) -> ClientMessageModel {
        match *self {
            ClientMessage::RequestServerInfo { id } => ClientMessageModel::RequestServerInfo { id },
            ClientMessage::RequestDeviceList { id } => ClientMessageModel::RequestDeviceList { id },
            ClientMessage::ScalarCmd { id, device_index, scalars } => ClientMessageModel::ScalarCmd {
                id,
                device_index,
                scalars: scalars@,
            },
            ClientMessage::LinearCmd { id, device_index, vectors } => ClientMessageModel::LinearCmd {
                id,
                device_index,
                vectors: vectors@,
            },
            ClientMessage::RotateCmd { id, device_index, rotations } => ClientMessageModel::RotateCmd {
                id,
                device_index,
                rotations: rotations@,
            },
            ClientMessage::StartScanning { id, device_index } => ClientMessageModel::StartScanning {
                id,
                device_index,
            },
            ClientMessage::StopScanning { id, device_index } => ClientMessageModel::StopScanning {
                id,
                device_index,
            },
            ClientMessage::StopAllDevices { id } => ClientMessageModel::StopAllDevices { id },
            ClientMessage::Other { id } => ClientMessageModel::Other { id },
        }
    }
}

impl ClientMessageModel {
    /// The correlation identifier the message carries.
    pub open spec fn id(self) -> u32 {
        match self {
            ClientMessageModel::RequestServerInfo { id } => id,
            ClientMessageModel::RequestDeviceList { id } => id,
            ClientMessageModel::ScalarCmd { id, .. } => id,
            ClientMessageModel::LinearCmd { id, .. } => id,
            ClientMessageModel::RotateCmd { id, .. } => id,
            ClientMessageModel::StartScanning { id, .. } => id,
            ClientMessageModel::StopScanning { id, .. } => id,
            ClientMessageModel::StopAllDevices { id } => id,
            ClientMessageModel::Other { id } => id,
        }
    }

    /// Whether the message kind is recorded in the call registry. Exactly
    /// the recordable kinds expose an owning device identifier.
    pub open spec fn is_recordable(self) -> bool {
        match self {
            ClientMessageModel::ScalarCmd { .. } => true,
            ClientMessageModel::LinearCmd { .. } => true,
            ClientMessageModel::RotateCmd { .. } => true,
            ClientMessageModel::StartScanning { .. } => true,
            ClientMessageModel::StopScanning { .. } => true,
            _ => false,
        }
    }

    /// The owning device identifier of a recordable message.
    pub open spec fn device_index(self) -> u32 {
        match self {
            ClientMessageModel::ScalarCmd { device_index, .. } => device_index,
            ClientMessageModel::LinearCmd { device_index, .. } => device_index,
            ClientMessageModel::RotateCmd { device_index, .. } => device_index,
            ClientMessageModel::StartScanning { device_index, .. } => device_index,
            ClientMessageModel::StopScanning { device_index, .. } => device_index,
            _ => 0,
        }
    }
}

impl ClientMessage {
    /// The correlation identifier the message carries.
    pub fn id(&self) -> (r: u32)
        ensures
            r == self@.id(),
    {
        match *self {
            ClientMessage::RequestServerInfo { id } => id,
            ClientMessage::RequestDeviceList { id } => id,
            ClientMessage::ScalarCmd { id, .. } => id,
            ClientMessage::LinearCmd { id, .. } => id,
            ClientMessage::RotateCmd { id, .. } => id,
            ClientMessage::StartScanning { id, .. } => id,
            ClientMessage::StopScanning { id, .. } => id,
            ClientMessage::StopAllDevices { id } => id,
            ClientMessage::Other { id } => id,
        }
    }

    /// Whether the message kind is recorded in the call registry.
    pub fn is_recordable(&self) -> (r: bool)
        ensures
            r == self@.is_recordable(),
    {
        match *self {
            ClientMessage::ScalarCmd { .. } => true,
            ClientMessage::LinearCmd { .. } => true,
            ClientMessage::RotateCmd { .. } => true,
            ClientMessage::StartScanning { .. } => true,
            ClientMessage::StopScanning { .. } => true,
            _ => false,
        }
    }

    /// The owning device identifier of a recordable message.
    pub fn device_index(&self) -> (r: u32)
        requires
            self@.is_recordable(),
        ensures
            r == self@.device_index(),
    {
        match *self {
            ClientMessage::ScalarCmd { device_index, .. } => device_index,
            ClientMessage::LinearCmd { device_index, .. } => device_index,
            ClientMessage::RotateCmd { device_index, .. } => device_index,
            ClientMessage::StartScanning { device_index, .. } => device_index,
            ClientMessage::StopScanning { device_index, .. } => device_index,
            _ => vstd::pervasive::unreached(),
        }
    }
}

/// Copies a vector of plain values element by element.
pub fn copy_vec<T: Copy>(v: &Vec<T>) -> (r: Vec<T>)
    ensures
        r@ == v@,
{
    let mut r: Vec<T> = Vec::new();
    let mut i: usize = 0;
    while i < v.len()
        invariant
            i <= v.len(),
            r@ == v@.take(i as int),
        decreases v.len() - i,
    {
        r.push(v[i]);
        proof {
            assert(v@.take(i + 1) =~= v@.take(i as int).push(v@[i as int]));
        }
        i += 1;
    }
    proof {
        assert(v@.take(v@.len() as int) =~= v@);
    }
    r
}

impl Clone for ClientMessage {
    /// An exact copy: the clone has the same model as the original.
    fn clone(&self) -> (r: Self)
        ensures
            r@ == self@,
    {
        match self {
            ClientMessage::RequestServerInfo { id } => ClientMessage::RequestServerInfo { id: *id },
            ClientMessage::RequestDeviceList { id } => ClientMessage::RequestDeviceList { id: *id },
            ClientMessage::ScalarCmd { id, device_index, scalars } => ClientMessage::ScalarCmd {
                id: *id,
                device_index: *device_index,
                scalars: copy_vec(scalars),
            },
            ClientMessage::LinearCmd { id, device_index, vectors } => ClientMessage::LinearCmd {
                id: *id,
                device_index: *device_index,
                vectors: copy_vec(vectors),
            },
            ClientMessage::RotateCmd { id, device_index, rotations } => ClientMessage::RotateCmd {
                id: *id,
                device_index: *device_index,
                rotations: copy_vec(rotations),
            },
            ClientMessage::StartScanning { id, device_index } => ClientMessage::StartScanning {
                id: *id,
                device_index: *device_index,
            },
            ClientMessage::StopScanning { id, device_index } => ClientMessage::StopScanning {
                id: *id,
                device_index: *device_index,
            },
            ClientMessage::StopAllDevices { id } => ClientMessage::StopAllDevices { id: *id },
            ClientMessage::Other { id } => ClientMessage::Other { id: *id },
        }
    }
}

/// A server-to-client message.
pub enum ServerMessage {
    /// Generic acknowledgement of a client message.
    Ack { id: u32 },
    /// The server identity and the negotiated protocol version.
    ServerInfo { id: u32, server_name: String, message_version: u32, max_ping_time: u32 },
    /// Reply to a device-list request.
    DeviceList { id: u32, devices: Vec<DeviceAdded> },
    /// Asynchronous notification that a device is available.
    DeviceAdded { device: DeviceAdded },
}

/// Mathematical model of [`ServerMessage`].
#[verifier::ext_equal]
pub enum ServerMessageModel {
    Ack { id: u32 },
    ServerInfo { id: u32, server_name: Seq<char>, message_version: u32, max_ping_time: u32 },
    DeviceList { id: u32, devices: Seq<DeviceAddedModel> },
    DeviceAdded { device: DeviceAddedModel },
}

/// The models of a sequence of device descriptors.
pub open spec fn device_models(s: Seq<DeviceAdded>) -> Seq<DeviceAddedModel> {
    s.map_values(|d: DeviceAdded| d@)
}

impl View for ServerMessage {
    type V = ServerMessageModel;

    open spec fn view(&self) -> ServerMessageModel {
        match self {
            ServerMessage::Ack { id } => ServerMessageModel::Ack { id: *id },
            ServerMessage::ServerInfo { id, server_name, message_version, max_ping_time } => (
            ServerMessageModel::ServerInfo {
                id: *id,
                server_name: server_name@,
                message_version: *message_version,
                max_ping_time: *max_ping_time,
            }),
            ServerMessage::DeviceList { id, devices } => ServerMessageModel::DeviceList {
                id: *id,
                devices: device_models(devices@),
            },
            ServerMessage::DeviceAdded { device } => ServerMessageModel::DeviceAdded {
                device: device@,
            },
        }
    }
}

} // verus!
