//! The call registry: an append-only ledger of every command received,
//! keyed by the owning device.
//!
//! Each recorded command is an exact copy of the message received,
//! tagged with the instant of receipt in milliseconds. Entries are never
//! mutated, reordered, coalesced or removed, so the per-device sequence
//! always reflects receipt order. Querying a device that never received
//! a command yields an empty sequence, never an error.

use vstd::prelude::*;

use crate::messages::ClientMessage;
use crate::messages::ClientMessageModel;
use crate::messages::RotationSubcommand;
use crate::messages::ScalarSubcommand;
use crate::messages::VectorSubcommand;

verus! {

/// A recorded command: the exact message received and the instant of
/// receipt, in milliseconds from the start of the session.
pub struct FakeMessage {
    pub message: ClientMessage,
    pub time: u64,
}

/// Mathematical model of [`FakeMessage`].
#[verifier::ext_equal]
pub struct FakeMessageModel {
    pub message: ClientMessageModel,
    pub time: u64,
}

impl View for FakeMessage {
    type V = FakeMessageModel;

    open spec fn view(&self) -> FakeMessageModel {
        FakeMessageModel { message: self.message@, time: self.time }
    }
}

impl Clone for FakeMessage {
    /// An exact copy: the clone has the same model as the original.
    fn clone(&self) -> (r: Self)
        ensures
            r@ == self@,
    {
        FakeMessage { message: self.message.clone(), time: self.time }
    }
}

/// The models of a sequence of recorded commands.
pub open spec fn message_models(s: Seq<FakeMessage>) -> Seq<FakeMessageModel> {
    s.map_values(|m: FakeMessage| m@)
}

/// The subcommands of a scalar command; empty for any other kind.
pub open spec fn scalars_of(m: ClientMessageModel) -> Seq<ScalarSubcommand> {
    match m {
        ClientMessageModel::ScalarCmd { scalars, .. } => scalars,
        _ => Seq::empty(),
    }
}

/// Whether `m` is a scalar command all of whose actuator values equal
/// `strength`.
pub open spec fn scalars_all_equal(m: ClientMessageModel, strength: u32) -> bool {
    match m {
        ClientMessageModel::ScalarCmd { scalars, .. } => forall|i: int|
            0 <= i < scalars.len() ==> #[trigger] scalars[i].scalar == strength,
        _ => false,
    }
}

/// Whether `m` is a linear command all of whose target positions equal
/// `position`.
pub open spec fn positions_all_equal(m: ClientMessageModel, position: u32) -> bool {
    match m {
        ClientMessageModel::LinearCmd { vectors, .. } => forall|i: int|
            0 <= i < vectors.len() ==> #[trigger] vectors[i].position == position,
        _ => false,
    }
}

/// Whether `m` is a linear command all of whose durations lie within
/// ten milliseconds of `duration`.
pub open spec fn durations_all_within(m: ClientMessageModel, duration: u32) -> bool {
    match m {
        ClientMessageModel::LinearCmd { vectors, .. } => forall|i: int|
            0 <= i < vectors.len() ==> duration - 10 <= #[trigger] vectors[i].duration <= duration
                + 10,
        _ => false,
    }
}

/// Whether `m` is a rotate command all of whose speeds equal `speed`.
pub open spec fn rotations_all_at_speed(m: ClientMessageModel, speed: u32) -> bool {
    match m {
        ClientMessageModel::RotateCmd { rotations, .. } => forall|i: int|
            0 <= i < rotations.len() ==> #[trigger] rotations[i].speed == speed,
        _ => false,
    }
}

/// Whether `m` is a rotate command all of whose motors turn in the
/// direction given by `clockwise`.
pub open spec fn rotations_all_in_direction(m: ClientMessageModel, clockwise: bool) -> bool {
    match m {
        ClientMessageModel::RotateCmd { rotations, .. } => forall|i: int|
            0 <= i < rotations.len() ==> #[trigger] rotations[i].clockwise == clockwise,
        _ => false,
    }
}

/// The first subcommand of `scalars` addressed to actuator `index`, if
/// any.
pub open spec fn scalar_with_index(scalars: Seq<ScalarSubcommand>, index: u32) -> Option<
    ScalarSubcommand,
>
    decreases scalars.len(),
{
    if scalars.len() == 0 {
        None
    } else if scalars.first().index == index {
        Some(scalars.first())
    } else {
        scalar_with_index(scalars.drop_first(), index)
    }
}

/// If position `i` holds the first subcommand addressed to `index`,
/// the lookup finds exactly it.
proof fn lemma_scalar_with_index_first(scalars: Seq<ScalarSubcommand>, index: u32, i: int)
    requires
        0 <= i < scalars.len(),
        scalars[i].index == index,
        forall|j: int| 0 <= j < i ==> scalars[j].index != index,
    ensures
        scalar_with_index(scalars, index) == Some(scalars[i]),
    decreases i,
{
    if i > 0 {
        lemma_scalar_with_index_first(scalars.drop_first(), index, i - 1);
    }
}

/// If no subcommand is addressed to `index`, the lookup finds nothing.
proof fn lemma_scalar_with_index_none(scalars: Seq<ScalarSubcommand>, index: u32)
    requires
        forall|j: int| 0 <= j < scalars.len() ==> scalars[j].index != index,
    ensures
        scalar_with_index(scalars, index) is None,
    decreases scalars.len(),
{
    if scalars.len() > 0 {
        lemma_scalar_with_index_none(scalars.drop_first(), index);
    }
}

impl FakeMessage {
    /// Wraps a received message with its instant of receipt.
    pub fn new(message: ClientMessage, time: u64) -> (r: Self)
        ensures
            r@ == (FakeMessageModel { message: message@, time }),
    {
        FakeMessage { message, time }
    }

    /// Checks that the recorded message is a scalar command whose
    /// actuator values all equal `strength`. Only scalar commands can be
    /// checked this way.
    pub fn assert_strenth(&self, strength: u32) -> (r: bool)
        requires
            self@.message is ScalarCmd,
        ensures
            r == scalars_all_equal(self@.message, strength),
    {
        match &self.message {
            ClientMessage::ScalarCmd { scalars, .. } => {
                let mut i: usize = 0;
                while i < scalars.len()
                    invariant
                        i <= scalars.len(),
                        self@.message is ScalarCmd,
                        scalars_of(self@.message) == scalars@,
                        forall|j: int| 0 <= j < i ==> #[trigger] scalars@[j].scalar == strength,
                    decreases scalars.len() - i,
                {
                    if scalars[i].scalar != strength {
                        return false;
                    }
                    i += 1;
                }
                true
            },
            _ => vstd::pervasive::unreached(),
        }
    }

    /// Checks that the recorded message is a scalar command whose
    /// actuator values match `strengths` pairwise: for every pair
    /// `(index, strength)` the first subcommand addressed to `index`
    /// carries exactly `strength`, and there are as many subcommands as
    /// pairs. Every index asked about must be present in the command.
    pub fn assert_strengths(&self, strengths: &Vec<(u32, u32)>) -> (r: bool)
        requires
            self@.message is ScalarCmd,
            forall|k: int|
                0 <= k < strengths@.len() ==> scalar_with_index(
                    scalars_of(self@.message),
                    #[trigger] strengths@[k].0,
                ) is Some,
        ensures
            r == (strengths@.len() == scalars_of(self@.message).len() && forall|k: int|
                0 <= k < strengths@.len() ==> scalar_with_index(
                    scalars_of(self@.message),
                    #[trigger] strengths@[k].0,
                ).unwrap().scalar == strengths@[k].1),
    {
        match &self.message {
            ClientMessage::ScalarCmd { scalars, .. } => {
                if scalars.len() != strengths.len() {
                    return false;
                }
                let mut k: usize = 0;
                while k < strengths.len()
                    invariant
                        k <= strengths@.len(),
                        self@.message is ScalarCmd,
                        scalars_of(self@.message) == scalars@,
                        forall|k2: int|
                            0 <= k2 < strengths@.len() ==> scalar_with_index(
                                scalars@,
                                #[trigger] strengths@[k2].0,
                            ) is Some,
                        forall|k2: int|
                            0 <= k2 < k ==> scalar_with_index(
                                scalars@,
                                #[trigger] strengths@[k2].0,
                            ).unwrap().scalar == strengths@[k2].1,
                    decreases strengths@.len() - k,
                {
                    let (index, expected) = strengths[k];
                    let mut i: usize = 0;
                    while i < scalars.len() && scalars[i].index != index
                        invariant
                            i <= scalars.len(),
                            forall|j: int| 0 <= j < i ==> #[trigger] scalars@[j].index != index,
                        decreases scalars.len() - i,
                    {
                        i += 1;
                    }
                    if i == scalars.len() {
                        proof {
                            lemma_scalar_with_index_none(scalars@, index);
                        }
                        return vstd::pervasive::unreached();
                    }
                    proof {
                        lemma_scalar_with_index_first(scalars@, index, i as int);
                    }
                    if scalars[i].scalar != expected {
                        return false;
                    }
                    k += 1;
                }
                true
            },
            _ => vstd::pervasive::unreached(),
        }
    }

    /// Checks that the recorded message is a linear command whose target
    /// positions all equal `position`. Only linear commands can be
    /// checked this way.
    pub fn assert_position(&self, position: u32) -> (r: bool)
        requires
            self@.message is LinearCmd,
        ensures
            r == positions_all_equal(self@.message, position),
    {
        match &self.message {
            ClientMessage::LinearCmd { vectors, .. } => {
                let mut i: usize = 0;
                while i < vectors.len()
                    invariant
                        i <= vectors.len(),
                        self@.message is LinearCmd,
                        self@.message matches ClientMessageModel::LinearCmd { vectors: vm, .. }
                            && vm == vectors@,
                        forall|j: int| 0 <= j < i ==> #[trigger] vectors@[j].position == position,
                    decreases vectors.len() - i,
                {
                    if vectors[i].position != position {
                        return false;
                    }
                    i += 1;
                }
                true
            },
            _ => vstd::pervasive::unreached(),
        }
    }

    /// Checks that the recorded message is a linear command whose
    /// durations all lie within ten milliseconds of `duration`. Only
    /// linear commands can be checked this way.
    pub fn assert_duration(&self, duration: u32) -> (r: bool)
        requires
            self@.message is LinearCmd,
        ensures
            r == durations_all_within(self@.message, duration),
    {
        match &self.message {
            ClientMessage::LinearCmd { vectors, .. } => {
                let mut i: usize = 0;
                while i < vectors.len()
                    invariant
                        i <= vectors.len(),
                        self@.message is LinearCmd,
                        self@.message matches ClientMessageModel::LinearCmd { vectors: vm, .. }
                            && vm == vectors@,
                        forall|j: int|
                            0 <= j < i ==> duration - 10 <= #[trigger] vectors@[j].duration
                                <= duration + 10,
                    decreases vectors.len() - i,
                {
                    let actual = vectors[i].duration;
                    let within = if actual >= duration {
                        actual - duration <= 10
                    } else {
                        duration - actual <= 10
                    };
                    if !within {
                        return false;
                    }
                    i += 1;
                }
                true
            },
            _ => vstd::pervasive::unreached(),
        }
    }

    /// Checks that the instant of receipt lies within twenty-five
    /// milliseconds of `time_ms`, both measured from `start_ms`. The
    /// recording must not predate the start instant.
    pub fn assert_timestamp(&self, time_ms: u64, start_ms: u64) -> (r: bool)
        requires
            start_ms <= self@.time,
        ensures
            r == (time_ms - 25 <= self@.time - start_ms <= time_ms + 25),
    {
        let elapsed = self.time - start_ms;
        if elapsed >= time_ms {
            elapsed - time_ms <= 25
        } else {
            time_ms - elapsed <= 25
        }
    }

    /// Checks that the recorded message is a rotate command whose speeds
    /// all equal `speed`. Only rotate commands can be checked this way.
    pub fn assert_rotation(&self, speed: u32) -> (r: bool)
        requires
            self@.message is RotateCmd,
        ensures
            r == rotations_all_at_speed(self@.message, speed),
    {
        match &self.message {
            ClientMessage::RotateCmd { rotations, .. } => {
                let mut i: usize = 0;
                while i < rotations.len()
                    invariant
                        i <= rotations.len(),
                        self@.message is RotateCmd,
                        self@.message matches ClientMessageModel::RotateCmd { rotations: rm, .. }
                            && rm == rotations@,
                        forall|j: int| 0 <= j < i ==> #[trigger] rotations@[j].speed == speed,
                    decreases rotations.len() - i,
                {
                    if rotations[i].speed != speed {
                        return false;
                    }
                    i += 1;
                }
                true
            },
            _ => vstd::pervasive::unreached(),
        }
    }

    /// Checks that the recorded message is a rotate command whose motors
    /// all turn in the direction given by `clockwise`. Only rotate
    /// commands can be checked this way.
    pub fn assert_direction(&self, clockwise: bool) -> (r: bool)
        requires
            self@.message is RotateCmd,
        ensures
            r == rotations_all_in_direction(self@.message, clockwise),
    {
        match &self.message {
            ClientMessage::RotateCmd { rotations, .. } => {
                let mut i: usize = 0;
                while i < rotations.len()
                    invariant
                        i <= rotations.len(),
                        self@.message is RotateCmd,
                        self@.message matches ClientMessageModel::RotateCmd { rotations: rm, .. }
                            && rm == rotations@,
                        forall|j: int|
                            0 <= j < i ==> #[trigger] rotations@[j].clockwise == clockwise,
                    decreases rotations.len() - i,
                {
                    if rotations[i].clockwise != clockwise {
                        return false;
                    }
                    i += 1;
                }
                true
            },
            _ => vstd::pervasive::unreached(),
        }
    }

    /// Whether the recorded message is a scalar command all of whose
    /// actuator values are zero. Only scalar commands can be checked
    /// this way.
    pub fn vibration_stopped(&self) -> (r: bool)
        requires
            self@.message is ScalarCmd,
        ensures
            r == scalars_all_equal(self@.message, 0),
    {
        self.assert_strenth(0)
    }
}

/// The per-device projection of the ledger: the recorded commands
/// addressed to `device_id`, in receipt order.
pub open spec fn calls_of(log: Seq<(u32, FakeMessageModel)>, device_id: u32) -> Seq<
    FakeMessageModel,
>
    decreases log.len(),
{
    if log.len() == 0 {
        Seq::empty()
    } else {
        let rest = calls_of(log.drop_last(), device_id);
        if log.last().0 == device_id {
            rest.push(log.last().1)
        } else {
            rest
        }
    }
}

/// Appending one entry extends exactly the bucket of its device and
/// leaves every other bucket unchanged.
pub proof fn lemma_calls_of_push(
    log: Seq<(u32, FakeMessageModel)>,
    e: (u32, FakeMessageModel),
    device_id: u32,
)
    ensures
        calls_of(log.push(e), device_id) == if e.0 == device_id {
            calls_of(log, device_id).push(e.1)
        } else {
            calls_of(log, device_id)
        },
{
    assert(log.push(e).drop_last() =~= log);
    assert(log.push(e).last() == e);
}

/// Every command in a device's bucket comes from the ledger, so it is
/// of a recordable kind whenever every ledger entry is.
proof fn lemma_calls_of_recordable(log: Seq<(u32, FakeMessageModel)>, device_id: u32)
    requires
        forall|i: int| 0 <= i < log.len() ==> (#[trigger] log[i].1).message.is_recordable(),
    ensures
        forall|i: int|
            0 <= i < calls_of(log, device_id).len() ==> (#[trigger] calls_of(log, device_id)[i])
                .message.is_recordable(),
    decreases log.len(),
{
    if log.len() > 0 {
        assert(forall|i: int| 0 <= i < log.drop_last().len() ==> #[trigger] log.drop_last()[i]
            == log[i]);
        lemma_calls_of_recordable(log.drop_last(), device_id);
    }
}

/// The append-only command ledger, keyed by device identifier.
///
/// The ledger is owned by the fake protocol server, which appends on its
/// dispatch path; a test reads it through snapshot copies. Callers that
/// share one registry between a writer and readers serialize the
/// operations, each of which is a single exclusive access.
pub struct FakeConnectorCallRegistry {
    log: Vec<(u32, FakeMessage)>,
}

impl View for FakeConnectorCallRegistry {
    type V = Seq<(u32, FakeMessageModel)>;

    closed spec fn view(&self) -> Seq<(u32, FakeMessageModel)> {
        self.log@.map_values(|e: (u32, FakeMessage)| (e.0, e.1@))
    }
}

impl FakeConnectorCallRegistry {
    /// Every recorded command is of a recordable kind.
    pub open spec fn wf(self) -> bool {
        forall|i: int| 0 <= i < self@.len() ==> (#[trigger] self@[i].1).message.is_recordable()
    }

    /// The recorded commands of one device, in receipt order.
    pub open spec fn device_calls(self, device_id: u32) -> Seq<FakeMessageModel> {
        calls_of(self@, device_id)
    }

    /// An empty ledger.
    pub fn new() -> (r: Self)
        ensures
            r@ == Seq::<(u32, FakeMessageModel)>::empty(),
            r.wf(),
    {
        let r = FakeConnectorCallRegistry { log: Vec::new() };
        proof {
            assert(r@ =~= Seq::<(u32, FakeMessageModel)>::empty());
        }
        r
    }

    /// Appends one recorded command under the device its message names.
    /// Only a message kind that exposes an owning device identifier can
    /// be recorded.
    pub fn store_record(&mut self, cmd: FakeMessage)
        requires
            cmd@.message.is_recordable(),
            old(self).wf(),
        ensures
            final(self)@ == old(self)@.push((cmd@.message.device_index(), cmd@)),
            final(self).wf(),
    {
        let ghost prior = self@;
        let ghost entry = (cmd@.message.device_index(), cmd@);
        let device_id = cmd.message.device_index();
        self.log.push((device_id, cmd));
        proof {
            assert(self@ =~= prior.push(entry));
        }
    }

    /// A snapshot of the full ordered sequence recorded so far for
    /// `device_id`; empty if the device never received a command.
    /// Subsequent recordings do not mutate the returned copy.
    pub fn get_device(&self, device_id: u32) -> (r: Vec<FakeMessage>)
        ensures
            message_models(r@) == self.device_calls(device_id),
    {
        let mut r: Vec<FakeMessage> = Vec::new();
        let mut i: usize = 0;
        while i < self.log.len()
            invariant
                i <= self.log@.len(),
                self@.len() == self.log@.len(),
                message_models(r@) == calls_of(self@.take(i as int), device_id),
            decreases self.log@.len() - i,
        {
            let ghost prefix = self@.take(i as int);
            let ghost models = message_models(r@);
            if self.log[i].0 == device_id {
                let copy = self.log[i].1.clone();
                r.push(copy);
                proof {
                    assert(message_models(r@) =~= models.push(self@[i as int].1));
                }
            }
            proof {
                assert(self@.take(i + 1).drop_last() =~= prefix);
                assert(self@.take(i + 1).last() == self@[i as int]);
            }
            i += 1;
        }
        proof {
            assert(self@.take(self@.len() as int) =~= self@);
        }
        r
    }

    /// Checks that no command was ever recorded for `device_id`; used to
    /// show that a pattern did not address a non-targeted device.
    pub fn assert_unused(&self, device_id: u32) -> (r: bool)
        ensures
            r == (self.device_calls(device_id).len() == 0),
    {
        self.get_device(device_id).len() == 0
    }
}

impl Default for FakeConnectorCallRegistry {
    /// An empty ledger.
    fn default() -> (r: Self)
        ensures
            r@ == Seq::<(u32, FakeMessageModel)>::empty(),
            r.wf(),
    {
        FakeConnectorCallRegistry::new()
    }
}

/// Law: the scalar value of a scalar command addressed to a device with
/// one actuator round-trips exactly into the recorded sequence: after
/// recording, the device's bucket has grown by exactly that command, and
/// the recorded actuator value equals the one sent, with no rounding.
pub proof fn lemma_scalar_strength_recorded_exactly(
    log: Seq<(u32, FakeMessageModel)>,
    device_id: u32,
    id: u32,
    sub: ScalarSubcommand,
    time: u64,
)
    ensures
        ({
            let m = ClientMessageModel::ScalarCmd { id, device_index: device_id, scalars: seq![sub] };
            let rec = FakeMessageModel { message: m, time };
            let log2 = log.push((device_id, rec));
            &&& calls_of(log2, device_id) == calls_of(log, device_id).push(rec)
            &&& scalars_all_equal(calls_of(log2, device_id).last().message, sub.scalar)
        }),
{
    let m = ClientMessageModel::ScalarCmd { id, device_index: device_id, scalars: seq![sub] };
    let rec = FakeMessageModel { message: m, time };
    lemma_calls_of_push(log, (device_id, rec), device_id);
}

/// Law: a linear command with duration `d` and position `p` is recorded
/// with its position exactly `p`, and its recorded duration lies within
/// the ten-millisecond tolerance around `d` (it is in fact exactly `d`).
pub proof fn lemma_linear_recorded_within_tolerance(
    log: Seq<(u32, FakeMessageModel)>,
    device_id: u32,
    id: u32,
    sub: VectorSubcommand,
    time: u64,
)
    ensures
        ({
            let m = ClientMessageModel::LinearCmd { id, device_index: device_id, vectors: seq![sub] };
            let rec = FakeMessageModel { message: m, time };
            let log2 = log.push((device_id, rec));
            &&& calls_of(log2, device_id) == calls_of(log, device_id).push(rec)
            &&& positions_all_equal(calls_of(log2, device_id).last().message, sub.position)
            &&& durations_all_within(calls_of(log2, device_id).last().message, sub.duration)
        }),
{
    let m = ClientMessageModel::LinearCmd { id, device_index: device_id, vectors: seq![sub] };
    let rec = FakeMessageModel { message: m, time };
    lemma_calls_of_push(log, (device_id, rec), device_id);
}

/// Law: both fields of a rotate command round-trip exactly into the
/// recorded sequence: the recorded motor instructions are the ones sent,
/// with speed and direction unchanged.
pub proof fn lemma_rotate_recorded_exactly(
    log: Seq<(u32, FakeMessageModel)>,
    device_id: u32,
    id: u32,
    sub: RotationSubcommand,
    time: u64,
)
    ensures
        ({
            let m = ClientMessageModel::RotateCmd {
                id,
                device_index: device_id,
                rotations: seq![sub],
            };
            let rec = FakeMessageModel { message: m, time };
            let log2 = log.push((device_id, rec));
            &&& calls_of(log2, device_id) == calls_of(log, device_id).push(rec)
            &&& calls_of(log2, device_id).last().message == m
            &&& rotations_all_at_speed(calls_of(log2, device_id).last().message, sub.speed)
            &&& rotations_all_in_direction(calls_of(log2, device_id).last().message, sub.clockwise)
        }),
{
    let m = ClientMessageModel::RotateCmd { id, device_index: device_id, rotations: seq![sub] };
    let rec = FakeMessageModel { message: m, time };
    lemma_calls_of_push(log, (device_id, rec), device_id);
}

/// Law: a stop-all command never appears in any device's recorded
/// sequence, whatever the roster and however many commands were
/// recorded before: every recorded command exposes an owning device
/// identifier, and a stop-all command carries none.
pub proof fn lemma_stop_all_never_recorded(reg: FakeConnectorCallRegistry, device_id: u32)
    requires
        reg.wf(),
    ensures
        forall|i: int|
            0 <= i < reg.device_calls(device_id).len() ==> !((
            #[trigger] reg.device_calls(device_id)[i]).message is StopAllDevices),
{
    lemma_calls_of_recordable(reg@, device_id);
}

} // verus!
