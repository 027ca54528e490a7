//! Actions and their origins: what is asked of the input interface, and
//! what its answers mean.

use crate::errors::{EVRInputError, LocalFault, INPUT_ERROR_NONE};
use crate::pose::{FloatBits, Matrix3x4, TrackingUniverseOrigin};
use crate::text::{begins_with_text, is_first_nul, text_of, NulString};
use crate::Context;
use vstd::prelude::*;
use vstd::string::StringSliceAdditionalSpecFns;

verus! {

/// The runtime's name for a set of actions.
#[derive(Clone, Copy, Debug, PartialEq, Eq, Structural)]
pub struct ActionSetHandle(pub u64);

/// The runtime's name for one action.
#[derive(Clone, Copy, Debug, PartialEq, Eq, Structural)]
pub struct ActionHandle(pub u64);

/// The runtime's name for a source of input, such as one hand.
#[derive(Clone, Copy, Debug, PartialEq, Eq, Structural)]
pub struct InputValueHandle(pub u64);

/// A set of actions that is to be live, and for which device.
#[derive(Clone, Copy, Debug, PartialEq, Eq, Structural)]
pub struct ActiveActionSet {
    pub action_set: ActionSetHandle,
    pub restricted_to_device: InputValueHandle,
    pub secondary_action_set: ActionSetHandle,
    pub priority: i32,
}

/// The state of an action that is on or off.
#[derive(Clone, Copy, Debug, PartialEq, Eq, Structural)]
pub struct DigitalActionData {
    pub active: bool,
    pub active_origin: InputValueHandle,
    pub state: bool,
    pub changed: bool,
    pub update_time: FloatBits,
}

/// Where a device is and how it moves.
#[derive(Clone, Copy, Debug, PartialEq, Eq)]
pub struct TrackedDevicePose {
    pub device_to_absolute_tracking: Matrix3x4,
    pub velocity: [FloatBits; 3],
    pub angular_velocity: [FloatBits; 3],
    pub tracking_result: i32,
    pub pose_is_valid: bool,
    pub device_is_connected: bool,
}

/// The state of an action that gives a pose.
#[derive(Clone, Copy, Debug, PartialEq, Eq)]
pub struct PoseActionData {
    pub active: bool,
    pub active_origin: InputValueHandle,
    pub pose: TrackedDevicePose,
}

/// What the runtime knows of the origin of an action.
#[derive(Clone, Copy, Debug, PartialEq, Eq)]
pub struct OriginInfo {
    pub device_path: InputValueHandle,
    pub tracked_device_index: u32,
    pub render_model_component_name: [u8; 128],
}

/// A part of the name of an origin.
#[derive(Clone, Copy, Debug, PartialEq, Eq, Structural)]
pub enum InputString {
    Hand,
    ControllerType,
    InputSource,
}

/// The bit that the runtime reads for each part of a name.
pub open spec fn bit_of(part: InputString) -> u32 {
    match part {
        InputString::Hand => 1,
        InputString::ControllerType => 2,
        InputString::InputSource => 4,
    }
}

/// A choice among the parts of the name of an origin.
#[derive(Clone, Copy, Debug, PartialEq, Eq, Structural)]
pub struct InputStringSet {
    pub hand: bool,
    pub controller_type: bool,
    pub input_source: bool,
}

impl InputStringSet {
    /// Whether `part` is chosen.
    pub open spec fn has(self, part: InputString) -> bool {
        match part {
            InputString::Hand => self.hand,
            InputString::ControllerType => self.controller_type,
            InputString::InputSource => self.input_source,
        }
    }

    /// The number that the runtime takes for this choice: the sum of the
    /// bits of the parts chosen.
    pub open spec fn repr(self) -> u32 {
        ((if self.hand {
            bit_of(InputString::Hand)
        } else {
            0
        }) + (if self.controller_type {
            bit_of(InputString::ControllerType)
        } else {
            0
        }) + (if self.input_source {
            bit_of(InputString::InputSource)
        } else {
            0
        })) as u32
    }

    /// This choice and `part`.
    pub open spec fn plus(self, part: InputString) -> InputStringSet {
        match part {
            InputString::Hand => InputStringSet { hand: true, ..self },
            InputString::ControllerType => InputStringSet { controller_type: true, ..self },
            InputString::InputSource => InputStringSet { input_source: true, ..self },
        }
    }

    /// The choice of nothing.
    pub fn empty() -> (set: InputStringSet)
        ensures
            set == (InputStringSet { hand: false, controller_type: false, input_source: false }),
            set.repr() == 0,
    {
        InputStringSet { hand: false, controller_type: false, input_source: false }
    }

    /// This choice and `part`.
    pub fn with(self, part: InputString) -> (set: InputStringSet)
        ensures
            set == self.plus(part),
            forall|other: InputString| set.has(other) == (self.has(other) || other == part),
    {
        match part {
            InputString::Hand => InputStringSet { hand: true, ..self },
            InputString::ControllerType => InputStringSet { controller_type: true, ..self },
            InputString::InputSource => InputStringSet { input_source: true, ..self },
        }
    }

    pub fn contains(&self, part: InputString) -> (chosen: bool)
        ensures
            chosen == self.has(part),
    {
        match part {
            InputString::Hand => self.hand,
            InputString::ControllerType => self.controller_type,
            InputString::InputSource => self.input_source,
        }
    }

    pub fn as_repr(&self) -> (bits: u32)
        ensures
            bits == self.repr(),
            bits < 8,
    {
        let hand: u32 = if self.hand {
            1
        } else {
            0
        };
        let controller_type: u32 = if self.controller_type {
            2
        } else {
            0
        };
        let input_source: u32 = if self.input_source {
            4
        } else {
            0
        };
        hand + controller_type + input_source
    }

    /// The choice that the runtime takes `bits` for. Bits other than those
    /// of the three parts stand for no choice.
    pub fn from_repr(bits: u32) -> (result: Option<InputStringSet>)
        ensures
            result is Some <==> bits < 8,
            result matches Some(set) ==> set.repr() == bits,
    {
        if bits >= 8 {
            None
        } else {
            Some(
                InputStringSet {
                    hand: bits % 2 == 1,
                    controller_type: (bits / 2) % 2 == 1,
                    input_source: bits / 4 == 1,
                },
            )
        }
    }
}

/// The size of the buffer that the name of an origin is read into.
pub const ORIGIN_NAME_CAPACITY: u32 = 100;

/// One call of the input interface.
#[derive(Debug)]
pub enum InputCall {
    SetActionManifestPath { path: NulString },
    GetActionSetHandle { name: NulString },
    GetActionHandle { name: NulString },
    GetInputSourceHandle { name: NulString },
    /// The sets go with the call as they are; the call names their number.
    UpdateActionState { count: u32 },
    GetDigitalActionData { action: ActionHandle, restrict: InputValueHandle },
    GetPoseActionDataRelativeToNow {
        action: ActionHandle,
        universe: TrackingUniverseOrigin,
        seconds_from_now: FloatBits,
        restrict: InputValueHandle,
    },
    /// The name goes into a buffer of `capacity` bytes, all zero; the
    /// runtime is told to write `limit` bytes at most.
    GetOriginLocalizedName { origin: InputValueHandle, capacity: u32, limit: u32, bits: i32 },
    GetOriginTrackedDeviceInfo { origin: InputValueHandle },
}

/// How reading the name of an origin ended.
#[derive(Debug)]
pub enum NameReply {
    Name(String),
    Failed(EVRInputError),
    /// The runtime reported success and left a buffer without a
    /// terminator; the program cannot go on.
    Fatal,
}

/// The part of a session that works on actions.
pub struct InputManager<'c> {
    ctx: &'c Context,
}

impl<'c> InputManager<'c> {
    /// The session that this manager works in.
    pub closed spec fn session(self) -> Context {
        *self.ctx
    }

    pub fn new(ctx: &'c Context) -> (manager: InputManager<'c>)
        ensures
            manager.session() == *ctx,
    {
        InputManager { ctx }
    }

    /// Names the file that describes the actions. A path with a zero byte
    /// in it is turned down here.
    pub fn set_action_manifest(&self, path: &str) -> (result: Result<InputCall, LocalFault>)
        ensures
            result is Ok <==> !path.spec_bytes().contains(0),
            result matches Ok(call) ==> (call matches InputCall::SetActionManifestPath { path: p }
                && p@ == path.spec_bytes()),
            result matches Err(fault) ==> (fault matches LocalFault::InteriorNul { position }
                && is_first_nul(path.spec_bytes(), position as int)),
    {
        match NulString::from_str(path) {
            Ok(path) => Ok(InputCall::SetActionManifestPath { path }),
            Err(fault) => Err(fault),
        }
    }

    pub fn set_action_manifest_raw(&self, path: NulString) -> (call: InputCall)
        ensures
            call == (InputCall::SetActionManifestPath { path }),
    {
        InputCall::SetActionManifestPath { path }
    }

    pub fn get_action_set_handle(&self, name: &str) -> (result: Result<InputCall, LocalFault>)
        ensures
            result is Ok <==> !name.spec_bytes().contains(0),
            result matches Ok(call) ==> (call matches InputCall::GetActionSetHandle { name: n }
                && n@ == name.spec_bytes()),
            result matches Err(fault) ==> (fault matches LocalFault::InteriorNul { position }
                && is_first_nul(name.spec_bytes(), position as int)),
    {
        match NulString::from_str(name) {
            Ok(name) => Ok(InputCall::GetActionSetHandle { name }),
            Err(fault) => Err(fault),
        }
    }

    pub fn get_action_set_handle_raw(&self, name: NulString) -> (call: InputCall)
        ensures
            call == (InputCall::GetActionSetHandle { name }),
    {
        InputCall::GetActionSetHandle { name }
    }

    /// What the answer to the call for the handle of a set of actions
    /// means.
    pub fn finish_get_action_set_handle(&self, err: u32, handle: u64) -> (result: Result<
        ActionSetHandle,
        EVRInputError,
    >)
        ensures
            result == (if err == INPUT_ERROR_NONE {
                Ok::<ActionSetHandle, EVRInputError>(ActionSetHandle(handle))
            } else {
                Err::<ActionSetHandle, EVRInputError>(EVRInputError(err))
            }),
    {
        EVRInputError::with_value(err, ActionSetHandle(handle))
    }

    pub fn get_action_handle(&self, name: &str) -> (result: Result<InputCall, LocalFault>)
        ensures
            result is Ok <==> !name.spec_bytes().contains(0),
            result matches Ok(call) ==> (call matches InputCall::GetActionHandle { name: n } && n@
                == name.spec_bytes()),
            result matches Err(fault) ==> (fault matches LocalFault::InteriorNul { position }
                && is_first_nul(name.spec_bytes(), position as int)),
    {
        match NulString::from_str(name) {
            Ok(name) => Ok(InputCall::GetActionHandle { name }),
            Err(fault) => Err(fault),
        }
    }

    pub fn get_action_handle_raw(&self, name: NulString) -> (call: InputCall)
        ensures
            call == (InputCall::GetActionHandle { name }),
    {
        InputCall::GetActionHandle { name }
    }

    /// What the answer to the call for the handle of an action means.
    pub fn finish_get_action_handle(&self, err: u32, handle: u64) -> (result: Result<
        ActionHandle,
        EVRInputError,
    >)
        ensures
            result == (if err == INPUT_ERROR_NONE {
                Ok::<ActionHandle, EVRInputError>(ActionHandle(handle))
            } else {
                Err::<ActionHandle, EVRInputError>(EVRInputError(err))
            }),
    {
        EVRInputError::with_value(err, ActionHandle(handle))
    }

    pub fn get_input_source_handle(&self, name: &str) -> (result: Result<InputCall, LocalFault>)
        ensures
            result is Ok <==> !name.spec_bytes().contains(0),
            result matches Ok(call) ==> (call matches InputCall::GetInputSourceHandle { name: n }
                && n@ == name.spec_bytes()),
            result matches Err(fault) ==> (fault matches LocalFault::InteriorNul { position }
                && is_first_nul(name.spec_bytes(), position as int)),
    {
        match NulString::from_str(name) {
            Ok(name) => Ok(InputCall::GetInputSourceHandle { name }),
            Err(fault) => Err(fault),
        }
    }

    pub fn get_input_source_handle_raw(&self, name: NulString) -> (call: InputCall)
        ensures
            call == (InputCall::GetInputSourceHandle { name }),
    {
        InputCall::GetInputSourceHandle { name }
    }

    /// What the answer to the call for the handle of a source of input
    /// means.
    pub fn finish_get_input_source_handle(&self, err: u32, handle: u64) -> (result: Result<
        InputValueHandle,
        EVRInputError,
    >)
        ensures
            result == (if err == INPUT_ERROR_NONE {
                Ok::<InputValueHandle, EVRInputError>(InputValueHandle(handle))
            } else {
                Err::<InputValueHandle, EVRInputError>(EVRInputError(err))
            }),
    {
        EVRInputError::with_value(err, InputValueHandle(handle))
    }

    /// Makes `sets` the live sets of actions. The runtime takes their
    /// number in 32 bits: of a larger one it gets the low 32 bits.
    pub fn update_actions(&self, sets: &[ActiveActionSet]) -> (call: InputCall)
        ensures
            call == (InputCall::UpdateActionState { count: crate::overlay::low_32(sets@.len() as usize) }),
    {
        InputCall::UpdateActionState { count: crate::overlay::to_u32(sets.len()) }
    }

    pub fn get_digital_action_data(&self, action: ActionHandle, restrict: InputValueHandle) -> (call:
        InputCall)
        ensures
            call == (InputCall::GetDigitalActionData { action, restrict }),
    {
        InputCall::GetDigitalActionData { action, restrict }
    }

    /// What the answer to [`InputManager::get_digital_action_data`] means.
    pub fn finish_get_digital_action_data(&self, err: u32, data: DigitalActionData) -> (result:
        Result<DigitalActionData, EVRInputError>)
        ensures
            result == (if err == INPUT_ERROR_NONE {
                Ok::<DigitalActionData, EVRInputError>(data)
            } else {
                Err::<DigitalActionData, EVRInputError>(EVRInputError(err))
            }),
    {
        EVRInputError::with_value(err, data)
    }

    pub fn get_pose_action_data_relative_to_now(
        &self,
        action: ActionHandle,
        universe: TrackingUniverseOrigin,
        seconds_from_now: FloatBits,
        restrict: InputValueHandle,
    ) -> (call: InputCall)
        ensures
            call == (InputCall::GetPoseActionDataRelativeToNow {
                action,
                universe,
                seconds_from_now,
                restrict,
            }),
    {
        InputCall::GetPoseActionDataRelativeToNow { action, universe, seconds_from_now, restrict }
    }

    /// What the answer to
    /// [`InputManager::get_pose_action_data_relative_to_now`] means.
    pub fn finish_get_pose_action_data(&self, err: u32, data: PoseActionData) -> (result: Result<
        PoseActionData,
        EVRInputError,
    >)
        ensures
            result == (if err == INPUT_ERROR_NONE {
                Ok::<PoseActionData, EVRInputError>(data)
            } else {
                Err::<PoseActionData, EVRInputError>(EVRInputError(err))
            }),
    {
        EVRInputError::with_value(err, data)
    }

    /// Asks for the parts `bits` of the name of `origin`. The runtime may
    /// fill all of the buffer but its last byte, so that a terminator is
    /// left whatever it writes.
    pub fn get_origin_localized_name(&self, origin: InputValueHandle, bits: InputStringSet) -> (call:
        InputCall)
        ensures
            call == (InputCall::GetOriginLocalizedName {
                origin,
                capacity: ORIGIN_NAME_CAPACITY,
                limit: (ORIGIN_NAME_CAPACITY - 1) as u32,
                bits: bits.repr() as i32,
            }),
    {
        InputCall::GetOriginLocalizedName {
            origin,
            capacity: ORIGIN_NAME_CAPACITY,
            limit: ORIGIN_NAME_CAPACITY - 1,
            bits: bits.as_repr() as i32,
        }
    }

    /// What the answer to [`InputManager::get_origin_localized_name`]
    /// means. The name is what the buffer holds before its first zero
    /// byte, read as text.
    pub fn finish_get_origin_localized_name(&self, err: u32, buffer: Vec<u8>) -> (reply: NameReply)
        ensures
            err != INPUT_ERROR_NONE ==> reply == NameReply::Failed(EVRInputError(err)),
            err == INPUT_ERROR_NONE && !buffer@.contains(0) ==> reply is Fatal,
            err == INPUT_ERROR_NONE && buffer@.contains(0) ==> (reply matches NameReply::Name(name)
                && exists|bytes: Seq<u8>| #[trigger]
                begins_with_text(buffer@, bytes) && name@ == text_of(bytes)),
    {
        match EVRInputError::new(err) {
            Err(e) => NameReply::Failed(e),
            Ok(()) => match NulString::from_buffer(buffer) {
                Some(name) => {
                    assert(begins_with_text(buffer@, name@));
                    NameReply::Name(name.into_string())
                },
                None => NameReply::Fatal,
            },
        }
    }

    pub fn get_origin_tracked_device_info(&self, origin: InputValueHandle) -> (call: InputCall)
        ensures
            call == (InputCall::GetOriginTrackedDeviceInfo { origin }),
    {
        InputCall::GetOriginTrackedDeviceInfo { origin }
    }

    /// What the answer to
    /// [`InputManager::get_origin_tracked_device_info`] means.
    pub fn finish_get_origin_tracked_device_info(&self, err: u32, info: OriginInfo) -> (result:
        Result<OriginInfo, EVRInputError>)
        ensures
            result == (if err == INPUT_ERROR_NONE {
                Ok::<OriginInfo, EVRInputError>(info)
            } else {
                Err::<OriginInfo, EVRInputError>(EVRInputError(err))
            }),
    {
        EVRInputError::with_value(err, info)
    }
}

} // verus!
