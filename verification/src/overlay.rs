//! Overlays: what is asked of the overlay interface, and what its answers
//! mean.
//!
//! An [`OverlayManager`] names the call that an operation makes, after it
//! has checked what can be checked without the runtime. Where it turns a
//! request down, no call is named and so none is made.

use crate::errors::{EVROverlayError, LocalFault};
use crate::pose::{in_unit_range, is_in_unit_range, FloatBits, Matrix3x4, TrackingUniverseOrigin};
use crate::text::{is_first_nul, NulString};
use crate::{ColorTint, Context, TextureBounds, TrackedDeviceIndex};
use vstd::prelude::*;
use vstd::string::StringSliceAdditionalSpecFns;

verus! {

/// The runtime's name for one overlay.
#[derive(Clone, Copy, Debug, PartialEq, Eq, Structural)]
pub struct OverlayHandle(pub u64);

impl From<u64> for OverlayHandle {
    fn from(handle: u64) -> (overlay: OverlayHandle) {
        OverlayHandle(handle)
    }
}

impl vstd::std_specs::convert::FromSpecImpl<u64> for OverlayHandle {
    open spec fn obeys_from_spec() -> bool {
        true
    }

    open spec fn from_spec(handle: u64) -> OverlayHandle {
        OverlayHandle(handle)
    }
}

/// One call of the overlay interface.
#[derive(Debug)]
pub enum OverlayCall {
    CreateOverlay { key: NulString, name: NulString },
    ShowOverlay { overlay: OverlayHandle },
    HideOverlay { overlay: OverlayHandle },
    IsOverlayVisible { overlay: OverlayHandle },
    SetOverlayCurvature { overlay: OverlayHandle, curvature: FloatBits },
    GetOverlayCurvature { overlay: OverlayHandle },
    SetOverlayAlpha { overlay: OverlayHandle, alpha: FloatBits },
    GetOverlayAlpha { overlay: OverlayHandle },
    GetOverlayWidthInMeters { overlay: OverlayHandle },
    SetOverlayWidthInMeters { overlay: OverlayHandle, width_in_meters: FloatBits },
    GetOverlayColor { overlay: OverlayHandle },
    SetOverlayColor { overlay: OverlayHandle, r: FloatBits, g: FloatBits, b: FloatBits },
    SetOverlayFromFile { overlay: OverlayHandle, path: NulString },
    /// The pixels go with the call as they are; the call names their
    /// layout.
    SetOverlayRaw { overlay: OverlayHandle, width: u32, height: u32, bytes_per_pixel: u32 },
    GetOverlayTexelAspect { overlay: OverlayHandle },
    SetOverlayTexelAspect { overlay: OverlayHandle, aspect: FloatBits },
    SetOverlayTransformAbsolute {
        overlay: OverlayHandle,
        origin: TrackingUniverseOrigin,
        transform: Matrix3x4,
    },
    GetOverlayTransformAbsolute { overlay: OverlayHandle },
    SetOverlayTransformTrackedDeviceRelative {
        overlay: OverlayHandle,
        index: TrackedDeviceIndex,
        transform: Matrix3x4,
    },
    GetOverlayTransformTrackedDeviceRelative { overlay: OverlayHandle },
    SetOverlayTransformOverlayRelative {
        child: OverlayHandle,
        parent: OverlayHandle,
        transform: Matrix3x4,
    },
    GetOverlayTransformOverlayRelative { child: OverlayHandle },
    SetOverlayTextureBounds { overlay: OverlayHandle, bounds: TextureBounds },
}

/// The low 32 bits of `n`: what a size becomes where the runtime takes 32
/// bits.
pub open spec fn low_32(n: usize) -> u32 {
    (n as int % 0x1_0000_0000) as u32
}

pub(crate) fn to_u32(n: usize) -> (low: u32)
    ensures
        low == low_32(n),
{
    ((n as u64) % 0x1_0000_0000) as u32
}

/// The part of a session that works on overlays.
pub struct OverlayManager<'c> {
    ctx: &'c Context,
}

impl<'c> OverlayManager<'c> {
    /// The session that this manager works in.
    pub closed spec fn session(self) -> Context {
        *self.ctx
    }

    pub fn new(ctx: &'c Context) -> (manager: OverlayManager<'c>)
        ensures
            manager.session() == *ctx,
    {
        OverlayManager { ctx }
    }

    /// Asks for a new overlay. Neither text may hold a zero byte; where
    /// both do, the fault names the one in `key`.
    pub fn create_overlay(&self, key: &str, friendly_name: &str) -> (result: Result<
        OverlayCall,
        LocalFault,
    >)
        ensures
            result is Ok <==> !key.spec_bytes().contains(0) && !friendly_name.spec_bytes().contains(
                0,
            ),
            result matches Ok(call) ==> (call matches OverlayCall::CreateOverlay { key: k, name: n }
                && k@ == key.spec_bytes() && n@ == friendly_name.spec_bytes()),
            result matches Err(fault) ==> (fault matches LocalFault::InteriorNul { position } && (
            if key.spec_bytes().contains(0) {
                is_first_nul(key.spec_bytes(), position as int)
            } else {
                is_first_nul(friendly_name.spec_bytes(), position as int)
            })),
    {
        let key = match NulString::from_str(key) {
            Ok(key) => key,
            Err(fault) => {
                return Err(fault);
            },
        };
        let name = match NulString::from_str(friendly_name) {
            Ok(name) => name,
            Err(fault) => {
                return Err(fault);
            },
        };
        Ok(OverlayCall::CreateOverlay { key, name })
    }

    /// What the answer to [`OverlayManager::create_overlay`] means.
    pub fn finish_create_overlay(&self, err: u32, handle: u64) -> (result: Result<
        OverlayHandle,
        EVROverlayError,
    >)
        ensures
            result is Ok <==> err == crate::errors::OVERLAY_ERROR_NONE,
            result matches Ok(overlay) ==> overlay == OverlayHandle(handle),
            result matches Err(e) ==> e.code() == err,
    {
        EVROverlayError::with_value(err, OverlayHandle(handle))
    }

    /// Showing and hiding are two calls of the runtime.
    pub fn set_visibility(&self, overlay: OverlayHandle, is_visible: bool) -> (call: OverlayCall)
        ensures
            call == (if is_visible {
                OverlayCall::ShowOverlay { overlay }
            } else {
                OverlayCall::HideOverlay { overlay }
            }),
    {
        if is_visible {
            OverlayCall::ShowOverlay { overlay }
        } else {
            OverlayCall::HideOverlay { overlay }
        }
    }

    pub fn is_visible(&self, overlay: OverlayHandle) -> (call: OverlayCall)
        ensures
            call == (OverlayCall::IsOverlayVisible { overlay }),
    {
        OverlayCall::IsOverlayVisible { overlay }
    }

    /// Sets how far the overlay is bent: zero is flat, one a cylinder.
    /// A curvature outside that range is turned down here.
    pub fn set_curvature(&self, overlay: OverlayHandle, curvature: FloatBits) -> (result: Result<
        OverlayCall,
        LocalFault,
    >)
        ensures
            result == (if in_unit_range(curvature) {
                Ok::<OverlayCall, LocalFault>(OverlayCall::SetOverlayCurvature { overlay, curvature })
            } else {
                Err::<OverlayCall, LocalFault>(LocalFault::OutOfUnitRange)
            }),
    {
        if is_in_unit_range(curvature) {
            Ok(OverlayCall::SetOverlayCurvature { overlay, curvature })
        } else {
            Err(LocalFault::OutOfUnitRange)
        }
    }

    pub fn curvature(&self, overlay: OverlayHandle) -> (call: OverlayCall)
        ensures
            call == (OverlayCall::GetOverlayCurvature { overlay }),
    {
        OverlayCall::GetOverlayCurvature { overlay }
    }

    /// Sets how opaque the overlay is: zero is transparent, one opaque.
    /// An opacity outside that range is turned down here, and the runtime
    /// gets the opacity it is given, bit for bit.
    pub fn set_opacity(&self, overlay: OverlayHandle, alpha: FloatBits) -> (result: Result<
        OverlayCall,
        LocalFault,
    >)
        ensures
            result == (if in_unit_range(alpha) {
                Ok::<OverlayCall, LocalFault>(OverlayCall::SetOverlayAlpha { overlay, alpha })
            } else {
                Err::<OverlayCall, LocalFault>(LocalFault::OutOfUnitRange)
            }),
    {
        if is_in_unit_range(alpha) {
            Ok(OverlayCall::SetOverlayAlpha { overlay, alpha })
        } else {
            Err(LocalFault::OutOfUnitRange)
        }
    }

    pub fn opacity(&self, overlay: OverlayHandle) -> (call: OverlayCall)
        ensures
            call == (OverlayCall::GetOverlayAlpha { overlay }),
    {
        OverlayCall::GetOverlayAlpha { overlay }
    }

    pub fn width(&self, overlay: OverlayHandle) -> (call: OverlayCall)
        ensures
            call == (OverlayCall::GetOverlayWidthInMeters { overlay }),
    {
        OverlayCall::GetOverlayWidthInMeters { overlay }
    }

    pub fn set_width(&self, overlay: OverlayHandle, width_in_meters: FloatBits) -> (call:
        OverlayCall)
        ensures
            call == (OverlayCall::SetOverlayWidthInMeters { overlay, width_in_meters }),
    {
        OverlayCall::SetOverlayWidthInMeters { overlay, width_in_meters }
    }

    /// Reading a tint takes two calls, since the runtime keeps color and
    /// opacity apart. This names the first. Nothing keeps the runtime from
    /// changing either between the two.
    pub fn tint(&self, overlay: OverlayHandle) -> (call: OverlayCall)
        ensures
            call == (OverlayCall::GetOverlayColor { overlay }),
    {
        OverlayCall::GetOverlayColor { overlay }
    }

    /// Takes the answer to the call for the color. Where that call failed
    /// the opacity is not asked for.
    pub fn finish_tint_color(
        &self,
        overlay: OverlayHandle,
        err: u32,
        r: FloatBits,
        g: FloatBits,
        b: FloatBits,
    ) -> (result: Result<(ColorTint, OverlayCall), EVROverlayError>)
        ensures
            result is Ok <==> err == crate::errors::OVERLAY_ERROR_NONE,
            result matches Ok(next) ==> next.0 == (ColorTint { r, g, b, a: crate::pose::ONE_BITS })
                && next.1 == (OverlayCall::GetOverlayAlpha { overlay }),
            result matches Err(e) ==> e.code() == err,
    {
        match EVROverlayError::new(err) {
            Ok(()) => Ok(
                (
                    ColorTint { r, g, b, a: crate::pose::ONE_BITS },
                    OverlayCall::GetOverlayAlpha { overlay },
                ),
            ),
            Err(e) => Err(e),
        }
    }

    /// Takes the answer to the call for the opacity, and completes the
    /// tint.
    pub fn finish_tint_alpha(&self, color: ColorTint, err: u32, a: FloatBits) -> (result: Result<
        ColorTint,
        EVROverlayError,
    >)
        ensures
            result is Ok <==> err == crate::errors::OVERLAY_ERROR_NONE,
            result matches Ok(tint) ==> tint == (ColorTint { r: color.r, g: color.g, b: color.b, a }),
            result matches Err(e) ==> e.code() == err,
    {
        EVROverlayError::with_value(err, ColorTint { r: color.r, g: color.g, b: color.b, a })
    }

    /// Setting a tint takes two calls. This names the first, which sets
    /// the color.
    pub fn set_tint(&self, overlay: OverlayHandle, tint: ColorTint) -> (call: OverlayCall)
        ensures
            call == (OverlayCall::SetOverlayColor { overlay, r: tint.r, g: tint.g, b: tint.b }),
    {
        OverlayCall::SetOverlayColor { overlay, r: tint.r, g: tint.g, b: tint.b }
    }

    /// Takes the answer to the call that set the color. Where that call
    /// failed the opacity is left as it is.
    pub fn finish_set_tint_color(&self, overlay: OverlayHandle, tint: ColorTint, err: u32) -> (result:
        Result<OverlayCall, EVROverlayError>)
        ensures
            result is Ok <==> err == crate::errors::OVERLAY_ERROR_NONE,
            result matches Ok(call) ==> call == (OverlayCall::SetOverlayAlpha {
                overlay,
                alpha: tint.a,
            }),
            result matches Err(e) ==> e.code() == err,
    {
        EVROverlayError::with_value(err, OverlayCall::SetOverlayAlpha { overlay, alpha: tint.a })
    }

    pub fn set_image(&self, overlay: OverlayHandle, img_path: NulString) -> (call: OverlayCall)
        ensures
            call == (OverlayCall::SetOverlayFromFile { overlay, path: img_path }),
    {
        OverlayCall::SetOverlayFromFile { overlay, path: img_path }
    }

    /// Hands the runtime pixels. The runtime takes each measure in 32
    /// bits: of a larger one it gets the low 32 bits.
    pub fn set_raw_data(
        &self,
        overlay: OverlayHandle,
        width: usize,
        height: usize,
        bytes_per_pixel: usize,
    ) -> (call: OverlayCall)
        ensures
            call == (OverlayCall::SetOverlayRaw {
                overlay,
                width: low_32(width),
                height: low_32(height),
                bytes_per_pixel: low_32(bytes_per_pixel),
            }),
    {
        OverlayCall::SetOverlayRaw {
            overlay,
            width: to_u32(width),
            height: to_u32(height),
            bytes_per_pixel: to_u32(bytes_per_pixel),
        }
    }

    pub fn texel_aspect(&self, overlay: OverlayHandle) -> (call: OverlayCall)
        ensures
            call == (OverlayCall::GetOverlayTexelAspect { overlay }),
    {
        OverlayCall::GetOverlayTexelAspect { overlay }
    }

    pub fn set_texel_aspect(&self, overlay: OverlayHandle, aspect: FloatBits) -> (call: OverlayCall)
        ensures
            call == (OverlayCall::SetOverlayTexelAspect { overlay, aspect }),
    {
        OverlayCall::SetOverlayTexelAspect { overlay, aspect }
    }

    pub fn set_transform_absolute(
        &self,
        overlay: OverlayHandle,
        origin: TrackingUniverseOrigin,
        origin_to_overlay: &Matrix3x4,
    ) -> (call: OverlayCall)
        ensures
            call == (OverlayCall::SetOverlayTransformAbsolute {
                overlay,
                origin,
                transform: *origin_to_overlay,
            }),
    {
        OverlayCall::SetOverlayTransformAbsolute { overlay, origin, transform: *origin_to_overlay }
    }

    pub fn get_transform_absolute(&self, overlay: OverlayHandle) -> (call: OverlayCall)
        ensures
            call == (OverlayCall::GetOverlayTransformAbsolute { overlay }),
    {
        OverlayCall::GetOverlayTransformAbsolute { overlay }
    }

    /// What the answer to [`OverlayManager::get_transform_absolute`]
    /// means. The transform is what the runtime wrote, whether the call
    /// succeeded or not.
    pub fn finish_get_transform_absolute(
        &self,
        err: u32,
        origin: TrackingUniverseOrigin,
        written: Matrix3x4,
        origin_to_overlay: &mut Matrix3x4,
    ) -> (result: Result<TrackingUniverseOrigin, EVROverlayError>)
        ensures
            *final(origin_to_overlay) == written,
            result is Ok <==> err == crate::errors::OVERLAY_ERROR_NONE,
            result matches Ok(o) ==> o == origin,
            result matches Err(e) ==> e.code() == err,
    {
        *origin_to_overlay = written;
        EVROverlayError::with_value(err, origin)
    }

    pub fn set_transform_tracked_device_relative(
        &self,
        overlay: OverlayHandle,
        index: TrackedDeviceIndex,
        device_to_overlay: &Matrix3x4,
    ) -> (call: OverlayCall)
        ensures
            call == (OverlayCall::SetOverlayTransformTrackedDeviceRelative {
                overlay,
                index,
                transform: *device_to_overlay,
            }),
    {
        OverlayCall::SetOverlayTransformTrackedDeviceRelative {
            overlay,
            index,
            transform: *device_to_overlay,
        }
    }

    pub fn get_transform_tracked_device_relative(&self, overlay: OverlayHandle) -> (call:
        OverlayCall)
        ensures
            call == (OverlayCall::GetOverlayTransformTrackedDeviceRelative { overlay }),
    {
        OverlayCall::GetOverlayTransformTrackedDeviceRelative { overlay }
    }

    /// What the answer to
    /// [`OverlayManager::get_transform_tracked_device_relative`] means. A
    /// call that succeeded and named no device counts as a request that
    /// failed.
    pub fn finish_get_transform_tracked_device_relative(
        &self,
        err: u32,
        index: u32,
        written: Matrix3x4,
        device_to_overlay: &mut Matrix3x4,
    ) -> (result: Result<TrackedDeviceIndex, EVROverlayError>)
        ensures
            *final(device_to_overlay) == written,
            result is Ok <==> err == crate::errors::OVERLAY_ERROR_NONE && index
                != crate::INVALID_DEVICE_INDEX,
            result matches Ok(device) ==> device.raw() == index,
            result matches Err(e) ==> e.code() == (if err != crate::errors::OVERLAY_ERROR_NONE {
                err
            } else {
                crate::errors::OVERLAY_ERROR_REQUEST_FAILED
            }),
    {
        *device_to_overlay = written;
        match EVROverlayError::new(err) {
            Err(e) => Err(e),
            Ok(()) => match TrackedDeviceIndex::new(index) {
                Ok(device) => Ok(device),
                Err(_) => Err(EVROverlayError::request_failed()),
            },
        }
    }

    pub fn set_transform_overlay_relatve(
        &self,
        child_overlay: OverlayHandle,
        parent_overlay: OverlayHandle,
        parent_to_child: &Matrix3x4,
    ) -> (call: OverlayCall)
        ensures
            call == (OverlayCall::SetOverlayTransformOverlayRelative {
                child: child_overlay,
                parent: parent_overlay,
                transform: *parent_to_child,
            }),
    {
        OverlayCall::SetOverlayTransformOverlayRelative {
            child: child_overlay,
            parent: parent_overlay,
            transform: *parent_to_child,
        }
    }

    pub fn get_transform_overlay_relative(&self, child_overlay: OverlayHandle) -> (call:
        OverlayCall)
        ensures
            call == (OverlayCall::GetOverlayTransformOverlayRelative { child: child_overlay }),
    {
        OverlayCall::GetOverlayTransformOverlayRelative { child: child_overlay }
    }

    /// What the answer to
    /// [`OverlayManager::get_transform_overlay_relative`] means.
    pub fn finish_get_transform_overlay_relative(
        &self,
        err: u32,
        parent: u64,
        written: Matrix3x4,
        parent_to_child: &mut Matrix3x4,
    ) -> (result: Result<OverlayHandle, EVROverlayError>)
        ensures
            *final(parent_to_child) == written,
            result is Ok <==> err == crate::errors::OVERLAY_ERROR_NONE,
            result matches Ok(overlay) ==> overlay == OverlayHandle(parent),
            result matches Err(e) ==> e.code() == err,
    {
        *parent_to_child = written;
        EVROverlayError::with_value(err, OverlayHandle(parent))
    }

    pub fn set_texture_bounds(&self, overlay: OverlayHandle, bounds: &TextureBounds) -> (call:
        OverlayCall)
        ensures
            call == (OverlayCall::SetOverlayTextureBounds { overlay, bounds: *bounds }),
    {
        OverlayCall::SetOverlayTextureBounds { overlay, bounds: *bounds }
    }
}

} // verus!
