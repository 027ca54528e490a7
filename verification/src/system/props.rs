//! The names of the properties, by the category of their values.
//!
//! Each enum below lists the properties that hold values of one category.
//! A property has one number, by which the runtime knows it, and no two
//! properties share a number.

use crate::pose::Matrix3x4;
use crate::system::private::SealedProperty;
use crate::system::TrackedDevicePropertyName;
use crate::text::NulString;
use vstd::prelude::*;

verus! {

/// The properties that hold a truth value.
#[allow(non_camel_case_types)]
#[derive(Clone, Copy, Debug, PartialEq, Eq, Structural)]
pub enum Bool {
    WillDriftInYaw,
    DeviceIsWireless,
    DeviceIsCharging,
    Firmware_UpdateAvailable,
    Firmware_ManualUpdate,
    BlockServerShutdown,
    CanUnifyCoordinateSystemWithHmd,
    ContainsProximitySensor,
    DeviceProvidesBatteryStatus,
    DeviceCanPowerOff,
    HasCamera,
    Firmware_ForceUpdateRequired,
    ViveSystemButtonFixRequired,
    NeverTracked,
    Identifiable,
    Firmware_RemindUpdate,
    ReportsTimeSinceVSync,
    IsOnDesktop,
    DisplaySuppressed,
    DisplayAllowNightMode,
    DriverDirectModeSendsVsyncEvents,
    DisplayDebugMode,
    DoNotApplyPrediction,
    DriverIsDrawingControllers,
    DriverRequestsApplicationPause,
    DriverRequestsReducedRendering,
    ConfigurationIncludesLighthouse20Features,
    DriverProvidedChaperoneVisibility,
    CameraSupportsCompatibilityModes,
    SupportsRoomViewDepthProjection,
    DisplaySupportsMultipleFramerates,
    DisplaySupportsRuntimeFramerateChange,
    DisplaySupportsAnalogGain,
    Hmd_SupportsHDCP14LegacyCompat,
    Hmd_SupportsMicMonitoring,
    Audio_SupportsDualSpeakerAndJackOutput,
    CanWirelessIdentify,
    HasDisplayComponent,
    HasControllerComponent,
    HasCameraComponent,
    HasDriverDirectModeComponent,
    HasVirtualDisplayComponent,
    HasSpatialAnchorsSupport,
}

impl SealedProperty<bool> for Bool {

}

impl TrackedDevicePropertyName<bool> for Bool {
    open spec fn number(self) -> i32 {
        match self {
            Bool::WillDriftInYaw => 1004,
            Bool::DeviceIsWireless => 1010,
            Bool::DeviceIsCharging => 1011,
            Bool::Firmware_UpdateAvailable => 1014,
            Bool::Firmware_ManualUpdate => 1015,
            Bool::BlockServerShutdown => 1023,
            Bool::CanUnifyCoordinateSystemWithHmd => 1024,
            Bool::ContainsProximitySensor => 1025,
            Bool::DeviceProvidesBatteryStatus => 1026,
            Bool::DeviceCanPowerOff => 1027,
            Bool::HasCamera => 1030,
            Bool::Firmware_ForceUpdateRequired => 1032,
            Bool::ViveSystemButtonFixRequired => 1033,
            Bool::NeverTracked => 1038,
            Bool::Identifiable => 1043,
            Bool::Firmware_RemindUpdate => 1047,
            Bool::ReportsTimeSinceVSync => 2000,
            Bool::IsOnDesktop => 2007,
            Bool::DisplaySuppressed => 2036,
            Bool::DisplayAllowNightMode => 2037,
            Bool::DriverDirectModeSendsVsyncEvents => 2043,
            Bool::DisplayDebugMode => 2044,
            Bool::DoNotApplyPrediction => 2054,
            Bool::DriverIsDrawingControllers => 2057,
            Bool::DriverRequestsApplicationPause => 2058,
            Bool::DriverRequestsReducedRendering => 2059,
            Bool::ConfigurationIncludesLighthouse20Features => 2069,
            Bool::DriverProvidedChaperoneVisibility => 2076,
            Bool::CameraSupportsCompatibilityModes => 2078,
            Bool::SupportsRoomViewDepthProjection => 2079,
            Bool::DisplaySupportsMultipleFramerates => 2081,
            Bool::DisplaySupportsRuntimeFramerateChange => 2084,
            Bool::DisplaySupportsAnalogGain => 2085,
            Bool::Hmd_SupportsHDCP14LegacyCompat => 2102,
            Bool::Hmd_SupportsMicMonitoring => 2103,
            Bool::Audio_SupportsDualSpeakerAndJackOutput => 2303,
            Bool::CanWirelessIdentify => 4007,
            Bool::HasDisplayComponent => 6002,
            Bool::HasControllerComponent => 6003,
            Bool::HasCameraComponent => 6004,
            Bool::HasDriverDirectModeComponent => 6005,
            Bool::HasVirtualDisplayComponent => 6006,
            Bool::HasSpatialAnchorsSupport => 6007,
        }
    }

    fn code(self) -> (code: i32) {
        match self {
            Bool::WillDriftInYaw => 1004,
            Bool::DeviceIsWireless => 1010,
            Bool::DeviceIsCharging => 1011,
            Bool::Firmware_UpdateAvailable => 1014,
            Bool::Firmware_ManualUpdate => 1015,
            Bool::BlockServerShutdown => 1023,
            Bool::CanUnifyCoordinateSystemWithHmd => 1024,
            Bool::ContainsProximitySensor => 1025,
            Bool::DeviceProvidesBatteryStatus => 1026,
            Bool::DeviceCanPowerOff => 1027,
            Bool::HasCamera => 1030,
            Bool::Firmware_ForceUpdateRequired => 1032,
            Bool::ViveSystemButtonFixRequired => 1033,
            Bool::NeverTracked => 1038,
            Bool::Identifiable => 1043,
            Bool::Firmware_RemindUpdate => 1047,
            Bool::ReportsTimeSinceVSync => 2000,
            Bool::IsOnDesktop => 2007,
            Bool::DisplaySuppressed => 2036,
            Bool::DisplayAllowNightMode => 2037,
            Bool::DriverDirectModeSendsVsyncEvents => 2043,
            Bool::DisplayDebugMode => 2044,
            Bool::DoNotApplyPrediction => 2054,
            Bool::DriverIsDrawingControllers => 2057,
            Bool::DriverRequestsApplicationPause => 2058,
            Bool::DriverRequestsReducedRendering => 2059,
            Bool::ConfigurationIncludesLighthouse20Features => 2069,
            Bool::DriverProvidedChaperoneVisibility => 2076,
            Bool::CameraSupportsCompatibilityModes => 2078,
            Bool::SupportsRoomViewDepthProjection => 2079,
            Bool::DisplaySupportsMultipleFramerates => 2081,
            Bool::DisplaySupportsRuntimeFramerateChange => 2084,
            Bool::DisplaySupportsAnalogGain => 2085,
            Bool::Hmd_SupportsHDCP14LegacyCompat => 2102,
            Bool::Hmd_SupportsMicMonitoring => 2103,
            Bool::Audio_SupportsDualSpeakerAndJackOutput => 2303,
            Bool::CanWirelessIdentify => 4007,
            Bool::HasDisplayComponent => 6002,
            Bool::HasControllerComponent => 6003,
            Bool::HasCameraComponent => 6004,
            Bool::HasDriverDirectModeComponent => 6005,
            Bool::HasVirtualDisplayComponent => 6006,
            Bool::HasSpatialAnchorsSupport => 6007,
        }
    }
}

/// The properties that hold a signed number of 32 bits.
#[allow(non_camel_case_types)]
#[derive(Clone, Copy, Debug, PartialEq, Eq, Structural)]
pub enum Int32 {
    DeviceClass,
    NumCameras,
    CameraFrameLayout,
    CameraStreamFormat,
    EstimatedDeviceFirstUseTime,
    DisplayMCType,
    EdidVendorID,
    EdidProductID,
    DisplayGCType,
    CameraCompatibilityMode,
    DisplayMCImageWidth,
    DisplayMCImageHeight,
    DisplayMCImageNumChannels,
    ExpectedTrackingReferenceCount,
    ExpectedControllerCount,
    DistortionMeshResolution,
    HmdTrackingStyle,
    DriverRequestedMuraCorrectionMode,
    DriverRequestedMuraFeather_InnerLeft,
    DriverRequestedMuraFeather_InnerRight,
    DriverRequestedMuraFeather_InnerTop,
    DriverRequestedMuraFeather_InnerBottom,
    DriverRequestedMuraFeather_OuterLeft,
    DriverRequestedMuraFeather_OuterRight,
    DriverRequestedMuraFeather_OuterTop,
    DriverRequestedMuraFeather_OuterBottom,
    Axis0Type,
    Axis1Type,
    Axis2Type,
    Axis3Type,
    Axis4Type,
    ControllerRoleHint,
    Nonce,
    ControllerHandSelectionPriority,
}

impl SealedProperty<i32> for Int32 {

}

impl TrackedDevicePropertyName<i32> for Int32 {
    open spec fn number(self) -> i32 {
        match self {
            Int32::DeviceClass => 1029,
            Int32::NumCameras => 1039,
            Int32::CameraFrameLayout => 1040,
            Int32::CameraStreamFormat => 1041,
            Int32::EstimatedDeviceFirstUseTime => 1051,
            Int32::DisplayMCType => 2008,
            Int32::EdidVendorID => 2011,
            Int32::EdidProductID => 2015,
            Int32::DisplayGCType => 2017,
            Int32::CameraCompatibilityMode => 2033,
            Int32::DisplayMCImageWidth => 2038,
            Int32::DisplayMCImageHeight => 2039,
            Int32::DisplayMCImageNumChannels => 2040,
            Int32::ExpectedTrackingReferenceCount => 2049,
            Int32::ExpectedControllerCount => 2050,
            Int32::DistortionMeshResolution => 2056,
            Int32::HmdTrackingStyle => 2075,
            Int32::DriverRequestedMuraCorrectionMode => 2200,
            Int32::DriverRequestedMuraFeather_InnerLeft => 2201,
            Int32::DriverRequestedMuraFeather_InnerRight => 2202,
            Int32::DriverRequestedMuraFeather_InnerTop => 2203,
            Int32::DriverRequestedMuraFeather_InnerBottom => 2204,
            Int32::DriverRequestedMuraFeather_OuterLeft => 2205,
            Int32::DriverRequestedMuraFeather_OuterRight => 2206,
            Int32::DriverRequestedMuraFeather_OuterTop => 2207,
            Int32::DriverRequestedMuraFeather_OuterBottom => 2208,
            Int32::Axis0Type => 3002,
            Int32::Axis1Type => 3003,
            Int32::Axis2Type => 3004,
            Int32::Axis3Type => 3005,
            Int32::Axis4Type => 3006,
            Int32::ControllerRoleHint => 3007,
            Int32::Nonce => 4008,
            Int32::ControllerHandSelectionPriority => 7002,
        }
    }

    fn code(self) -> (code: i32) {
        match self {
            Int32::DeviceClass => 1029,
            Int32::NumCameras => 1039,
            Int32::CameraFrameLayout => 1040,
            Int32::CameraStreamFormat => 1041,
            Int32::EstimatedDeviceFirstUseTime => 1051,
            Int32::DisplayMCType => 2008,
            Int32::EdidVendorID => 2011,
            Int32::EdidProductID => 2015,
            Int32::DisplayGCType => 2017,
            Int32::CameraCompatibilityMode => 2033,
            Int32::DisplayMCImageWidth => 2038,
            Int32::DisplayMCImageHeight => 2039,
            Int32::DisplayMCImageNumChannels => 2040,
            Int32::ExpectedTrackingReferenceCount => 2049,
            Int32::ExpectedControllerCount => 2050,
            Int32::DistortionMeshResolution => 2056,
            Int32::HmdTrackingStyle => 2075,
            Int32::DriverRequestedMuraCorrectionMode => 2200,
            Int32::DriverRequestedMuraFeather_InnerLeft => 2201,
            Int32::DriverRequestedMuraFeather_InnerRight => 2202,
            Int32::DriverRequestedMuraFeather_InnerTop => 2203,
            Int32::DriverRequestedMuraFeather_InnerBottom => 2204,
            Int32::DriverRequestedMuraFeather_OuterLeft => 2205,
            Int32::DriverRequestedMuraFeather_OuterRight => 2206,
            Int32::DriverRequestedMuraFeather_OuterTop => 2207,
            Int32::DriverRequestedMuraFeather_OuterBottom => 2208,
            Int32::Axis0Type => 3002,
            Int32::Axis1Type => 3003,
            Int32::Axis2Type => 3004,
            Int32::Axis3Type => 3005,
            Int32::Axis4Type => 3006,
            Int32::ControllerRoleHint => 3007,
            Int32::Nonce => 4008,
            Int32::ControllerHandSelectionPriority => 7002,
        }
    }
}

/// The properties that hold an unsigned number of 64 bits.
#[allow(non_camel_case_types)]
#[derive(Clone, Copy, Debug, PartialEq, Eq, Structural)]
pub enum Uint64 {
    HardwareRevision,
    FirmwareVersion,
    FPGAVersion,
    VRCVersion,
    RadioVersion,
    DongleVersion,
    ParentDriver,
    BootloaderVersion,
    PeripheralApplicationVersion,
    CurrentUniverseId,
    PreviousUniverseId,
    DisplayFirmwareVersion,
    CameraFirmwareVersion,
    DisplayFPGAVersion,
    DisplayBootloaderVersion,
    DisplayHardwareVersion,
    AudioFirmwareVersion,
    GraphicsAdapterLuid,
    AudioBridgeFirmwareVersion,
    ImageBridgeFirmwareVersion,
    AdditionalRadioFeatures,
    SupportedButtons,
    OverrideContainer,
}

impl SealedProperty<u64> for Uint64 {

}

impl TrackedDevicePropertyName<u64> for Uint64 {
    open spec fn number(self) -> i32 {
        match self {
            Uint64::HardwareRevision => 1017,
            Uint64::FirmwareVersion => 1018,
            Uint64::FPGAVersion => 1019,
            Uint64::VRCVersion => 1020,
            Uint64::RadioVersion => 1021,
            Uint64::DongleVersion => 1022,
            Uint64::ParentDriver => 1034,
            Uint64::BootloaderVersion => 1044,
            Uint64::PeripheralApplicationVersion => 1048,
            Uint64::CurrentUniverseId => 2004,
            Uint64::PreviousUniverseId => 2005,
            Uint64::DisplayFirmwareVersion => 2006,
            Uint64::CameraFirmwareVersion => 2027,
            Uint64::DisplayFPGAVersion => 2029,
            Uint64::DisplayBootloaderVersion => 2030,
            Uint64::DisplayHardwareVersion => 2031,
            Uint64::AudioFirmwareVersion => 2032,
            Uint64::GraphicsAdapterLuid => 2045,
            Uint64::AudioBridgeFirmwareVersion => 2061,
            Uint64::ImageBridgeFirmwareVersion => 2062,
            Uint64::AdditionalRadioFeatures => 2070,
            Uint64::SupportedButtons => 3001,
            Uint64::OverrideContainer => 5152,
        }
    }

    fn code(self) -> (code: i32) {
        match self {
            Uint64::HardwareRevision => 1017,
            Uint64::FirmwareVersion => 1018,
            Uint64::FPGAVersion => 1019,
            Uint64::VRCVersion => 1020,
            Uint64::RadioVersion => 1021,
            Uint64::DongleVersion => 1022,
            Uint64::ParentDriver => 1034,
            Uint64::BootloaderVersion => 1044,
            Uint64::PeripheralApplicationVersion => 1048,
            Uint64::CurrentUniverseId => 2004,
            Uint64::PreviousUniverseId => 2005,
            Uint64::DisplayFirmwareVersion => 2006,
            Uint64::CameraFirmwareVersion => 2027,
            Uint64::DisplayFPGAVersion => 2029,
            Uint64::DisplayBootloaderVersion => 2030,
            Uint64::DisplayHardwareVersion => 2031,
            Uint64::AudioFirmwareVersion => 2032,
            Uint64::GraphicsAdapterLuid => 2045,
            Uint64::AudioBridgeFirmwareVersion => 2061,
            Uint64::ImageBridgeFirmwareVersion => 2062,
            Uint64::AdditionalRadioFeatures => 2070,
            Uint64::SupportedButtons => 3001,
            Uint64::OverrideContainer => 5152,
        }
    }
}

/// The properties that hold a matrix of three rows and four columns.
#[allow(non_camel_case_types)]
#[derive(Clone, Copy, Debug, PartialEq, Eq, Structural)]
pub enum Matrix34 {
    StatusDisplayTransform,
    CameraToHeadTransform,
    ImuToHeadTransform,
}

impl SealedProperty<Matrix3x4> for Matrix34 {

}

impl TrackedDevicePropertyName<Matrix3x4> for Matrix34 {
    open spec fn number(self) -> i32 {
        match self {
            Matrix34::StatusDisplayTransform => 1013,
            Matrix34::CameraToHeadTransform => 2016,
            Matrix34::ImuToHeadTransform => 2063,
        }
    }

    fn code(self) -> (code: i32) {
        match self {
            Matrix34::StatusDisplayTransform => 1013,
            Matrix34::CameraToHeadTransform => 2016,
            Matrix34::ImuToHeadTransform => 2063,
        }
    }
}

/// The properties that hold text.
#[allow(non_camel_case_types)]
#[derive(Clone, Copy, Debug, PartialEq, Eq, Structural)]
pub enum String {
    TrackingSystemName,
    ModelNumber,
    SerialNumber,
    RenderModelName,
    ManufacturerName,
    TrackingFirmwareVersion,
    HardwareRevision,
    AllWirelessDongleDescriptions,
    ConnectedWirelessDongle,
    Firmware_ManualUpdateURL,
    Firmware_ProgrammingTarget,
    DriverVersion,
    ResourceRoot,
    RegisteredDeviceType,
    InputProfilePath,
    AdditionalDeviceSettingsPath,
    AdditionalSystemReportData,
    CompositeFirmwareVersion,
    ManufacturerSerialNumber,
    ComputedSerialNumber,
    DisplayMCImageLeft,
    DisplayMCImageRight,
    DisplayGCImage,
    CameraFirmwareDescription,
    DriverProvidedChaperonePath,
    NamedIconPathControllerLeftDeviceOff,
    NamedIconPathControllerRightDeviceOff,
    NamedIconPathTrackingReferenceDeviceOff,
    ExpectedControllerType,
    HmdColumnCorrectionSettingPrefix,
    Audio_DefaultPlaybackDeviceId,
    Audio_DefaultRecordingDeviceId,
    AttachedDeviceId,
    ModeLabel,
    IconPathName,
    NamedIconPathDeviceOff,
    NamedIconPathDeviceSearching,
    NamedIconPathDeviceSearchingAlert,
    NamedIconPathDeviceReady,
    NamedIconPathDeviceReadyAlert,
    NamedIconPathDeviceNotReady,
    NamedIconPathDeviceStandby,
    NamedIconPathDeviceAlertLow,
    NamedIconPathDeviceStandbyAlert,
    UserConfigPath,
    InstallPath,
    ControllerType,
}

impl SealedProperty<NulString> for String {

}

impl TrackedDevicePropertyName<NulString> for String {
    open spec fn number(self) -> i32 {
        match self {
            String::TrackingSystemName => 1000,
            String::ModelNumber => 1001,
            String::SerialNumber => 1002,
            String::RenderModelName => 1003,
            String::ManufacturerName => 1005,
            String::TrackingFirmwareVersion => 1006,
            String::HardwareRevision => 1007,
            String::AllWirelessDongleDescriptions => 1008,
            String::ConnectedWirelessDongle => 1009,
            String::Firmware_ManualUpdateURL => 1016,
            String::Firmware_ProgrammingTarget => 1028,
            String::DriverVersion => 1031,
            String::ResourceRoot => 1035,
            String::RegisteredDeviceType => 1036,
            String::InputProfilePath => 1037,
            String::AdditionalDeviceSettingsPath => 1042,
            String::AdditionalSystemReportData => 1045,
            String::CompositeFirmwareVersion => 1046,
            String::ManufacturerSerialNumber => 1049,
            String::ComputedSerialNumber => 1050,
            String::DisplayMCImageLeft => 2012,
            String::DisplayMCImageRight => 2013,
            String::DisplayGCImage => 2021,
            String::CameraFirmwareDescription => 2028,
            String::DriverProvidedChaperonePath => 2048,
            String::NamedIconPathControllerLeftDeviceOff => 2051,
            String::NamedIconPathControllerRightDeviceOff => 2052,
            String::NamedIconPathTrackingReferenceDeviceOff => 2053,
            String::ExpectedControllerType => 2074,
            String::HmdColumnCorrectionSettingPrefix => 2077,
            String::Audio_DefaultPlaybackDeviceId => 2300,
            String::Audio_DefaultRecordingDeviceId => 2301,
            String::AttachedDeviceId => 3000,
            String::ModeLabel => 4006,
            String::IconPathName => 5000,
            String::NamedIconPathDeviceOff => 5001,
            String::NamedIconPathDeviceSearching => 5002,
            String::NamedIconPathDeviceSearchingAlert => 5003,
            String::NamedIconPathDeviceReady => 5004,
            String::NamedIconPathDeviceReadyAlert => 5005,
            String::NamedIconPathDeviceNotReady => 5006,
            String::NamedIconPathDeviceStandby => 5007,
            String::NamedIconPathDeviceAlertLow => 5008,
            String::NamedIconPathDeviceStandbyAlert => 5009,
            String::UserConfigPath => 6000,
            String::InstallPath => 6001,
            String::ControllerType => 7000,
        }
    }

    fn code(self) -> (code: i32) {
        match self {
            String::TrackingSystemName => 1000,
            String::ModelNumber => 1001,
            String::SerialNumber => 1002,
            String::RenderModelName => 1003,
            String::ManufacturerName => 1005,
            String::TrackingFirmwareVersion => 1006,
            String::HardwareRevision => 1007,
            String::AllWirelessDongleDescriptions => 1008,
            String::ConnectedWirelessDongle => 1009,
            String::Firmware_ManualUpdateURL => 1016,
            String::Firmware_ProgrammingTarget => 1028,
            String::DriverVersion => 1031,
            String::ResourceRoot => 1035,
            String::RegisteredDeviceType => 1036,
            String::InputProfilePath => 1037,
            String::AdditionalDeviceSettingsPath => 1042,
            String::AdditionalSystemReportData => 1045,
            String::CompositeFirmwareVersion => 1046,
            String::ManufacturerSerialNumber => 1049,
            String::ComputedSerialNumber => 1050,
            String::DisplayMCImageLeft => 2012,
            String::DisplayMCImageRight => 2013,
            String::DisplayGCImage => 2021,
            String::CameraFirmwareDescription => 2028,
            String::DriverProvidedChaperonePath => 2048,
            String::NamedIconPathControllerLeftDeviceOff => 2051,
            String::NamedIconPathControllerRightDeviceOff => 2052,
            String::NamedIconPathTrackingReferenceDeviceOff => 2053,
            String::ExpectedControllerType => 2074,
            String::HmdColumnCorrectionSettingPrefix => 2077,
            String::Audio_DefaultPlaybackDeviceId => 2300,
            String::Audio_DefaultRecordingDeviceId => 2301,
            String::AttachedDeviceId => 3000,
            String::ModeLabel => 4006,
            String::IconPathName => 5000,
            String::NamedIconPathDeviceOff => 5001,
            String::NamedIconPathDeviceSearching => 5002,
            String::NamedIconPathDeviceSearchingAlert => 5003,
            String::NamedIconPathDeviceReady => 5004,
            String::NamedIconPathDeviceReadyAlert => 5005,
            String::NamedIconPathDeviceNotReady => 5006,
            String::NamedIconPathDeviceStandby => 5007,
            String::NamedIconPathDeviceAlertLow => 5008,
            String::NamedIconPathDeviceStandbyAlert => 5009,
            String::UserConfigPath => 6000,
            String::InstallPath => 6001,
            String::ControllerType => 7000,
        }
    }
}

/// No number names properties of two categories: each property belongs to
/// one category, by its number alone.
pub proof fn lemma_categories_share_no_number()
    ensures
        forall|a: Bool, b: Int32| #[trigger] a.number() != #[trigger] b.number(),
        forall|a: Bool, b: Uint64| #[trigger] a.number() != #[trigger] b.number(),
        forall|a: Bool, b: Matrix34| #[trigger] a.number() != #[trigger] b.number(),
        forall|a: Bool, b: String| #[trigger] a.number() != #[trigger] b.number(),
        forall|a: Int32, b: Uint64| #[trigger] a.number() != #[trigger] b.number(),
        forall|a: Int32, b: Matrix34| #[trigger] a.number() != #[trigger] b.number(),
        forall|a: Int32, b: String| #[trigger] a.number() != #[trigger] b.number(),
        forall|a: Uint64, b: Matrix34| #[trigger] a.number() != #[trigger] b.number(),
        forall|a: Uint64, b: String| #[trigger] a.number() != #[trigger] b.number(),
        forall|a: Matrix34, b: String| #[trigger] a.number() != #[trigger] b.number(),
{
}

/// Within a category, two names with one number are one name.
pub proof fn lemma_number_names_one_property()
    ensures
        forall|a: Bool, b: Bool| #[trigger] a.number() == #[trigger] b.number() ==> a == b,
        forall|a: Int32, b: Int32| #[trigger] a.number() == #[trigger] b.number() ==> a == b,
        forall|a: Uint64, b: Uint64| #[trigger] a.number() == #[trigger] b.number() ==> a == b,
        forall|a: Matrix34, b: Matrix34|
            #[trigger] a.number() == #[trigger] b.number() ==> a == b,
        forall|a: String, b: String| #[trigger] a.number() == #[trigger] b.number() ==> a == b,
{
}

} // verus!
