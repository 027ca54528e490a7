use ovr_overlay::errors::{
    ETrackedPropertyError, TRACKED_PROP_BUFFER_TOO_SMALL, TRACKED_PROP_WRONG_DATA_TYPE,
};
use ovr_overlay::pose::Matrix3x4;
use ovr_overlay::system::props;
use ovr_overlay::system::{
    Awaiting, Category, Pending, Progress, PropResult, PropertyCall, PropertyReply,
    PropertyValue, RawProperty, Retrieval, Step, TrackedDeviceProperty,
    TrackedDevicePropertyName,
};
use ovr_overlay::text::NulString;
use ovr_overlay::{Context, SessionFlag, TrackedDeviceIndex};

const UNKNOWN_PROPERTY: u32 = 4;

/// What a device holds under one number.
enum Held {
    Bool(bool),
    Int32(i32),
    Uint64(u64),
    Matrix34([[u32; 4]; 3]),
    Text(Vec<u8>),
}

/// A runtime that answers from a table, counts its calls, and keeps its
/// word. The display is its only device.
struct TableRuntime {
    table: Vec<(i32, Held)>,
    calls: Vec<PropertyCall>,
}

impl TableRuntime {
    fn new() -> Self {
        TableRuntime {
            table: vec![
                (1004, Held::Bool(true)),
                (1029, Held::Int32(1)),
                (2031, Held::Uint64(0x1234_5678_9ABC_DEF0)),
                (1013, Held::Matrix34([[1, 2, 3, 4], [5, 6, 7, 8], [9, 10, 11, 12]])),
                (1002, Held::Text(b"LHR-0001".to_vec())),
                (1000, Held::Text(Vec::new())),
            ],
            calls: Vec::new(),
        }
    }

    fn held(&self, index: u32, prop: i32) -> Option<&Held> {
        if index != 0 {
            return None;
        }
        self.table.iter().find(|(number, _)| *number == prop).map(|(_, held)| held)
    }

    fn answer(&mut self, call: PropertyCall) -> PropertyReply {
        self.calls.push(call);
        match call {
            PropertyCall::GetBool { index, prop } => match self.held(index.get(), prop) {
                Some(Held::Bool(value)) => PropertyReply::Bool { value: *value, error: 0 },
                Some(_) => PropertyReply::Bool { value: true, error: TRACKED_PROP_WRONG_DATA_TYPE },
                None => PropertyReply::Bool { value: true, error: UNKNOWN_PROPERTY },
            },
            PropertyCall::GetInt32 { index, prop } => match self.held(index.get(), prop) {
                Some(Held::Int32(value)) => PropertyReply::Int32 { value: *value, error: 0 },
                Some(_) => PropertyReply::Int32 { value: 77, error: TRACKED_PROP_WRONG_DATA_TYPE },
                None => PropertyReply::Int32 { value: 77, error: UNKNOWN_PROPERTY },
            },
            PropertyCall::GetUint64 { index, prop } => match self.held(index.get(), prop) {
                Some(Held::Uint64(value)) => PropertyReply::Uint64 { value: *value, error: 0 },
                Some(_) => PropertyReply::Uint64 { value: 77, error: TRACKED_PROP_WRONG_DATA_TYPE },
                None => PropertyReply::Uint64 { value: 77, error: UNKNOWN_PROPERTY },
            },
            PropertyCall::GetMatrix34 { index, prop } => {
                let junk = Matrix3x4([[77; 4]; 3]);
                match self.held(index.get(), prop) {
                    Some(Held::Matrix34(rows)) => {
                        PropertyReply::Matrix34 { value: Matrix3x4(*rows), error: 0 }
                    }
                    Some(_) => PropertyReply::Matrix34 {
                        value: junk,
                        error: TRACKED_PROP_WRONG_DATA_TYPE,
                    },
                    None => PropertyReply::Matrix34 { value: junk, error: UNKNOWN_PROPERTY },
                }
            }
            PropertyCall::GetString { index, prop, capacity } => {
                let mut buffer = vec![0u8; capacity as usize];
                match self.held(index.get(), prop) {
                    Some(Held::Text(text)) => {
                        let required = text.len() as u32 + 1;
                        if capacity == 0 {
                            PropertyReply::Text { required, buffer, error: 0 }
                        } else if capacity < required {
                            PropertyReply::Text {
                                required,
                                buffer,
                                error: TRACKED_PROP_BUFFER_TOO_SMALL,
                            }
                        } else {
                            buffer[..text.len()].copy_from_slice(text);
                            PropertyReply::Text { required, buffer, error: 0 }
                        }
                    }
                    Some(_) => PropertyReply::Text {
                        required: 0,
                        buffer,
                        error: TRACKED_PROP_WRONG_DATA_TYPE,
                    },
                    None => PropertyReply::Text { required: 0, buffer, error: UNKNOWN_PROPERTY },
                }
            }
        }
    }
}

/// Runs a retrieval against the runtime; `None` where the program would
/// have to be given up.
fn run<T: TrackedDeviceProperty>(
    runtime: &mut TableRuntime,
    retrieval: Retrieval<T>,
) -> Option<PropResult<T>> {
    let mut retrieval = retrieval;
    loop {
        let reply = runtime.answer(retrieval.call());
        match retrieval.resume(reply) {
            Step::Continue(next) => retrieval = next,
            Step::Done(result) => return Some(result),
            Step::Fatal => return None,
        }
    }
}

fn session() -> Context {
    let mut flag = SessionFlag::new();
    Context::init(&mut flag, 0).ok().unwrap()
}

fn hmd() -> TrackedDeviceIndex {
    TrackedDeviceIndex::hmd()
}

fn text_pending(capacity: u32, retried: bool) -> Pending {
    Pending { index: hmd(), prop: 1002, awaiting: Awaiting::TextFetch { capacity, retried } }
}

#[test]
fn each_category_calls_its_own_accessor() {
    let index = TrackedDeviceIndex::new(3).unwrap();
    assert_eq!(
        Pending::begin(Category::Bool, index, 1004).call(),
        PropertyCall::GetBool { index, prop: 1004 }
    );
    assert_eq!(
        Pending::begin(Category::Int32, index, 1029).call(),
        PropertyCall::GetInt32 { index, prop: 1029 }
    );
    assert_eq!(
        Pending::begin(Category::Uint64, index, 2031).call(),
        PropertyCall::GetUint64 { index, prop: 2031 }
    );
    assert_eq!(
        Pending::begin(Category::Matrix34, index, 1013).call(),
        PropertyCall::GetMatrix34 { index, prop: 1013 }
    );
    assert_eq!(
        Pending::begin(Category::Text, index, 1002).call(),
        PropertyCall::GetString { index, prop: 1002, capacity: 0 }
    );
    assert_eq!(
        Pending::begin(Category::Text, index, 1002).awaiting,
        Awaiting::TextProbe
    );
}

#[test]
fn storage_types_name_their_category() {
    assert_eq!(<bool as TrackedDeviceProperty>::kind(), Category::Bool);
    assert_eq!(<i32 as TrackedDeviceProperty>::kind(), Category::Int32);
    assert_eq!(<u64 as TrackedDeviceProperty>::kind(), Category::Uint64);
    assert_eq!(<Matrix3x4 as TrackedDeviceProperty>::kind(), Category::Matrix34);
    assert_eq!(<NulString as TrackedDeviceProperty>::kind(), Category::Text);
    assert_eq!(bool::from_value(PropertyValue::Bool(true)), Some(true));
    assert_eq!(bool::from_value(PropertyValue::Int32(1)), None);
    assert_eq!(i32::from_value(PropertyValue::Int32(-5)), Some(-5));
    assert_eq!(u64::from_value(PropertyValue::Uint64(9)), Some(9));
    assert_eq!(u64::from_value(PropertyValue::Bool(true)), None);
    assert!(Matrix3x4::from_value(PropertyValue::Uint64(9)).is_none());
    assert!(NulString::from_value(PropertyValue::Bool(false)).is_none());
}

#[test]
fn typed_names_read_values_of_their_category() {
    let session = session();
    let system = session.system_mngr();
    let mut runtime = TableRuntime::new();

    let r = system.get_tracked_device_property(hmd(), props::Bool::WillDriftInYaw);
    assert_eq!(run::<bool>(&mut runtime, r), Some(Ok(true)));

    let r = system.get_tracked_device_property(hmd(), props::Int32::DeviceClass);
    assert_eq!(run::<i32>(&mut runtime, r), Some(Ok(1)));

    let r = system.get_tracked_device_property(hmd(), props::Uint64::DisplayHardwareVersion);
    assert_eq!(run::<u64>(&mut runtime, r), Some(Ok(0x1234_5678_9ABC_DEF0)));

    let r = system.get_tracked_device_property(hmd(), props::Matrix34::StatusDisplayTransform);
    let m: Matrix3x4 = run(&mut runtime, r).unwrap().unwrap();
    assert_eq!(m.0, [[1, 2, 3, 4], [5, 6, 7, 8], [9, 10, 11, 12]]);

    assert_eq!(runtime.calls.len(), 4);
}

#[test]
fn text_takes_a_probe_and_a_fetch() {
    let session = session();
    let system = session.system_mngr();
    let mut runtime = TableRuntime::new();
    let r = system.get_tracked_device_property(hmd(), props::String::SerialNumber);
    let text: NulString = run(&mut runtime, r).unwrap().unwrap();
    assert_eq!(text.as_bytes(), b"LHR-0001");
    assert_eq!(
        runtime.calls,
        vec![
            PropertyCall::GetString { index: hmd(), prop: 1002, capacity: 0 },
            PropertyCall::GetString { index: hmd(), prop: 1002, capacity: 9 },
        ]
    );
}

#[test]
fn empty_text_is_its_terminator_alone() {
    let session = session();
    let system = session.system_mngr();
    let mut runtime = TableRuntime::new();
    let r = system.get_tracked_device_property(hmd(), props::String::TrackingSystemName);
    let text: NulString = run(&mut runtime, r).unwrap().unwrap();
    assert_eq!(text.as_bytes(), b"");
    assert_eq!(runtime.calls.len(), 2);
}

#[test]
fn a_failed_probe_ends_the_retrieval_before_any_buffer() {
    let session = session();
    let system = session.system_mngr();
    let mut runtime = TableRuntime::new();
    let r = system.get_tracked_device_property(hmd(), props::String::ModelNumber);
    match run::<NulString>(&mut runtime, r) {
        Some(Err(e)) => assert_eq!(e, ETrackedPropertyError(UNKNOWN_PROPERTY)),
        _ => panic!("the device has no such property"),
    }
    assert_eq!(runtime.calls.len(), 1);
    let pending = Pending::begin(Category::Text, hmd(), 1001);
    let probe = PropertyReply::Text {
        required: 12,
        buffer: Vec::new(),
        error: TRACKED_PROP_BUFFER_TOO_SMALL,
    };
    assert!(matches!(
        pending.resume(probe),
        Progress::Done(Err(ETrackedPropertyError(TRACKED_PROP_BUFFER_TOO_SMALL)))
    ));
}

#[test]
fn the_probe_gives_the_same_length_each_time() {
    let mut runtime = TableRuntime::new();
    let mut lengths = Vec::new();
    for _ in 0..3 {
        let pending = Pending::begin(Category::Text, hmd(), 1002);
        let reply = runtime.answer(pending.call());
        match pending.resume(reply) {
            Progress::Continue(next) => match next.call() {
                PropertyCall::GetString { capacity, .. } => lengths.push(capacity),
                _ => panic!("text is read through the text accessor"),
            },
            _ => panic!("the probe succeeded"),
        }
    }
    assert_eq!(lengths, vec![9, 9, 9]);
    assert!(runtime.calls.iter().all(|call| *call
        == PropertyCall::GetString { index: hmd(), prop: 1002, capacity: 0 }));
}

#[test]
fn asking_for_the_wrong_category_gives_an_error() {
    let session = session();
    let system = session.system_mngr();
    let wrong = Some(Err(ETrackedPropertyError(TRACKED_PROP_WRONG_DATA_TYPE)));

    let mut runtime = TableRuntime::new();
    let r = system.get_tracked_device_property(hmd(), RawProperty(1029));
    assert_eq!(run::<bool>(&mut runtime, r), wrong);
    let r = system.get_tracked_device_property(hmd(), RawProperty(1004));
    assert_eq!(run::<i32>(&mut runtime, r), Some(Err(ETrackedPropertyError(1))));
    let r = system.get_tracked_device_property(hmd(), RawProperty(1002));
    assert_eq!(run::<u64>(&mut runtime, r), Some(Err(ETrackedPropertyError(1))));
    let r = system.get_tracked_device_property(hmd(), RawProperty(2031));
    assert!(matches!(
        run::<Matrix3x4>(&mut runtime, r),
        Some(Err(ETrackedPropertyError(TRACKED_PROP_WRONG_DATA_TYPE)))
    ));
    let r = system.get_tracked_device_property(hmd(), RawProperty(1013));
    assert!(matches!(
        run::<NulString>(&mut runtime, r),
        Some(Err(ETrackedPropertyError(TRACKED_PROP_WRONG_DATA_TYPE)))
    ));
    assert_eq!(runtime.calls.len(), 5);
}

#[test]
fn a_raw_number_reads_as_the_category_asked_for() {
    let session = session();
    let system = session.system_mngr();
    let mut runtime = TableRuntime::new();
    let r = system.get_tracked_device_property(hmd(), RawProperty(2031));
    assert_eq!(run::<u64>(&mut runtime, r), Some(Ok(0x1234_5678_9ABC_DEF0)));
    let r = system.get_tracked_device_property(hmd(), RawProperty(1004));
    assert_eq!(run::<bool>(&mut runtime, r), Some(Ok(true)));
    assert_eq!(TrackedDevicePropertyName::<bool>::code(RawProperty(-3)), -3);
}

#[test]
fn a_reply_of_another_category_is_never_read() {
    let pending = Pending::begin(Category::Bool, hmd(), 1004);
    let reply = PropertyReply::Int32 { value: 1, error: 0 };
    assert!(matches!(
        pending.resume(reply),
        Progress::Done(Err(ETrackedPropertyError(TRACKED_PROP_WRONG_DATA_TYPE)))
    ));
    let pending = Pending::begin(Category::Text, hmd(), 1002);
    let reply = PropertyReply::Bool { value: true, error: 0 };
    assert!(matches!(
        pending.resume(reply),
        Progress::Done(Err(ETrackedPropertyError(TRACKED_PROP_WRONG_DATA_TYPE)))
    ));
    let reply = PropertyReply::Uint64 { value: 1, error: 0 };
    assert!(matches!(
        text_pending(4, false).resume(reply),
        Progress::Done(Err(ETrackedPropertyError(TRACKED_PROP_WRONG_DATA_TYPE)))
    ));
}

#[test]
fn a_value_that_comes_with_an_error_is_dropped() {
    let pending = Pending::begin(Category::Uint64, hmd(), 2031);
    let reply = PropertyReply::Uint64 { value: 99, error: 5 };
    assert!(matches!(pending.resume(reply), Progress::Done(Err(ETrackedPropertyError(5)))));
    let reply = PropertyReply::Text { required: 4, buffer: b"abc\0".to_vec(), error: 6 };
    assert!(matches!(
        text_pending(4, false).resume(reply),
        Progress::Done(Err(ETrackedPropertyError(6)))
    ));
}

#[test]
fn a_buffer_that_is_too_small_is_tried_again_once() {
    let grown = PropertyReply::Text {
        required: 12,
        buffer: vec![0; 9],
        error: TRACKED_PROP_BUFFER_TOO_SMALL,
    };
    match text_pending(9, false).resume(grown) {
        Progress::Continue(next) => {
            assert_eq!(next, text_pending(12, true));
            assert_eq!(
                next.call(),
                PropertyCall::GetString { index: hmd(), prop: 1002, capacity: 12 }
            );
        }
        _ => panic!("the first call with a buffer is tried again"),
    }
    let again = PropertyReply::Text {
        required: 20,
        buffer: vec![0; 12],
        error: TRACKED_PROP_BUFFER_TOO_SMALL,
    };
    assert!(matches!(
        text_pending(12, true).resume(again),
        Progress::Done(Err(ETrackedPropertyError(TRACKED_PROP_BUFFER_TOO_SMALL)))
    ));
    let no_larger = PropertyReply::Text {
        required: 9,
        buffer: vec![0; 9],
        error: TRACKED_PROP_BUFFER_TOO_SMALL,
    };
    assert!(matches!(
        text_pending(9, false).resume(no_larger),
        Progress::Done(Err(ETrackedPropertyError(TRACKED_PROP_BUFFER_TOO_SMALL)))
    ));
}

#[test]
fn a_buffer_without_a_terminator_is_fatal() {
    let reply = PropertyReply::Text { required: 3, buffer: b"abc".to_vec(), error: 0 };
    assert!(matches!(text_pending(3, false).resume(reply), Progress::Fatal));
    let reply = PropertyReply::Text { required: 0, buffer: Vec::new(), error: 0 };
    assert!(matches!(text_pending(0, false).resume(reply), Progress::Fatal));
    let typed: Retrieval<NulString> = Retrieval::begin(hmd(), 1002);
    let probe = PropertyReply::Text { required: 3, buffer: Vec::new(), error: 0 };
    let next = match typed.resume(probe) {
        Step::Continue(next) => next,
        _ => panic!("the probe succeeded"),
    };
    assert_eq!(next.state(), text_pending(3, false));
    let reply = PropertyReply::Text { required: 3, buffer: b"abc".to_vec(), error: 0 };
    assert!(matches!(next.resume(reply), Step::Fatal));
}

#[test]
fn text_that_shrank_is_read_up_to_its_terminator() {
    let reply = PropertyReply::Text { required: 3, buffer: b"ab\0\0\0\0".to_vec(), error: 0 };
    match text_pending(6, false).resume(reply) {
        Progress::Done(Ok(PropertyValue::Text(text))) => assert_eq!(text.as_bytes(), b"ab"),
        _ => panic!("the buffer holds a terminator"),
    }
}

#[test]
fn a_runtime_that_keeps_its_word_is_never_fatal() {
    let session = session();
    let system = session.system_mngr();
    let mut runtime = TableRuntime::new();
    for prop in [1000, 1001, 1002, 1004, 1013, 1029, 2031, 5] {
        let r = system.get_tracked_device_property(hmd(), RawProperty(prop));
        assert!(run::<NulString>(&mut runtime, r).is_some());
        let r = system.get_tracked_device_property(hmd(), RawProperty(prop));
        assert!(run::<bool>(&mut runtime, r).is_some());
    }
}

#[test]
fn a_truth_value_of_the_display_is_a_value_or_an_error() {
    let mut flag = SessionFlag::new();
    let session = Context::init(&mut flag, 0).ok().unwrap();
    let system = session.system_mngr();
    let mut runtime = TableRuntime::new();
    for name in [
        props::Bool::WillDriftInYaw,
        props::Bool::DeviceIsWireless,
        props::Bool::HasCamera,
        props::Bool::HasSpatialAnchorsSupport,
    ] {
        let r = system.get_tracked_device_property(TrackedDeviceIndex::hmd(), name);
        match run::<bool>(&mut runtime, r) {
            Some(Ok(value)) => assert!(value),
            Some(Err(e)) => assert_ne!(e.inner(), 0),
            None => panic!("a truth value takes no buffer"),
        }
    }
}

#[test]
fn names_carry_the_numbers_of_the_runtime() {
    assert_eq!(props::Bool::WillDriftInYaw.code(), 1004);
    assert_eq!(props::Bool::HasSpatialAnchorsSupport.code(), 6007);
    assert_eq!(props::Int32::DeviceClass.code(), 1029);
    assert_eq!(props::Int32::ControllerHandSelectionPriority.code(), 7002);
    assert_eq!(props::Uint64::HardwareRevision.code(), 1017);
    assert_eq!(props::Uint64::OverrideContainer.code(), 5152);
    assert_eq!(props::Matrix34::StatusDisplayTransform.code(), 1013);
    assert_eq!(props::Matrix34::CameraToHeadTransform.code(), 2016);
    assert_eq!(props::Matrix34::ImuToHeadTransform.code(), 2063);
    assert_eq!(props::String::TrackingSystemName.code(), 1000);
    assert_eq!(props::String::HardwareRevision.code(), 1007);
    assert_eq!(props::String::ControllerType.code(), 7000);
}
