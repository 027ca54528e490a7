use ovr_overlay::errors::{EVROverlayError, LocalFault};
use ovr_overlay::overlay::{OverlayCall, OverlayHandle, OverlayManager};
use ovr_overlay::pose::{is_in_unit_range, Matrix3x4, TrackingUniverseOrigin, ONE_BITS};
use ovr_overlay::{ColorTint, Context, SessionFlag, TextureBounds, TrackedDeviceIndex};

const UNKNOWN_OVERLAY: u32 = 10;

/// A runtime that keeps one number and one color for each overlay it made,
/// and counts the calls it gets.
struct OverlayRuntime {
    alpha: Vec<f32>,
    color: Vec<[f32; 3]>,
    calls: u32,
}

enum Answer {
    Status(u32),
    Handle(u32, u64),
    Number(u32, f32),
    Color(u32, [f32; 3]),
}

impl OverlayRuntime {
    fn new() -> Self {
        OverlayRuntime { alpha: Vec::new(), color: Vec::new(), calls: 0 }
    }

    fn slot(&self, overlay: OverlayHandle) -> Option<usize> {
        let slot = overlay.0.checked_sub(1)? as usize;
        if slot < self.alpha.len() {
            Some(slot)
        } else {
            None
        }
    }

    fn perform(&mut self, call: OverlayCall) -> Answer {
        self.calls += 1;
        match call {
            OverlayCall::CreateOverlay { .. } => {
                self.alpha.push(1.0);
                self.color.push([1.0; 3]);
                Answer::Handle(0, self.alpha.len() as u64)
            }
            OverlayCall::SetOverlayAlpha { overlay, alpha } => match self.slot(overlay) {
                Some(slot) => {
                    self.alpha[slot] = f32::from_bits(alpha);
                    Answer::Status(0)
                }
                None => Answer::Status(UNKNOWN_OVERLAY),
            },
            OverlayCall::GetOverlayAlpha { overlay } => match self.slot(overlay) {
                Some(slot) => Answer::Number(0, self.alpha[slot]),
                None => Answer::Number(UNKNOWN_OVERLAY, 0.0),
            },
            OverlayCall::SetOverlayColor { overlay, r, g, b } => match self.slot(overlay) {
                Some(slot) => {
                    self.color[slot] = [f32::from_bits(r), f32::from_bits(g), f32::from_bits(b)];
                    Answer::Status(0)
                }
                None => Answer::Status(UNKNOWN_OVERLAY),
            },
            OverlayCall::GetOverlayColor { overlay } => match self.slot(overlay) {
                Some(slot) => Answer::Color(0, self.color[slot]),
                None => Answer::Color(UNKNOWN_OVERLAY, [0.0; 3]),
            },
            _ => Answer::Status(0),
        }
    }
}

fn session() -> Context {
    let mut flag = SessionFlag::new();
    Context::init(&mut flag, 0).ok().unwrap()
}

fn create(manager: &OverlayManager, runtime: &mut OverlayRuntime, key: &str) -> OverlayHandle {
    let call = manager.create_overlay(key, "an overlay").unwrap();
    match runtime.perform(call) {
        Answer::Handle(err, handle) => manager.finish_create_overlay(err, handle).unwrap(),
        _ => panic!("creating an overlay gives a handle"),
    }
}

fn set_opacity(
    manager: &OverlayManager,
    runtime: &mut OverlayRuntime,
    overlay: OverlayHandle,
    alpha: f32,
) -> Result<Result<(), EVROverlayError>, LocalFault> {
    let call = manager.set_opacity(overlay, alpha.to_bits())?;
    match runtime.perform(call) {
        Answer::Status(err) => Ok(EVROverlayError::new(err)),
        _ => panic!("setting gives a status"),
    }
}

fn opacity(
    manager: &OverlayManager,
    runtime: &mut OverlayRuntime,
    overlay: OverlayHandle,
) -> Result<f32, EVROverlayError> {
    match runtime.perform(manager.opacity(overlay)) {
        Answer::Number(err, alpha) => EVROverlayError::with_value(err, alpha),
        _ => panic!("reading gives a number"),
    }
}

#[test]
fn the_range_from_zero_to_one_is_told_by_the_bits() {
    let inside = [0.0f32, -0.0, 1.0, 0.5, 0.25, f32::MIN_POSITIVE, 1.0e-40, 0.999_999_94];
    for x in inside {
        assert!((0.0..=1.0).contains(&x));
        assert!(is_in_unit_range(x.to_bits()));
    }
    let outside = [
        1.000_000_1f32,
        2.0,
        -0.5,
        -1.0,
        -1.0e-40,
        -f32::MIN_POSITIVE,
        f32::INFINITY,
        f32::NEG_INFINITY,
        f32::NAN,
        -f32::NAN,
        f32::MAX,
        f32::MIN,
    ];
    for x in outside {
        assert!(!(0.0..=1.0).contains(&x));
        assert!(!is_in_unit_range(x.to_bits()));
    }
    assert_eq!(ONE_BITS, 1.0f32.to_bits());
}

#[test]
fn the_bits_agree_with_the_numbers_across_the_range() {
    let mut bits: u32 = 0;
    loop {
        let x = f32::from_bits(bits);
        assert_eq!(is_in_unit_range(bits), (0.0..=1.0).contains(&x));
        match bits.checked_add(0x0001_0001) {
            Some(next) => bits = next,
            None => break,
        }
    }
    for bits in [0x3F7F_FFFF, 0x3F80_0000, 0x3F80_0001, 0x7FFF_FFFF, 0x8000_0000, 0x8000_0001] {
        assert_eq!(is_in_unit_range(bits), (0.0..=1.0).contains(&f32::from_bits(bits)));
    }
}

#[test]
fn an_opacity_in_range_goes_to_the_runtime_and_comes_back() {
    let session = session();
    let manager = session.overlay_mngr();
    let mut runtime = OverlayRuntime::new();
    let overlay = create(&manager, &mut runtime, "one");
    for alpha in [0.0f32, 0.25, 0.5, 1.0] {
        assert_eq!(set_opacity(&manager, &mut runtime, overlay, alpha), Ok(Ok(())));
        assert_eq!(opacity(&manager, &mut runtime, overlay), Ok(alpha));
    }
}

#[test]
fn an_opacity_out_of_range_never_reaches_the_runtime() {
    let session = session();
    let manager = session.overlay_mngr();
    let mut runtime = OverlayRuntime::new();
    let overlay = create(&manager, &mut runtime, "one");
    let before = runtime.calls;
    for alpha in [1.5f32, -0.1, f32::NAN, f32::INFINITY, -1.0] {
        assert_eq!(
            set_opacity(&manager, &mut runtime, overlay, alpha),
            Err(LocalFault::OutOfUnitRange)
        );
    }
    assert_eq!(runtime.calls, before);
    assert_eq!(opacity(&manager, &mut runtime, overlay), Ok(1.0));
}

#[test]
fn a_session_an_overlay_and_half_an_opacity() {
    let mut flag = SessionFlag::new();
    let session = Context::init(&mut flag, 0).ok().unwrap();
    let manager = session.overlay_mngr();
    let mut runtime = OverlayRuntime::new();
    let overlay = create(&manager, &mut runtime, "scenario");
    assert_eq!(set_opacity(&manager, &mut runtime, overlay, 0.5), Ok(Ok(())));
    assert_eq!(opacity(&manager, &mut runtime, overlay), Ok(0.5));
}

#[test]
fn the_runtime_can_still_refuse_an_opacity() {
    let session = session();
    let manager = session.overlay_mngr();
    let mut runtime = OverlayRuntime::new();
    let nowhere = OverlayHandle(42);
    let outcome = set_opacity(&manager, &mut runtime, nowhere, 0.5).unwrap();
    assert_eq!(outcome.unwrap_err().inner(), UNKNOWN_OVERLAY);
    assert_eq!(opacity(&manager, &mut runtime, nowhere).unwrap_err().inner(), UNKNOWN_OVERLAY);
}

#[test]
fn a_curvature_must_lie_between_flat_and_round() {
    let session = session();
    let manager = session.overlay_mngr();
    let overlay = OverlayHandle(1);
    match manager.set_curvature(overlay, 0.75f32.to_bits()) {
        Ok(OverlayCall::SetOverlayCurvature { overlay: o, curvature }) => {
            assert_eq!(o, overlay);
            assert_eq!(f32::from_bits(curvature), 0.75);
        }
        _ => panic!("a curvature in range is passed on"),
    }
    assert!(matches!(
        manager.set_curvature(overlay, 1.25f32.to_bits()),
        Err(LocalFault::OutOfUnitRange)
    ));
    assert!(matches!(
        manager.set_curvature(overlay, (-0.25f32).to_bits()),
        Err(LocalFault::OutOfUnitRange)
    ));
    assert!(matches!(manager.curvature(overlay), OverlayCall::GetOverlayCurvature { .. }));
}

#[test]
fn keys_and_names_go_over_with_a_terminator() {
    let session = session();
    let manager = session.overlay_mngr();
    match manager.create_overlay("my.key", "My Overlay").unwrap() {
        OverlayCall::CreateOverlay { key, name } => {
            assert_eq!(key.as_bytes_with_nul(), b"my.key\0");
            assert_eq!(name.as_bytes_with_nul(), b"My Overlay\0");
        }
        _ => panic!("creating is one call"),
    }
    assert_eq!(
        manager.create_overlay("my\0key", "My Overlay").err(),
        Some(LocalFault::InteriorNul { position: 2 })
    );
    assert_eq!(
        manager.create_overlay("my.key", "My\0 Overlay\0").err(),
        Some(LocalFault::InteriorNul { position: 2 })
    );
    assert_eq!(
        manager.create_overlay("\0", "a\0").err(),
        Some(LocalFault::InteriorNul { position: 0 })
    );
}

#[test]
fn a_failed_creation_gives_no_handle() {
    let session = session();
    let manager = session.overlay_mngr();
    assert_eq!(manager.finish_create_overlay(0, 9), Ok(OverlayHandle(9)));
    assert_eq!(manager.finish_create_overlay(17, 9).unwrap_err().inner(), 17);
    assert_eq!(OverlayHandle::from(5), OverlayHandle(5));
}

#[test]
fn showing_and_hiding_are_two_calls() {
    let session = session();
    let manager = session.overlay_mngr();
    let overlay = OverlayHandle(3);
    assert!(matches!(
        manager.set_visibility(overlay, true),
        OverlayCall::ShowOverlay { overlay: OverlayHandle(3) }
    ));
    assert!(matches!(
        manager.set_visibility(overlay, false),
        OverlayCall::HideOverlay { overlay: OverlayHandle(3) }
    ));
    assert!(matches!(
        manager.is_visible(overlay),
        OverlayCall::IsOverlayVisible { overlay: OverlayHandle(3) }
    ));
}

#[test]
fn a_tint_is_read_in_two_calls() {
    let session = session();
    let manager = session.overlay_mngr();
    let mut runtime = OverlayRuntime::new();
    let overlay = create(&manager, &mut runtime, "tinted");
    runtime.color[0] = [0.25, 0.5, 0.75];
    runtime.alpha[0] = 0.125;
    let before = runtime.calls;
    let (color, next) = match runtime.perform(manager.tint(overlay)) {
        Answer::Color(err, [r, g, b]) => manager
            .finish_tint_color(overlay, err, r.to_bits(), g.to_bits(), b.to_bits())
            .unwrap(),
        _ => panic!("the first call gives the color"),
    };
    assert_eq!(color.a, ONE_BITS);
    let tint = match runtime.perform(next) {
        Answer::Number(err, a) => manager.finish_tint_alpha(color, err, a.to_bits()).unwrap(),
        _ => panic!("the second call gives the opacity"),
    };
    assert_eq!(
        tint,
        ColorTint {
            r: 0.25f32.to_bits(),
            g: 0.5f32.to_bits(),
            b: 0.75f32.to_bits(),
            a: 0.125f32.to_bits()
        }
    );
    assert_eq!(runtime.calls, before + 2);
}

#[test]
fn a_tint_whose_color_fails_asks_no_further() {
    let session = session();
    let manager = session.overlay_mngr();
    let overlay = OverlayHandle(1);
    let failed = manager.finish_tint_color(overlay, 11, 0, 0, 0);
    assert_eq!(failed.unwrap_err().inner(), 11);
    let color = ColorTint::default();
    assert_eq!(manager.finish_tint_alpha(color, 12, 0).unwrap_err().inner(), 12);
}

#[test]
fn a_tint_is_set_in_two_calls() {
    let session = session();
    let manager = session.overlay_mngr();
    let mut runtime = OverlayRuntime::new();
    let overlay = create(&manager, &mut runtime, "tinted");
    let tint = ColorTint {
        r: 0.5f32.to_bits(),
        g: 0.25f32.to_bits(),
        b: 1.0f32.to_bits(),
        a: 0.75f32.to_bits(),
    };
    let err = match runtime.perform(manager.set_tint(overlay, tint)) {
        Answer::Status(err) => err,
        _ => panic!("setting gives a status"),
    };
    let next = manager.finish_set_tint_color(overlay, tint, err).unwrap();
    assert!(matches!(next, OverlayCall::SetOverlayAlpha { .. }));
    match runtime.perform(next) {
        Answer::Status(err) => assert_eq!(EVROverlayError::new(err), Ok(())),
        _ => panic!("setting gives a status"),
    }
    assert_eq!(runtime.color[0], [0.5, 0.25, 1.0]);
    assert_eq!(runtime.alpha[0], 0.75);
    assert_eq!(manager.finish_set_tint_color(overlay, tint, 10).unwrap_err().inner(), 10);
}

#[test]
fn the_default_tint_changes_nothing() {
    let tint = ColorTint::default();
    for channel in [tint.r, tint.g, tint.b, tint.a] {
        assert_eq!(f32::from_bits(channel), 1.0);
    }
}

#[test]
fn pixel_measures_are_taken_in_32_bits() {
    let session = session();
    let manager = session.overlay_mngr();
    let overlay = OverlayHandle(1);
    assert!(matches!(
        manager.set_raw_data(overlay, 640, 480, 4),
        OverlayCall::SetOverlayRaw { width: 640, height: 480, bytes_per_pixel: 4, .. }
    ));
    let wide = (u32::MAX as usize).wrapping_add(3);
    if wide > u32::MAX as usize {
        assert!(matches!(
            manager.set_raw_data(overlay, wide, 1, 1),
            OverlayCall::SetOverlayRaw { width: 2, height: 1, bytes_per_pixel: 1, .. }
        ));
    }
    assert!(matches!(
        manager.set_raw_data(overlay, u32::MAX as usize, 0, 1),
        OverlayCall::SetOverlayRaw { width: u32::MAX, height: 0, bytes_per_pixel: 1, .. }
    ));
}

#[test]
fn a_transform_relative_to_no_device_is_a_failed_request() {
    let session = session();
    let manager = session.overlay_mngr();
    let written = Matrix3x4([[1, 0, 0, 0], [0, 1, 0, 0], [0, 0, 1, 7]]);
    let mut out = Matrix3x4([[0; 4]; 3]);
    let device = manager
        .finish_get_transform_tracked_device_relative(0, 5, written, &mut out)
        .unwrap();
    assert_eq!(device.get(), 5);
    assert_eq!(out.0, written.0);

    let mut out = Matrix3x4([[0; 4]; 3]);
    let failed = manager.finish_get_transform_tracked_device_relative(0, u32::MAX, written, &mut out);
    assert_eq!(failed, Err(EVROverlayError::request_failed()));
    assert_eq!(failed.unwrap_err().inner(), 23);
    assert_eq!(out.0, written.0);

    let mut out = Matrix3x4([[0; 4]; 3]);
    let failed = manager.finish_get_transform_tracked_device_relative(18, u32::MAX, written, &mut out);
    assert_eq!(failed.unwrap_err().inner(), 18);
    let failed = manager.finish_get_transform_tracked_device_relative(18, 2, written, &mut out);
    assert_eq!(failed.unwrap_err().inner(), 18);
}

#[test]
fn transforms_come_back_with_what_they_are_relative_to() {
    let session = session();
    let manager = session.overlay_mngr();
    let written = Matrix3x4([[9; 4]; 3]);
    let mut out = Matrix3x4([[0; 4]; 3]);
    assert_eq!(
        manager.finish_get_transform_absolute(
            0,
            TrackingUniverseOrigin::TrackingUniverseSeated,
            written,
            &mut out
        ),
        Ok(TrackingUniverseOrigin::TrackingUniverseSeated)
    );
    assert_eq!(out.0, written.0);
    let mut out = Matrix3x4([[0; 4]; 3]);
    let failed = manager.finish_get_transform_absolute(
        18,
        TrackingUniverseOrigin::TrackingUniverseStanding,
        written,
        &mut out,
    );
    assert_eq!(failed.unwrap_err().inner(), 18);
    assert_eq!(out.0, written.0);
    let mut out = Matrix3x4([[0; 4]; 3]);
    assert_eq!(
        manager.finish_get_transform_overlay_relative(0, 77, written, &mut out),
        Ok(OverlayHandle(77))
    );
    assert_eq!(
        manager.finish_get_transform_overlay_relative(18, 77, written, &mut out).unwrap_err().inner(),
        18
    );
}

#[test]
fn the_other_operations_pass_their_arguments_on() {
    let session = session();
    let manager = session.overlay_mngr();
    let overlay = OverlayHandle(8);
    let transform = Matrix3x4([[1, 2, 3, 4], [5, 6, 7, 8], [9, 10, 11, 12]]);
    let index = TrackedDeviceIndex::new(2).unwrap();
    assert!(matches!(manager.width(overlay), OverlayCall::GetOverlayWidthInMeters { .. }));
    match manager.set_width(overlay, 1.5f32.to_bits()) {
        OverlayCall::SetOverlayWidthInMeters { overlay: o, width_in_meters } => {
            assert_eq!((o, f32::from_bits(width_in_meters)), (overlay, 1.5));
        }
        _ => panic!("setting the width is one call"),
    }
    assert!(matches!(manager.texel_aspect(overlay), OverlayCall::GetOverlayTexelAspect { .. }));
    match manager.set_texel_aspect(overlay, 2.0f32.to_bits()) {
        OverlayCall::SetOverlayTexelAspect { aspect, .. } => assert_eq!(f32::from_bits(aspect), 2.0),
        _ => panic!("setting the aspect is one call"),
    }
    match manager.set_transform_absolute(
        overlay,
        TrackingUniverseOrigin::TrackingUniverseStanding,
        &transform,
    ) {
        OverlayCall::SetOverlayTransformAbsolute { overlay: o, origin, transform: t } => {
            assert_eq!(o, overlay);
            assert_eq!(origin, TrackingUniverseOrigin::TrackingUniverseStanding);
            assert_eq!(t.0, transform.0);
        }
        _ => panic!("setting a transform is one call"),
    }
    match manager.set_transform_tracked_device_relative(overlay, index, &transform) {
        OverlayCall::SetOverlayTransformTrackedDeviceRelative { index: i, transform: t, .. } => {
            assert_eq!(i, index);
            assert_eq!(t.0, transform.0);
        }
        _ => panic!("setting a transform is one call"),
    }
    match manager.set_transform_overlay_relatve(overlay, OverlayHandle(9), &transform) {
        OverlayCall::SetOverlayTransformOverlayRelative { child, parent, transform: t } => {
            assert_eq!((child, parent), (overlay, OverlayHandle(9)));
            assert_eq!(t.0, transform.0);
        }
        _ => panic!("setting a transform is one call"),
    }
    assert!(matches!(
        manager.get_transform_absolute(overlay),
        OverlayCall::GetOverlayTransformAbsolute { .. }
    ));
    assert!(matches!(
        manager.get_transform_tracked_device_relative(overlay),
        OverlayCall::GetOverlayTransformTrackedDeviceRelative { .. }
    ));
    assert!(matches!(
        manager.get_transform_overlay_relative(overlay),
        OverlayCall::GetOverlayTransformOverlayRelative { child: OverlayHandle(8) }
    ));
    let bounds = TextureBounds { u_min: 1, v_min: 2, u_max: 3, v_max: 4 };
    match manager.set_texture_bounds(overlay, &bounds) {
        OverlayCall::SetOverlayTextureBounds { bounds: b, .. } => assert_eq!(b, bounds),
        _ => panic!("setting the bounds is one call"),
    }
    let path = ovr_overlay::text::NulString::new(b"/tmp/image.png").unwrap();
    match manager.set_image(overlay, path) {
        OverlayCall::SetOverlayFromFile { path, .. } => {
            assert_eq!(path.as_bytes(), b"/tmp/image.png");
        }
        _ => panic!("setting the image is one call"),
    }
}
