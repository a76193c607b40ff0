use rips::error::Error;
use rips::image::Angle;
use rips::image::BandFormat;
use rips::image::Image;
use rips::image::Kernel;
use rips::image::Scale;
use rips::image::claimed_buffer;
use rips::image::write_status;
use rips::init::InitGuard;
use rips::init::InitOptions;
use rips::init::initialize;
use rips::init::initialize_with_maybe_options;
use rips::init::initialize_with_options;
use rips::text::find_nul;
use rips::varargs::ArgKey;
use rips::varargs::ArgValue;
use rips::varargs::CallArg;
use rips::varargs::OptArg;
use rips::varargs::build_call_args;

fn sample_image(width: i32, height: i32) -> Image {
    Image::from_handle(false, None, width, height).unwrap()
}

#[test]
fn builder_sets_name_and_leak_checks() {
    let opts = InitOptions::default()
        .with_name(String::from("myprog"))
        .with_leak_checks(true);
    let plan = initialize_with_options(opts).unwrap();
    assert_eq!(plan.name, "myprog");
    assert_eq!(plan.leak_checks_on, Some(true));
}

#[test]
fn default_options_resolve_to_fixed_name() {
    let plan = initialize_with_options(InitOptions::default()).unwrap();
    assert_eq!(plan.name, "rips");
    assert_eq!(plan.leak_checks_on, None);
}

#[test]
fn implicit_initialization_uses_defaults() {
    let plan = initialize();
    assert_eq!(plan.name, "rips");
    assert_eq!(plan.leak_checks_on, None);
}

#[test]
fn missing_options_resolve_like_defaults() {
    let plan = initialize_with_maybe_options(None).unwrap();
    assert_eq!(plan.name, "rips");
    assert_eq!(plan.leak_checks_on, None);
}

#[test]
fn nul_in_program_name_is_rejected() {
    let opts = InitOptions::default().with_name(String::from("a\u{0}b"));
    let err = initialize_with_options(opts).unwrap_err();
    assert_eq!(err, Error::NulError(1));
}

#[test]
fn guard_initializes_at_most_once() {
    let mut guard = InitGuard::new();
    let first = guard
        .enter(Some(InitOptions::default().with_leak_checks(true)))
        .unwrap();
    let plan = first.expect("first call must win and yield the plan");
    assert_eq!(plan.leak_checks_on, Some(true));
    let second = guard.enter(Some(InitOptions::default().with_name(String::from("other")))).unwrap();
    assert!(second.is_none(), "later calls must perform no initialization");
    let third = guard.enter(None).unwrap();
    assert!(third.is_none());
}

#[test]
fn guard_stays_open_after_failed_attempt() {
    let mut guard = InitGuard::new();
    let failed = guard.enter(Some(InitOptions::default().with_name(String::from("\u{0}"))));
    assert_eq!(failed.unwrap_err(), Error::NulError(0));
    let plan = guard.enter(None).unwrap().expect("guard must still be open");
    assert_eq!(plan.name, "rips");
}

#[test]
fn find_nul_reports_first_position() {
    assert_eq!(find_nul(b"abc"), None);
    assert_eq!(find_nul(b""), None);
    assert_eq!(find_nul(b"a\0b\0"), Some(1));
    assert_eq!(find_nul(b"\0"), Some(0));
}

#[test]
fn from_file_keeps_clean_path() {
    let req = Image::from_file(b"fixtures/cat.png".to_vec()).unwrap();
    assert_eq!(req.path, b"fixtures/cat.png".to_vec());
}

#[test]
fn from_file_rejects_embedded_nul() {
    let err = Image::from_file(b"bad\0path".to_vec()).unwrap_err();
    assert_eq!(err, Error::NulError(3));
}

#[test]
fn null_handle_becomes_native_error() {
    let err = Image::from_handle(true, Some(String::from("unable to load")), 0, 0).unwrap_err();
    assert_eq!(err, Error::Vips(Some(String::from("unable to load"))));
    assert_eq!(err.message(), "unable to load");
}

#[test]
fn empty_error_buffer_renders_fallback() {
    let err = Image::from_handle(true, None, 0, 0).unwrap_err();
    assert_eq!(err.message(), "Unknown VIPS error");
}

#[test]
fn populated_handle_reports_dimensions() {
    let img = sample_image(640, 480);
    assert_eq!(img.width(), 640);
    assert_eq!(img.height(), 480);
}

#[test]
fn resize_assembles_full_variadic_list() {
    let img = sample_image(100, 50);
    let req = img.resize(
        Scale { num: 2, den: 1 },
        Some(Scale { num: 3, den: 1 }),
        Some(Kernel::Lanczos3),
    );
    assert_eq!(
        req.args,
        vec![
            CallArg::Value(ArgValue::Ratio(Scale { num: 2, den: 1 })),
            CallArg::Key(ArgKey::VScale),
            CallArg::Value(ArgValue::Ratio(Scale { num: 3, den: 1 })),
            CallArg::Key(ArgKey::ResampleKernel),
            CallArg::Value(ArgValue::Resample(Kernel::Lanczos3)),
            CallArg::Terminator,
        ]
    );
}

#[test]
fn resize_without_options_is_minimal_call() {
    let img = sample_image(100, 50);
    let req = img.resize(Scale { num: 1, den: 2 }, None, None);
    assert_eq!(
        req.args,
        vec![
            CallArg::Value(ArgValue::Ratio(Scale { num: 1, den: 2 })),
            CallArg::Terminator,
        ]
    );
}

#[test]
fn build_call_args_keeps_declared_order() {
    let required = vec![ArgValue::Int(9), ArgValue::Int(8)];
    let optional = vec![
        OptArg { key: ArgKey::VScale, value: Some(ArgValue::Int(1)) },
        OptArg { key: ArgKey::ResampleKernel, value: Some(ArgValue::Int(2)) },
    ];
    let out = build_call_args(&required, &optional);
    assert_eq!(
        out,
        vec![
            CallArg::Value(ArgValue::Int(9)),
            CallArg::Value(ArgValue::Int(8)),
            CallArg::Key(ArgKey::VScale),
            CallArg::Value(ArgValue::Int(1)),
            CallArg::Key(ArgKey::ResampleKernel),
            CallArg::Value(ArgValue::Int(2)),
            CallArg::Terminator,
        ]
    );
}

#[test]
fn build_call_args_empty_input_is_just_terminator() {
    let out = build_call_args(&Vec::new(), &Vec::new());
    assert_eq!(out, vec![CallArg::Terminator]);
}

#[test]
fn resize_to_equal_ratios_plans_single_scale() {
    let img = sample_image(100, 50);
    let req = img.resize_to(Some(200), Some(100));
    assert_eq!(req.scale, Scale { num: 200, den: 100 });
    assert_eq!(req.vscale, None, "equal ratios must become one uniform-scale call");
    assert_eq!(req.kernel, None);
    assert!(!req.args.contains(&CallArg::Key(ArgKey::VScale)));
}

#[test]
fn resize_to_distinct_ratios_plans_both_scales() {
    let img = sample_image(100, 50);
    let req = img.resize_to(Some(200), Some(120));
    assert_eq!(req.scale, Scale { num: 200, den: 100 });
    assert_eq!(req.vscale, Some(Scale { num: 120, den: 50 }));
    assert!(req.args.contains(&CallArg::Key(ArgKey::VScale)));
}

#[test]
fn resize_to_width_only_scales_uniformly() {
    let img = sample_image(100, 50);
    let req = img.resize_to(Some(25), None);
    assert_eq!(req.scale, Scale { num: 25, den: 100 });
    assert_eq!(req.vscale, None);
}

#[test]
fn resize_to_height_only_scales_uniformly() {
    let img = sample_image(100, 50);
    let req = img.resize_to(None, Some(25));
    assert_eq!(req.scale, Scale { num: 25, den: 50 });
    assert_eq!(req.vscale, None);
}

#[test]
fn resize_to_no_targets_is_identity() {
    let img = sample_image(123, 77);
    let req = img.resize_to(None, None);
    assert_eq!(req.scale, Scale { num: 1, den: 1 });
    assert_eq!(req.vscale, None);
    assert_eq!(req.kernel, None);
}

#[test]
fn crop_passes_rectangle_through_unclamped() {
    let img = sample_image(100, 50);
    let req = img.crop(90, 0, 20, 10);
    assert_eq!((req.left, req.top, req.width, req.height), (90, 0, 20, 10));
}

#[test]
fn rejected_crop_surfaces_native_error() {
    let out = Image::from_status(-1, Some(String::from("bad extract area")), 0, 0);
    assert_eq!(out.unwrap_err(), Error::Vips(Some(String::from("bad extract area"))));
}

#[test]
fn successful_transform_carries_new_dimensions() {
    let img = Image::from_status(0, None, 20, 10).unwrap();
    assert_eq!((img.width(), img.height()), (20, 10));
}

#[test]
fn rotate_plans_requested_angle() {
    let img = sample_image(10, 10);
    assert_eq!(img.rotate(Angle::D90).angle, Angle::D90);
    assert_eq!(img.rotate(Angle::D270).angle, Angle::D270);
}

#[test]
fn write_to_file_keeps_clean_path() {
    let img = sample_image(10, 10);
    let req = img.write_to_file(b"out.jpg".to_vec()).unwrap();
    assert_eq!(req.path, b"out.jpg".to_vec());
}

#[test]
fn write_to_file_rejects_embedded_nul() {
    let img = sample_image(10, 10);
    let err = img.write_to_file(b"\0out.jpg".to_vec()).unwrap_err();
    assert_eq!(err, Error::NulError(0));
}

#[test]
fn write_status_maps_codes() {
    assert!(write_status(0, None).is_ok());
    let err = write_status(1, Some(String::from("disk full"))).unwrap_err();
    assert_eq!(err, Error::Vips(Some(String::from("disk full"))));
}

#[test]
fn to_buffer_keeps_clean_suffix() {
    let img = sample_image(10, 10);
    let req = img.to_buffer(".png[compression=9]").unwrap();
    assert_eq!(req.suffix, ".png[compression=9]");
}

#[test]
fn to_buffer_rejects_embedded_nul() {
    let img = sample_image(10, 10);
    let err = img.to_buffer(".pn\u{0}g").unwrap_err();
    assert_eq!(err, Error::NulError(3));
}

#[test]
fn claimed_buffer_returns_exact_bytes() {
    let bytes = vec![137u8, 80, 78, 71, 13, 10];
    let out = claimed_buffer(0, None, bytes.clone()).unwrap();
    assert_eq!(out, bytes);
}

#[test]
fn claimed_buffer_failure_keeps_error() {
    let err = claimed_buffer(7, Some(String::from("no known saver")), vec![1, 2, 3]).unwrap_err();
    assert_eq!(err, Error::Vips(Some(String::from("no known saver"))));
}

#[test]
fn from_memory_request_owns_buffer_unchanged() {
    let pixels = vec![0u8, 1, 2, 3, 4, 5, 6, 7];
    let req = Image::from_memory(pixels.clone(), 2, 2, 2, BandFormat::Uchar);
    assert_eq!(req.buf, pixels);
    assert_eq!((req.width, req.height, req.bands), (2, 2, 2));
    assert_eq!(req.format, BandFormat::Uchar);
}

#[test]
fn error_variants_render_their_descriptions() {
    assert_eq!(Error::Vips(None).message(), "Unknown VIPS error");
    assert_eq!(Error::Vips(Some(String::from("boom"))).message(), "boom");
    assert_eq!(Error::NulError(4).message(), "nul byte found in provided data");
    assert_eq!(Error::Io(String::from("file vanished")).message(), "file vanished");
    assert_eq!(Error::Boxed(String::from("inner cause")).message(), "inner cause");
}

#[test]
fn sentinel_image_can_be_made() {
    let _ = Image::new();
}
