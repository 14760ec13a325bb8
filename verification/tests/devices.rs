use gpu_dispatch::buffers::{BufferDescription, BufferSource, FrameSize};
use gpu_dispatch::context::ContextProperties;
use gpu_dispatch::devices::{
    denylisted, find_listed, select_device, DeviceEntry, PlatformEntry,
};
use gpu_dispatch::error::GpuError;
use gpu_dispatch::unit::OclWrapper;

fn device(name: &str, vendor: &str, version: &str, is_gpu: bool) -> DeviceEntry {
    DeviceEntry {
        name: Ok(name.to_string()),
        vendor: Ok(vendor.to_string()),
        version: Ok(version.to_string()),
        is_gpu,
    }
}

fn platform(name: &str, devices: Vec<DeviceEntry>) -> PlatformEntry {
    PlatformEntry { name: Ok(name.to_string()), devices }
}

fn host_buffers() -> BufferDescription {
    BufferDescription {
        buffer_source: BufferSource::Cpu { input_len: 64, output_len: 64 },
        input_size: FrameSize { width: 4, height: 4, row_bytes: 16 },
        output_size: FrameSize { width: 4, height: 4, row_bytes: 16 },
    }
}

fn gl_buffers() -> BufferDescription {
    BufferDescription {
        buffer_source: BufferSource::SharedTextureA { context: 2, input: 3, output: 4 },
        input_size: FrameSize { width: 4, height: 4, row_bytes: 16 },
        output_size: FrameSize { width: 4, height: 4, row_bytes: 16 },
    }
}

fn two_platforms() -> Vec<PlatformEntry> {
    vec![
        platform(
            "Intel(R) OpenCL HD Graphics",
            vec![device("Intel(R) UHD Graphics 630", "Intel(R) Corporation", "OpenCL 3.0 NEO", true)],
        ),
        platform(
            "NVIDIA CUDA",
            vec![
                device("Microsoft Basic Render Driver", "Microsoft", "OpenCL 1.2", true),
                device("GeForce RTX 3080", "NVIDIA Corporation", "OpenCL 3.0 CUDA", true),
            ],
        ),
    ]
}

#[test]
fn listing_has_platform_device_and_version() {
    let platforms = vec![platform(
        "NVIDIA CUDA",
        vec![device("GeForce RTX 3080", "NVIDIA Corporation", "OpenCL 3.0 CUDA", true)],
    )];
    assert_eq!(
        OclWrapper::list_devices(&platforms),
        vec!["NVIDIA CUDA GeForce RTX 3080: OpenCL 3.0 CUDA".to_string()]
    );
}

#[test]
fn listing_keeps_enumeration_order() {
    let platforms = vec![
        platform("North", vec![device("a", "v", "1", true), device("b", "v", "2", false)]),
        platform("East", vec![]),
        platform("South", vec![device("c", "v", "3", true)]),
    ];
    assert_eq!(
        OclWrapper::list_devices(&platforms),
        vec!["North a: 1".to_string(), "North b: 2".to_string(), "South c: 3".to_string()]
    );
}

#[test]
fn listing_of_nothing_is_empty() {
    assert_eq!(OclWrapper::list_devices(&Vec::new()), Vec::<String>::new());
    assert_eq!(OclWrapper::list_devices(&vec![platform("P", vec![])]), Vec::<String>::new());
}

#[test]
fn listing_leaves_out_denylisted_devices() {
    let names = OclWrapper::list_devices(&two_platforms());
    assert_eq!(
        names,
        vec![
            "Intel(R) OpenCL HD Graphics Intel(R) UHD Graphics 630: OpenCL 3.0 NEO".to_string(),
            "NVIDIA CUDA GeForce RTX 3080: OpenCL 3.0 CUDA".to_string(),
        ]
    );
    for name in &names {
        assert!(!name.contains("Microsoft Basic Render Driver"));
    }
}

#[test]
fn denylist_applies_to_the_whole_listing_name() {
    // The denylisted text may sit in any part of the name, or span its parts.
    let platforms = vec![
        platform("Microsoft Basic Render Driver", vec![device("x", "v", "1", true)]),
        platform("Microsoft Basic", vec![device("Render Driver", "v", "1", true)]),
        platform("P", vec![device("x", "v", "Microsoft Basic Render Driver 2", true)]),
        platform("P", vec![device("Microsoft basic render driver", "v", "1", true)]),
    ];
    assert_eq!(
        OclWrapper::list_devices(&platforms),
        vec!["P Microsoft basic render driver: 1".to_string()]
    );
}

#[test]
fn denylisted_matches_substrings() {
    let hit: Vec<char> = "x Microsoft Basic Render Driver y".chars().collect();
    let miss: Vec<char> = "Microsoft Basic Render Drive".chars().collect();
    assert!(denylisted(&hit));
    assert!(!denylisted(&miss));
    assert!(!denylisted(&Vec::new()));
}

#[test]
fn listing_leaves_out_devices_with_failed_queries() {
    let mut nameless = device("a", "v", "1", true);
    nameless.name = Err(-30);
    let mut versionless = device("b", "v", "1", true);
    versionless.version = Err(-30);
    let mut vendorless = device("c", "v", "1", true);
    vendorless.vendor = Err(-30);
    let platforms = vec![
        platform("P", vec![nameless, versionless, vendorless]),
        PlatformEntry { name: Err(-32), devices: vec![device("d", "v", "1", true)] },
    ];
    assert_eq!(OclWrapper::list_devices(&platforms), vec!["P c: 1".to_string()]);
}

#[test]
fn find_listed_counts_listed_devices_only() {
    let platforms = two_platforms();
    assert_eq!(find_listed(&platforms, 0), Some((0, 0)));
    assert_eq!(find_listed(&platforms, 1), Some((1, 1)));
    assert_eq!(find_listed(&platforms, 2), None);
    assert_eq!(find_listed(&Vec::new(), 0), None);
}

#[test]
fn set_device_takes_the_device_listed_at_the_index() {
    let platforms = two_platforms();
    let buffers = gl_buffers();
    let ctx = OclWrapper::set_device(&platforms, 1, &buffers).unwrap();
    assert_eq!(ctx.platform, 1);
    assert_eq!(ctx.device, 1);
    assert_eq!(ctx.device_name, Some("GeForce RTX 3080".to_string()));
    assert_eq!(ctx.context, ContextProperties::GlSharing);
    assert_eq!(ctx.surface_checksum, buffers.buffer_source.get_checksum());
    assert_eq!(ctx.surface_checksum, 1_940_321);
    let first = OclWrapper::set_device(&platforms, 0, &host_buffers()).unwrap();
    assert_eq!((first.platform, first.device), (0, 0));
    assert_eq!(first.context, ContextProperties::Plain);
    assert_eq!(first.surface_checksum, 0);
}

#[test]
fn set_device_out_of_range_is_unavailable() {
    let platforms = two_platforms();
    assert_eq!(
        OclWrapper::set_device(&platforms, 2, &host_buffers()),
        Err(GpuError::DeviceUnavailable)
    );
    assert_eq!(
        OclWrapper::set_device(&platforms, usize::MAX, &host_buffers()),
        Err(GpuError::DeviceUnavailable)
    );
    assert_eq!(
        OclWrapper::set_device(&Vec::new(), 0, &host_buffers()),
        Err(GpuError::DeviceUnavailable)
    );
}

#[test]
fn set_device_reports_a_failed_vendor_query() {
    let mut vendorless = device("c", "v", "1", true);
    vendorless.vendor = Err(-33);
    let platforms = vec![platform("P", vec![vendorless])];
    assert_eq!(
        OclWrapper::set_device(&platforms, 0, &host_buffers()),
        Err(GpuError::DeviceApiFailure(-33))
    );
}

#[test]
fn selection_prefers_the_first_keyword_over_the_first_device() {
    // The first device matches "graphics", the last keyword; the third
    // matches "nvidia", the first keyword.
    let platforms = vec![
        platform(
            "Intel(R) OpenCL HD Graphics",
            vec![device("Intel(R) UHD Graphics 630", "Intel(R) Corporation", "OpenCL 3.0 NEO", true)],
        ),
        platform(
            "Mesa",
            vec![
                device("llvmpipe", "Mesa", "OpenCL 1.1", false),
                device("GeForce RTX 3080", "NVIDIA Corporation", "OpenCL 3.0 CUDA", true),
            ],
        ),
    ];
    assert_eq!(select_device(&platforms), Some((1, 1)));
    let choice = OclWrapper::initialize_context(&platforms, None).unwrap();
    assert_eq!((choice.context.platform, choice.context.device), (1, 1));
    assert_eq!(choice.name, "NVIDIA Corporation GeForce RTX 3080");
    assert_eq!(choice.list_name, "[OpenCL] Mesa GeForce RTX 3080");
    assert_eq!(choice.context.context, ContextProperties::Plain);
    assert_eq!(choice.context.surface_checksum, 0);
    assert_eq!(choice.context.device_name, Some("GeForce RTX 3080".to_string()));
}

#[test]
fn selection_takes_the_first_device_matching_the_keyword() {
    // The platform name counts: every device of "NVIDIA CUDA" matches "nvidia".
    let platforms = vec![
        platform("Portable", vec![device("cpu-sim", "pocl", "1", false)]),
        platform(
            "NVIDIA CUDA",
            vec![device("Tesla T4", "NVIDIA", "3", true), device("GeForce", "NVIDIA", "3", true)],
        ),
    ];
    assert_eq!(select_device(&platforms), Some((1, 0)));
}

#[test]
fn selection_does_not_filter_the_denylist() {
    let platforms = vec![platform(
        "NVIDIA CUDA",
        vec![device("Microsoft Basic Render Driver", "Microsoft", "1", true)],
    )];
    assert_eq!(select_device(&platforms), Some((0, 0)));
    assert_eq!(OclWrapper::list_devices(&platforms), Vec::<String>::new());
}

#[test]
fn selection_ignores_case() {
    let platforms = vec![
        platform("Other", vec![device("Thing", "v", "1", true)]),
        platform("AMD", vec![device("RADEON Pro", "AMD", "2", false)]),
    ];
    assert_eq!(select_device(&platforms), Some((1, 0)));
}

#[test]
fn selection_matches_a_keyword_with_spaces() {
    let platforms = vec![
        platform("Other", vec![device("Thing", "v", "1", true)]),
        platform("AMD Accelerated Parallel Processing", vec![device("gfx1030", "AMD", "2", true)]),
    ];
    assert_eq!(select_device(&platforms), Some((1, 0)));
}

#[test]
fn selection_matches_across_platform_and_device_name() {
    // "graphics" only appears once platform and device are joined by a space:
    // here it does not, the space breaks the word.
    let broken = vec![platform("graph", vec![device("ics", "v", "1", false)])];
    assert_eq!(select_device(&broken), None);
    let joined = vec![platform("accelerated parallel", vec![device("processing", "v", "1", false)])];
    assert_eq!(select_device(&joined), Some((0, 0)));
}

#[test]
fn selection_falls_back_to_the_first_gpu() {
    let platforms = vec![
        platform("Vendor A", vec![device("FPGA card", "A", "1", false)]),
        platform(
            "Vendor B",
            vec![device("DSP", "B", "1", false), device("Mali-T860", "ARM", "2", true)],
        ),
        platform("Vendor C", vec![device("Adreno", "Q", "2", true)]),
    ];
    assert_eq!(select_device(&platforms), Some((1, 1)));
    let choice = OclWrapper::initialize_context(&platforms, Some(&gl_buffers())).unwrap();
    assert_eq!((choice.context.platform, choice.context.device), (1, 1));
    assert_eq!(choice.name, "ARM Mali-T860");
    assert_eq!(choice.list_name, "[OpenCL] Vendor B Mali-T860");
    assert_eq!(choice.context.context, ContextProperties::GlSharing);
    assert_eq!(choice.context.surface_checksum, 1_940_321);
}

#[test]
fn selection_fails_when_nothing_qualifies() {
    assert_eq!(select_device(&Vec::new()), None);
    assert_eq!(
        OclWrapper::initialize_context(&Vec::new(), None),
        Err(GpuError::DeviceUnavailable)
    );
    let platforms = vec![platform("Vendor A", vec![device("FPGA card", "A", "1", false)])];
    assert_eq!(select_device(&platforms), None);
    assert_eq!(
        OclWrapper::initialize_context(&platforms, Some(&host_buffers())),
        Err(GpuError::DeviceUnavailable)
    );
}

#[test]
fn selection_uses_empty_text_for_unreported_names() {
    let mut nameless = device("", "NVIDIA", "1", false);
    nameless.name = Err(-30);
    let platforms = vec![platform("NVIDIA CUDA", vec![nameless])];
    assert_eq!(select_device(&platforms), Some((0, 0)));
    assert_eq!(
        OclWrapper::initialize_context(&platforms, None),
        Err(GpuError::DeviceApiFailure(-30))
    );
}

#[test]
fn initialize_reports_the_first_failed_query() {
    let mut d = device("GeForce", "NVIDIA", "1", true);
    d.vendor = Err(-5);
    d.name = Err(-6);
    let platforms = vec![PlatformEntry { name: Err(-4), devices: vec![d] }];
    // Nothing matches a keyword, the GPU type selects the device.
    assert_eq!(
        OclWrapper::initialize_context(&platforms, None),
        Err(GpuError::DeviceApiFailure(-4))
    );
    let mut d = device("GeForce", "NVIDIA", "1", true);
    d.vendor = Err(-5);
    let platforms = vec![platform("P", vec![d])];
    assert_eq!(
        OclWrapper::initialize_context(&platforms, None),
        Err(GpuError::DeviceApiFailure(-5))
    );
}
