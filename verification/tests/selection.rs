//! Selection tests: queue-family picking and adapter suitability.

use gpu_cmd::adapter::{
    is_device_type_optimal, is_double_buffering_supported, is_present_mode_supported,
    is_surface_format_supported, Adapter, QueueFamily, SurfaceFormat,
    COLOR_SPACE_SRGB_NONLINEAR, DEVICE_TYPE_DISCRETE_GPU, FORMAT_B8G8R8A8_SRGB,
    PRESENT_MODE_FIFO_RELAXED, PRESENT_MODE_IMMEDIATE,
};
use gpu_cmd::error::Error;
use gpu_cmd::pool::{Pool, POOL_CAPACITY};
use gpu_cmd::queue::{Queue, QUEUE_FLAG_GRAPHICS};

const QUEUE_FLAG_COMPUTE: u32 = 2;
const QUEUE_FLAG_TRANSFER: u32 = 4;

fn family(flags: u32, surface_supported: bool) -> QueueFamily {
    QueueFamily { flags, surface_supported }
}

#[test]
fn picked_family_flags_are_a_superset_of_the_request() {
    let families = vec![
        family(QUEUE_FLAG_COMPUTE, true),
        family(QUEUE_FLAG_GRAPHICS | QUEUE_FLAG_COMPUTE | QUEUE_FLAG_TRANSFER, true),
    ];
    let required = QUEUE_FLAG_GRAPHICS | QUEUE_FLAG_COMPUTE;
    let picked = Queue::pick_queue_family(&families, false, required).expect("a family");
    assert_eq!(picked, 1);
    assert_eq!(families[picked as usize].flags & required, required);
}

#[test]
fn first_qualifying_family_wins() {
    let families = vec![
        family(QUEUE_FLAG_GRAPHICS, true),
        family(QUEUE_FLAG_GRAPHICS | QUEUE_FLAG_COMPUTE, true),
    ];
    let picked = Queue::pick_queue_family(&families, true, QUEUE_FLAG_GRAPHICS).expect("a family");
    assert_eq!(picked, 0);
}

#[test]
fn presentation_request_skips_non_presenting_families() {
    let families = vec![
        family(QUEUE_FLAG_GRAPHICS, false),
        family(QUEUE_FLAG_GRAPHICS, true),
    ];
    let picked = Queue::pick_queue_family(&families, true, QUEUE_FLAG_GRAPHICS).expect("a family");
    assert_eq!(picked, 1);
}

#[test]
fn presentation_not_requested_ignores_the_surface_bit() {
    let families = vec![family(QUEUE_FLAG_GRAPHICS, false)];
    let picked = Queue::pick_queue_family(&families, false, QUEUE_FLAG_GRAPHICS).expect("a family");
    assert_eq!(picked, 0);
}

#[test]
fn no_qualifying_family_fails() {
    let families = vec![
        family(QUEUE_FLAG_COMPUTE, true),
        family(QUEUE_FLAG_GRAPHICS, false),
    ];
    let result = Queue::pick_queue_family(&families, true, QUEUE_FLAG_GRAPHICS);
    assert!(matches!(result, Err(Error::NoQueueFamily)));
}

#[test]
fn queue_creation_fails_without_a_graphics_family() {
    let raws: Vec<u64> = (0..POOL_CAPACITY as u64).collect();
    let pool = Pool::new(0xA2, raws);
    let families = vec![family(QUEUE_FLAG_COMPUTE, true)];
    let result = Queue::new(&families, true, 0xB2, pool);
    assert!(matches!(result, Err(Error::NoQueueFamily)));
}

#[test]
fn queue_creation_records_the_picked_family() {
    let raws: Vec<u64> = (0..POOL_CAPACITY as u64).collect();
    let pool = Pool::new(0xA3, raws);
    let families = vec![
        family(QUEUE_FLAG_COMPUTE, true),
        family(QUEUE_FLAG_GRAPHICS, true),
    ];
    let queue = Queue::new(&families, true, 0xB3, pool).expect("queue creation");
    assert_eq!(queue.qfi, 1);
    assert_eq!(queue.raw, 0xB3);
}

fn suitable_adapter() -> Adapter {
    Adapter {
        device_type: DEVICE_TYPE_DISCRETE_GPU,
        min_image_count: 2,
        present_modes: vec![PRESENT_MODE_FIFO_RELAXED],
        present_formats: vec![SurfaceFormat {
            format: FORMAT_B8G8R8A8_SRGB,
            color_space: COLOR_SPACE_SRGB_NONLINEAR,
        }],
        queue_families: vec![family(QUEUE_FLAG_GRAPHICS, true)],
    }
}

#[test]
fn device_type_check() {
    assert!(is_device_type_optimal(DEVICE_TYPE_DISCRETE_GPU));
    // An integrated GPU is not accepted.
    assert!(!is_device_type_optimal(1));
}

#[test]
fn double_buffering_check() {
    assert!(is_double_buffering_supported(2));
    assert!(!is_double_buffering_supported(1));
    assert!(!is_double_buffering_supported(3));
}

#[test]
fn present_mode_check() {
    assert!(is_present_mode_supported(&vec![PRESENT_MODE_FIFO_RELAXED]));
    assert!(is_present_mode_supported(&vec![5, PRESENT_MODE_IMMEDIATE]));
    assert!(!is_present_mode_supported(&vec![]));
    // The ordinary first-in-first-out mode alone is not enough.
    assert!(!is_present_mode_supported(&vec![2]));
}

#[test]
fn surface_format_check() {
    let good = SurfaceFormat {
        format: FORMAT_B8G8R8A8_SRGB,
        color_space: COLOR_SPACE_SRGB_NONLINEAR,
    };
    let wrong_space = SurfaceFormat { format: FORMAT_B8G8R8A8_SRGB, color_space: 1 };
    let wrong_format = SurfaceFormat { format: 44, color_space: COLOR_SPACE_SRGB_NONLINEAR };
    assert!(is_surface_format_supported(&vec![wrong_space, good]));
    assert!(!is_surface_format_supported(&vec![wrong_space, wrong_format]));
    assert!(!is_surface_format_supported(&vec![]));
}

#[test]
fn suitability_needs_every_requirement() {
    let adapter = suitable_adapter();
    assert!(adapter.is_physical_device_suitable());

    let mut integrated = suitable_adapter();
    integrated.device_type = 1;
    assert!(!integrated.is_physical_device_suitable());

    let mut triple = suitable_adapter();
    triple.min_image_count = 3;
    assert!(!triple.is_physical_device_suitable());

    let mut no_mode = suitable_adapter();
    no_mode.present_modes = vec![2];
    assert!(!no_mode.is_physical_device_suitable());

    let mut no_format = suitable_adapter();
    no_format.present_formats = vec![];
    assert!(!no_format.is_physical_device_suitable());
}

#[test]
fn pick_returns_the_first_suitable_adapter() {
    let mut unsuitable = suitable_adapter();
    unsuitable.device_type = 1;
    let adapters = vec![unsuitable, suitable_adapter(), suitable_adapter()];
    let picked = Adapter::pick(&adapters).expect("an adapter");
    assert_eq!(picked, 1);
}

#[test]
fn pick_fails_when_no_adapter_is_suitable() {
    let mut a = suitable_adapter();
    a.min_image_count = 1;
    let mut b = suitable_adapter();
    b.present_modes = vec![];
    let adapters = vec![a, b];
    let result = Adapter::pick(&adapters);
    assert!(matches!(result, Err(Error::NoAdapter)));
}
