use halide_runtime::runtime::{halide_type_t, BufferError, HalideBuffer};
use halide_runtime::runtime_control::{RuntimeAction, RuntimeSettings};

fn float_type() -> halide_type_t {
    halide_type_t { code: 2, bits: 32, lanes: 1 }
}

#[test]
fn i_got_here() {
    assert_eq!(2 + 2, 4);
}

#[test]
fn thread_set() {
    let a = 5;
    let b = 1;
    let mut rt = RuntimeSettings::new();
    let x = rt.halide_set_num_threads(a);
    assert_eq!(x, 0);
    assert_eq!(rt.halide_set_num_threads(b), a);
}

#[test]
fn test_halide_set_trace_file() {
    let a = 0;
    let mut rt = RuntimeSettings::new();
    rt.halide_set_trace_file(a);
    assert_eq!(rt.trace_file, 0);
    assert_eq!(rt.actions, vec![RuntimeAction::SetTraceFile(0)]);
}

#[test]
fn test_shutdown_thread_pool() {
    let mut rt = RuntimeSettings::new();
    rt.halide_shutdown_thread_pool();
    assert_eq!(rt.num_threads, 0);
    assert_eq!(rt.actions, vec![RuntimeAction::ShutdownThreadPool]);
}

#[test]
fn test_shutdown_trace_file() {
    let mut rt = RuntimeSettings::new();
    assert_eq!(rt.halide_shutdown_trace(), 0);
    assert_eq!(rt.trace_file, 0);
    assert_eq!(rt.actions, vec![RuntimeAction::ShutdownTrace]);
}

#[test]
fn shutdown_trace_closes_a_chosen_file() {
    let mut rt = RuntimeSettings::new();
    rt.halide_set_trace_file(7);
    assert_eq!(rt.trace_file, 7);
    assert_eq!(rt.halide_shutdown_trace(), 0);
    assert_eq!(rt.trace_file, 0);
    assert_eq!(
        rt.actions,
        vec![RuntimeAction::SetTraceFile(7), RuntimeAction::ShutdownTrace],
    );
}

#[test]
fn test_Profiler_report() {
    let mut rt = RuntimeSettings::new();
    rt.halide_profiler_report();
    assert_eq!(rt.actions, vec![RuntimeAction::ProfilerReport]);
}

#[test]
fn test_halide_profiler_reset() {
    let mut rt = RuntimeSettings::new();
    rt.halide_profiler_reset();
    assert_eq!(rt.actions, vec![RuntimeAction::ProfilerReset]);
}

#[test]
fn test_halide_memoization_cache_set_size() {
    let x = 0;
    let mut rt = RuntimeSettings::new();
    rt.halide_memoization_cache_set_size(x);
    assert_eq!(rt.cache_size, 0);
    assert_eq!(rt.actions, vec![RuntimeAction::CacheSetSize(0)]);
}

#[test]
fn two_by_one_four_channels() {
    // width=2, height=1, channels=4 over the eight sequential values:
    // strides {4, 8, 1}, element (1, 0, 2) at flat offset 1*4 + 0*8 + 2 = 6.
    let data: Vec<f32> = vec![0.0, 1.0, 2.0, 3.0, 4.0, 5.0, 6.0, 7.0];
    let buf = HalideBuffer {
        width: 2,
        height: 1,
        channels: 4,
        t: float_type(),
        data,
        flags: 1,
    }
    .create_buffer();

    assert_eq!(buf.dim.len(), 3);
    assert_eq!(buf.dim[0].stride, 4);
    assert_eq!(buf.dim[1].stride, 8);
    assert_eq!(buf.dim[2].stride, 1);
    assert_eq!(buf.dim[0].extent, 2);
    assert_eq!(buf.dim[1].extent, 1);
    assert_eq!(buf.dim[2].extent, 4);
    assert_eq!(buf.host[6], 6.0);
    assert_eq!(buf.read_element(1, 0, 2), 6.0);
}

#[test]
fn single_pixel_single_channel() {
    // The degenerate 1x1x1 buffer: strides {1, 1, 1}, sole element at
    // offset 0 with value 42.
    let buf = HalideBuffer {
        width: 1,
        height: 1,
        channels: 1,
        t: float_type(),
        data: vec![42.0f32],
        flags: 0,
    }
    .create_buffer();

    assert_eq!(buf.dim.len(), 3);
    assert_eq!(buf.dim[0].stride, 1);
    assert_eq!(buf.dim[1].stride, 1);
    assert_eq!(buf.dim[2].stride, 1);
    assert_eq!(buf.host[0], 42.0);
    assert_eq!(buf.read_element(0, 0, 0), 42.0);
}

#[test]
fn descriptor_header_fields() {
    let buf = HalideBuffer {
        width: 3,
        height: 2,
        channels: 4,
        t: float_type(),
        data: vec![0.0f32; 24],
        flags: 1,
    }
    .create_buffer();

    assert_eq!(buf.dimensions, 3);
    assert_eq!(buf.device, 0);
    assert!(buf.device_interface.is_none());
    assert!(buf.padding.is_none());
    assert_eq!(buf.flags, 1);
    assert_eq!(buf.type_, float_type());
    assert_eq!(buf.dim[0].min, 0);
    assert_eq!(buf.dim[1].min, 0);
    assert_eq!(buf.dim[2].min, 0);
}

#[test]
fn round_trip_all_coordinates() {
    // width=4, height=3, channels=4: every element written at
    // x*channels + y*width*channels + c comes back from (x, y, c).
    let width = 4i32;
    let height = 3i32;
    let channels = 4i32;
    let n = (width * height * channels) as usize;
    let mut data: Vec<f32> = Vec::with_capacity(n);
    for i in 0..n {
        data.push(i as f32);
    }
    let buf = HalideBuffer {
        width,
        height,
        channels,
        t: float_type(),
        data,
        flags: 1,
    }
    .create_buffer();

    for y in 0..height {
        for x in 0..width {
            for c in 0..channels {
                let offset = x * channels + y * width * channels + c;
                assert_eq!(buf.read_element(x, y, c), offset as f32);
            }
        }
    }
}

#[test]
fn ownership_flag_reaches_every_dimension() {
    let owned = HalideBuffer {
        width: 2,
        height: 2,
        channels: 1,
        t: float_type(),
        data: vec![0.0f32; 4],
        flags: 1,
    }
    .create_buffer();
    assert_eq!(owned.flags, 1);
    for d in &owned.dim {
        assert_eq!(d.flags, 1);
    }

    let alias = HalideBuffer {
        width: 2,
        height: 2,
        channels: 1,
        t: float_type(),
        data: vec![0.0f32; 4],
        flags: 0,
    }
    .create_buffer();
    assert_eq!(alias.flags, 0);
    for d in &alias.dim {
        assert_eq!(d.flags, 0);
    }
}

#[test]
fn wide_flags_truncate_per_dimension() {
    // The descriptor keeps the full 64-bit flags; each dimension entry keeps
    // the low 32 bits, so bit 0 survives in both.
    let buf = HalideBuffer {
        width: 1,
        height: 1,
        channels: 1,
        t: float_type(),
        data: vec![0.0f32],
        flags: 0x1_0000_0001,
    }
    .create_buffer();
    assert_eq!(buf.flags, 0x1_0000_0001);
    for d in &buf.dim {
        assert_eq!(d.flags, 1);
        assert_eq!(d.flags & 1, 1);
    }
}

#[test]
fn integer_elements_round_trip() {
    let buf = HalideBuffer {
        width: 2,
        height: 2,
        channels: 2,
        t: halide_type_t { code: 1, bits: 8, lanes: 1 },
        data: vec![10u8, 11, 12, 13, 20, 21, 22, 23],
        flags: 1,
    }
    .create_buffer();
    // offset of (x, y, c) is x*2 + y*4 + c
    assert_eq!(buf.read_element(0, 0, 0), 10);
    assert_eq!(buf.read_element(1, 0, 1), 13);
    assert_eq!(buf.read_element(0, 1, 0), 20);
    assert_eq!(buf.read_element(1, 1, 1), 23);
}

#[test]
fn shape_mismatch_is_refused() {
    // width=2, height=2, channels=4 wants 16 elements; 10 are handed in.
    let r = HalideBuffer {
        width: 2,
        height: 2,
        channels: 4,
        t: float_type(),
        data: vec![0.0f32; 10],
        flags: 1,
    }
    .try_create_buffer();
    assert!(matches!(r, Err(BufferError::ShapeMismatch)));
}

#[test]
fn invalid_element_type_is_refused() {
    let r = HalideBuffer {
        width: 1,
        height: 1,
        channels: 1,
        t: halide_type_t { code: 2, bits: 7, lanes: 1 },
        data: vec![0.0f32],
        flags: 0,
    }
    .try_create_buffer();
    assert!(matches!(r, Err(BufferError::InvalidElementType)));

    let r = HalideBuffer {
        width: 1,
        height: 1,
        channels: 1,
        t: halide_type_t { code: 3, bits: 32, lanes: 1 },
        data: vec![0.0f32],
        flags: 0,
    }
    .try_create_buffer();
    assert!(matches!(r, Err(BufferError::InvalidElementType)));

    let r = HalideBuffer {
        width: 1,
        height: 1,
        channels: 1,
        t: halide_type_t { code: 2, bits: 32, lanes: 0 },
        data: vec![0.0f32],
        flags: 0,
    }
    .try_create_buffer();
    assert!(matches!(r, Err(BufferError::InvalidElementType)));
}

#[test]
fn valid_inputs_build_through_validation() {
    let r = HalideBuffer {
        width: 2,
        height: 1,
        channels: 4,
        t: float_type(),
        data: vec![0.0, 1.0, 2.0, 3.0, 4.0, 5.0, 6.0, 7.0f32],
        flags: 1,
    }
    .try_create_buffer();
    let buf = r.unwrap_or_else(|_| panic!("validation refused a valid buffer"));
    assert_eq!(buf.dim[0].stride, 4);
    assert_eq!(buf.dim[1].stride, 8);
    assert_eq!(buf.dim[2].stride, 1);
    assert_eq!(buf.read_element(1, 0, 2), 6.0);
}
