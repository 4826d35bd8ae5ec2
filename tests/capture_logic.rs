use dxgi_capture_rs::error::{
    DXGI_ERROR_ACCESS_DENIED, DXGI_ERROR_ACCESS_LOST, DXGI_ERROR_NOT_FOUND,
    DXGI_ERROR_WAIT_TIMEOUT,
};
use dxgi_capture_rs::frame::{
    ROTATION_IDENTITY, ROTATION_ROTATE180, ROTATION_ROTATE270, ROTATION_UNSPECIFIED,
};
use dxgi_capture_rs::metadata::{
    carries_change_records, record_count, DIRTY_RECT_RECORD_SIZE, MOVE_RECT_RECORD_SIZE,
};
use dxgi_capture_rs::{
    assemble_metadata, bgra_to_rgba, bgra_to_rgba_scalar, capture_error_from_code,
    copy_frame_components, copy_frame_native, copy_frame_pixels, desktop_size, frame_dimensions,
    AdapterProbe, CaptureError, FrameInfo, MoveRect, OutputDuplicationError, OutputProbe,
    OutputSearch, Rotation, SearchStep, SessionState, BGRA8,
};

const PAD: u8 = 0xEE;

fn tag(x: usize, y: usize) -> BGRA8 {
    BGRA8 {
        b: x as u8,
        g: y as u8,
        r: (x * 16 + y) as u8,
        a: 0xA0,
    }
}

/// A surface of `w` by `h` pixels, `pitch` bytes per row, padding filled with PAD.
fn surface(w: usize, h: usize, pitch: usize, px: impl Fn(usize, usize) -> BGRA8) -> Vec<u8> {
    let mut s = vec![PAD; pitch * h];
    for y in 0..h {
        for x in 0..w {
            let p = px(x, y);
            let o = y * pitch + 4 * x;
            s[o] = p.b;
            s[o + 1] = p.g;
            s[o + 2] = p.r;
            s[o + 3] = p.a;
        }
    }
    s
}

fn bytes_of(p: &[BGRA8]) -> Vec<u8> {
    p.iter().flat_map(|q| [q.b, q.g, q.r, q.a]).collect()
}

fn info(total: u32, visible: bool) -> FrameInfo {
    FrameInfo {
        last_present_time: 42,
        last_mouse_update_time: 0,
        accumulated_frames: 1,
        rects_coalesced: false,
        protected_content_masked_out: false,
        pointer_visible: visible,
        pointer_x: 10,
        pointer_y: 20,
        total_metadata_buffer_size: total,
    }
}

#[test]
fn identity_copy_skips_row_padding() {
    let src = surface(3, 2, 20, tag);
    let (px, dims) = copy_frame_pixels(&src, 20, 3, 2, Rotation::Identity);
    assert_eq!(dims, (3, 2));
    let want: Vec<BGRA8> = vec![tag(0, 0), tag(1, 0), tag(2, 0), tag(0, 1), tag(1, 1), tag(2, 1)];
    assert_eq!(px, want);
}

#[test]
fn quarter_turn_reads_columns_bottom_to_top() {
    let src = surface(3, 2, 16, tag);
    let (px, dims) = copy_frame_pixels(&src, 16, 3, 2, Rotation::Rotate90);
    assert_eq!(dims, (2, 3));
    let want = vec![tag(0, 1), tag(0, 0), tag(1, 1), tag(1, 0), tag(2, 1), tag(2, 0)];
    assert_eq!(px, want);
}

#[test]
fn half_turn_reverses_rows_and_pixels() {
    let src = surface(3, 2, 12, tag);
    let (px, dims) = copy_frame_pixels(&src, 12, 3, 2, Rotation::Rotate180);
    assert_eq!(dims, (3, 2));
    let want = vec![tag(2, 1), tag(1, 1), tag(0, 1), tag(2, 0), tag(1, 0), tag(0, 0)];
    assert_eq!(px, want);
}

#[test]
fn three_quarter_turn_reads_columns_right_to_left() {
    let src = surface(3, 2, 12, tag);
    let (px, dims) = copy_frame_pixels(&src, 12, 3, 2, Rotation::Rotate270);
    assert_eq!(dims, (2, 3));
    let want = vec![tag(2, 0), tag(2, 1), tag(1, 0), tag(1, 1), tag(0, 0), tag(0, 1)];
    assert_eq!(px, want);
}

#[test]
fn components_lay_out_each_pixel_as_four_channels() {
    let src = surface(4, 3, 24, tag);
    for rot in [Rotation::Identity, Rotation::Rotate90, Rotation::Rotate180, Rotation::Rotate270] {
        let (px, d1) = copy_frame_pixels(&src, 24, 4, 3, rot);
        let (bytes, d2) = copy_frame_components(&src, 24, 4, 3, rot);
        assert_eq!(d1, d2);
        assert_eq!(bytes.len(), 4 * px.len());
        assert_eq!(bytes, bytes_of(&px));
        for (i, p) in px.iter().enumerate() {
            assert_eq!(&bytes[4 * i..4 * i + 4], &[p.b, p.g, p.r, p.a]);
        }
    }
}

#[test]
fn native_copy_keeps_surface_orientation() {
    let padded = surface(3, 2, 16, tag);
    let (bytes, dims) = copy_frame_native(&padded, 16, 3, 2);
    assert_eq!(dims, (3, 2));
    let (px, _) = copy_frame_pixels(&padded, 16, 3, 2, Rotation::Identity);
    assert_eq!(bytes, bytes_of(&px));
    assert!(!bytes.contains(&PAD));
}

#[test]
fn native_copy_of_unpadded_surface_is_the_surface() {
    let tight = surface(3, 2, 12, tag);
    let (bytes, dims) = copy_frame_native(&tight, 12, 3, 2);
    assert_eq!(dims, (3, 2));
    assert_eq!(bytes, tight);
}

#[test]
fn empty_surface_gives_empty_frame() {
    let (px, dims) = copy_frame_pixels(&[], 0, 0, 0, Rotation::Rotate90);
    assert_eq!(dims, (0, 0));
    assert!(px.is_empty());
    let (bytes, dims) = copy_frame_native(&[], 0, 0, 5);
    assert_eq!(dims, (0, 5));
    assert!(bytes.is_empty());
}

#[test]
fn single_capture_full_hd_identity() {
    let (w, h) = desktop_size(0, 0, 1920, 1080);
    assert_eq!((w, h), (1920, 1080));
    let src = vec![7u8; 4 * w * h];
    let (px, dims) = copy_frame_pixels(&src, 4 * w, w, h, Rotation::Identity);
    assert_eq!(px.len(), 2_073_600);
    assert_eq!(dims, (1920, 1080));
}

#[test]
fn rotation_equivalence_quarter_turn() {
    let geometry = desktop_size(0, 0, 500, 1000);
    assert_eq!(geometry, (500, 1000));
    let dims = frame_dimensions(geometry.0, geometry.1, Rotation::Rotate90);
    assert_eq!(dims, (1000, 500));
    let src = vec![1u8; 4 * 500 * 1000];
    let (a, da) = copy_frame_components(&src, 2000, 500, 1000, Rotation::Rotate90);
    let (b, db) = copy_frame_components(&src, 2000, 500, 1000, Rotation::Rotate90);
    assert_eq!(da, db);
    assert_eq!(da, (1000, 500));
    assert_eq!(a.len(), b.len());
    assert_eq!(a.len(), 1000 * 500 * 4);
}

#[test]
fn geometry_matches_frame_without_quarter_turn() {
    assert_eq!(frame_dimensions(640, 480, Rotation::Identity), (640, 480));
    assert_eq!(frame_dimensions(640, 480, Rotation::Rotate180), (640, 480));
    assert_eq!(frame_dimensions(640, 480, Rotation::Rotate270), (480, 640));
}

#[test]
fn solid_red_frame_is_consistent() {
    let red = BGRA8 {
        b: 0,
        g: 0,
        r: 255,
        a: 200,
    };
    let src = surface(5, 4, 32, |_, _| red);
    let (px, _) = copy_frame_pixels(&src, 32, 5, 4, Rotation::Identity);
    let (bytes, _) = copy_frame_components(&src, 32, 5, 4, Rotation::Identity);
    assert_eq!(px.len(), 20);
    assert!(px.iter().all(|p| *p == red));
    assert_eq!(bytes.len(), 80);
    for chunk in bytes.chunks(4) {
        assert_eq!(chunk, &[0, 0, 255, 200]);
    }
}

#[test]
fn rotation_codes() {
    assert_eq!(Rotation::from_code(ROTATION_IDENTITY), Rotation::Identity);
    assert_eq!(Rotation::from_code(2), Rotation::Rotate90);
    assert_eq!(Rotation::from_code(ROTATION_ROTATE180), Rotation::Rotate180);
    assert_eq!(Rotation::from_code(ROTATION_ROTATE270), Rotation::Rotate270);
    assert_eq!(Rotation::from_code(ROTATION_UNSPECIFIED), Rotation::Identity);
    assert_eq!(Rotation::from_code(17), Rotation::Identity);
    assert_eq!(Rotation::from_code(-3), Rotation::Identity);
}

#[test]
fn desktop_size_of_rectangles() {
    assert_eq!(desktop_size(-1920, 0, 0, 1080), (1920, 1080));
    assert_eq!(desktop_size(100, 50, 1380, 1074), (1280, 1024));
    assert_eq!(desktop_size(10, 10, 5, 10), (0, 0));
    assert_eq!(desktop_size(i32::MIN, i32::MIN, i32::MAX, i32::MAX), (u32::MAX as usize, u32::MAX as usize));
}

#[test]
fn bgra_to_rgba_swaps_blue_and_red() {
    let mut buf = vec![1, 2, 3, 4, 5, 6, 7, 8, 9, 10];
    bgra_to_rgba(&mut buf);
    assert_eq!(buf, vec![3, 2, 1, 4, 7, 6, 5, 8, 9, 10]);
    let mut long: Vec<u8> = (0..40).collect();
    bgra_to_rgba_scalar(&mut long);
    for i in 0..10 {
        assert_eq!(&long[4 * i..4 * i + 4], &[4 * i as u8 + 2, 4 * i as u8 + 1, 4 * i as u8, 4 * i as u8 + 3]);
    }
    let mut short = vec![1, 2, 3];
    bgra_to_rgba(&mut short);
    assert_eq!(short, vec![1, 2, 3]);
}

#[test]
fn status_codes_classify() {
    assert_eq!(capture_error_from_code(DXGI_ERROR_WAIT_TIMEOUT), CaptureError::Timeout);
    assert_eq!(capture_error_from_code(DXGI_ERROR_ACCESS_LOST), CaptureError::AccessLost);
    assert_eq!(capture_error_from_code(DXGI_ERROR_ACCESS_DENIED), CaptureError::AccessDenied);
    assert_eq!(
        capture_error_from_code(DXGI_ERROR_NOT_FOUND),
        CaptureError::Fail(DXGI_ERROR_NOT_FOUND)
    );
    assert_eq!(capture_error_from_code(-1), CaptureError::Fail(-1));
    assert_eq!(DXGI_ERROR_WAIT_TIMEOUT, 0x887A0027u32 as i32);
    assert_eq!(DXGI_ERROR_ACCESS_LOST, 0x887A0026u32 as i32);
    assert_eq!(DXGI_ERROR_ACCESS_DENIED, 0x887A002Bu32 as i32);
}

#[test]
fn error_messages() {
    assert_eq!(CaptureError::Timeout.message(), "Capture operation timed out");
    assert_eq!(CaptureError::Fail(-1).message(), "Capture failed with a platform error");
    assert_eq!(OutputDuplicationError::NoOutput.message(), "No suitable output display was found");
    assert_eq!(OutputDuplicationError::DeviceError(-1).message(), "Failed to create D3D11 device");
}

#[test]
fn session_reports_its_timeout_until_changed() {
    let mut s = SessionState::new(1000);
    assert_eq!(s.get_timeout_ms(), 1000);
    s.record_bind(true);
    s.capture_failed(DXGI_ERROR_ACCESS_LOST);
    let prev = s.request_source(1);
    s.source_bind_finished(prev, false);
    assert_eq!(s.get_timeout_ms(), 1000);
    s.set_timeout_ms(50);
    assert_eq!(s.get_timeout_ms(), 50);
    assert_eq!(s.get_capture_source_index(), 1);
}

#[test]
fn zero_timeout_polling_keeps_binding() {
    let mut s = SessionState::new(0);
    s.record_bind(true);
    for _ in 0..5 {
        assert!(!s.needs_bind());
        assert_eq!(s.capture_failed(DXGI_ERROR_WAIT_TIMEOUT), CaptureError::Timeout);
        assert!(s.is_bound());
    }
}

#[test]
fn error_other_than_timeout_forces_rebind() {
    for code in [DXGI_ERROR_ACCESS_LOST, DXGI_ERROR_ACCESS_DENIED, -5] {
        let mut s = SessionState::new(100);
        s.record_bind(true);
        let e = s.capture_failed(code);
        assert_ne!(e, CaptureError::Timeout);
        assert!(s.needs_bind());
        assert_eq!(s.rebind_for_capture(true), Ok(()));
        assert!(!s.needs_bind());
    }
    let mut s = SessionState::new(100);
    s.capture_failed(DXGI_ERROR_ACCESS_LOST);
    assert_eq!(s.rebind_for_capture(false), Err(CaptureError::RefreshFailure));
    assert!(s.needs_bind());
}

#[test]
fn invalid_source_index_recovery() {
    let mut s = SessionState::new(100);
    s.record_bind(true);
    let prev = s.request_source(99);
    assert_eq!(prev, 0);
    assert!(!s.source_bind_finished(prev, false));
    assert_eq!(s.get_capture_source_index(), 99);
    assert!(s.needs_bind());
    assert_eq!(s.rebind_for_capture(false), Err(CaptureError::RefreshFailure));
    let prev = s.request_source(0);
    assert!(!s.source_bind_finished(prev, true));
    assert_eq!(s.get_capture_source_index(), 0);
    assert!(!s.needs_bind());
}

#[test]
fn failed_switch_to_primary_falls_back() {
    let mut s = SessionState::new(100);
    let prev = s.request_source(1);
    assert!(!s.source_bind_finished(prev, true));
    let prev = s.request_source(0);
    assert_eq!(prev, 1);
    assert!(s.source_bind_finished(prev, false));
    assert_eq!(s.get_capture_source_index(), 1);
    assert!(s.needs_bind());
    s.record_bind(true);
    assert!(s.is_bound());

    let mut t = SessionState::new(100);
    let prev = t.request_source(2);
    assert!(!t.source_bind_finished(prev, false));
    assert_eq!(t.get_capture_source_index(), 2);
}

#[test]
fn metadata_of_static_frame() {
    let m = assemble_metadata(&info(0, false), Some(vec![(0, 0, 1, 1)]), None);
    assert!(!m.has_updates());
    assert_eq!(m.total_change_count(), 0);
    assert_eq!(m.accumulated_frames, 1);
    assert_eq!(m.pointer_position, None);
    assert_eq!(m.total_change_count(), m.dirty_rects.len() + m.move_rects.len());
    assert!(!carries_change_records(&info(0, false)));
}

#[test]
fn metadata_keeps_records_and_pointer() {
    let mv = MoveRect {
        source_point: (0, 0),
        destination_rect: (10, 10, 20, 20),
    };
    let m = assemble_metadata(&info(40, true), Some(vec![(1, 2, 3, 4)]), Some(vec![mv]));
    assert!(m.has_updates());
    assert_eq!(m.total_change_count(), 2);
    assert_eq!(m.dirty_rects, vec![(1, 2, 3, 4)]);
    assert_eq!(m.move_rects, vec![mv]);
    assert_eq!(m.pointer_position, Some((10, 20)));
    assert!(m.pointer_visible);
    assert_eq!(m.last_present_time, 42);
    assert!(!m.has_mouse_updates());

    let failed = assemble_metadata(&info(40, false), None, Some(vec![mv]));
    assert!(failed.dirty_rects.is_empty());
    assert_eq!(failed.move_rects.len(), 1);
}

#[test]
fn record_counts() {
    assert_eq!(record_count(48, DIRTY_RECT_RECORD_SIZE), 3);
    assert_eq!(record_count(50, DIRTY_RECT_RECORD_SIZE), 3);
    assert_eq!(record_count(48, MOVE_RECT_RECORD_SIZE), 2);
    assert_eq!(record_count(0, MOVE_RECT_RECORD_SIZE), 0);
}

#[test]
fn search_counts_attached_outputs_across_adapters() {
    let (mut s, step) = OutputSearch::new(1);
    assert_eq!(step, SearchStep::ProbeAdapter(0));
    assert_eq!(s.adapter_probed(AdapterProbe::Present), SearchStep::ProbeOutput(0, 0));
    assert_eq!(s.output_probed(OutputProbe::Detached), SearchStep::ProbeOutput(0, 1));
    assert_eq!(s.output_probed(OutputProbe::Attached), SearchStep::ProbeOutput(0, 2));
    assert_eq!(s.output_probed(OutputProbe::Exhausted), SearchStep::ProbeAdapter(1));
    assert_eq!(s.adapter_probed(AdapterProbe::Present), SearchStep::ProbeOutput(1, 0));
    assert_eq!(s.output_probed(OutputProbe::Attached), SearchStep::CreateDevice(1));
    assert_eq!(s.device_created(Ok(())), SearchStep::Duplicate(1, 0));
    assert_eq!(s.duplicated(Ok(())), SearchStep::Bound);
}

#[test]
fn search_without_output_fails() {
    let (mut s, _) = OutputSearch::new(0);
    assert_eq!(s.adapter_probed(AdapterProbe::Present), SearchStep::ProbeOutput(0, 0));
    assert_eq!(s.output_probed(OutputProbe::Exhausted), SearchStep::ProbeAdapter(1));
    assert_eq!(
        s.adapter_probed(AdapterProbe::Exhausted),
        SearchStep::Failed(OutputDuplicationError::NoOutput)
    );
    let (mut t, _) = OutputSearch::new(0);
    assert_eq!(
        t.adapter_probed(AdapterProbe::Failed(-7)),
        SearchStep::Failed(OutputDuplicationError::DeviceError(-7))
    );
}

#[test]
fn search_skips_adapter_without_device() {
    let (mut s, _) = OutputSearch::new(0);
    s.adapter_probed(AdapterProbe::Present);
    assert_eq!(s.output_probed(OutputProbe::Attached), SearchStep::CreateDevice(0));
    assert_eq!(s.device_created(Err(-9)), SearchStep::ProbeAdapter(1));
    assert_eq!(s.adapter_probed(AdapterProbe::Present), SearchStep::ProbeOutput(1, 0));
    assert_eq!(s.output_probed(OutputProbe::Attached), SearchStep::CreateDevice(1));
    assert_eq!(
        s.duplicated(Err(-3)),
        SearchStep::Failed(OutputDuplicationError::DeviceError(-3))
    );

    let (mut t, _) = OutputSearch::new(0);
    t.adapter_probed(AdapterProbe::Present);
    t.output_probed(OutputProbe::Attached);
    t.device_created(Err(-9));
    assert_eq!(
        t.adapter_probed(AdapterProbe::Exhausted),
        SearchStep::Failed(OutputDuplicationError::DeviceError(-9))
    );
}
