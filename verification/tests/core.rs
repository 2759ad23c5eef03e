use shader_preview::bootstrap::{BootstrapPhase, Directive, Viewer, ViewerEvent};
use shader_preview::executor::{block_on, Computation, CountdownComputation, WakeFlag};
use shader_preview::graphics::{CompilationMessage, GraphicsState, MessageKind};
use shader_preview::report::{decimal_string, display_seconds};
use shader_preview::uniforms::FrameUniforms;

fn ready_viewer(width: u32, height: u32) -> Viewer {
    let mut viewer = Viewer::new();
    assert!(viewer.on_resumed());
    let gfx = GraphicsState::new(
        width,
        height,
        (width as f32).to_bits(),
        (height as f32).to_bits(),
    );
    viewer.on_context_ready(gfx);
    viewer
}

#[test]
fn decimal_rendering() {
    assert_eq!(decimal_string(0), "0");
    assert_eq!(decimal_string(7), "7");
    assert_eq!(decimal_string(10), "10");
    assert_eq!(decimal_string(1234567890), "1234567890");
    assert_eq!(decimal_string(u64::MAX), "18446744073709551615");
}

#[test]
fn display_seconds_small() {
    assert_eq!(display_seconds(0), "0 s");
    assert_eq!(display_seconds(59), "59 s");
    assert_eq!(display_seconds(60), "1 m 0 s");
    assert_eq!(display_seconds(61), "1 m 1 s");
}

#[test]
fn display_seconds_mixed_units() {
    assert_eq!(display_seconds(3661), "1 h 1 m 1 s");
    assert_eq!(display_seconds(3600), "1 h 0 s");
    assert_eq!(display_seconds(86400), "1 d 0 s");
    assert_eq!(display_seconds(90061), "1 d 1 h 1 m 1 s");
    assert_eq!(display_seconds(1234567), "14 d 6 h 56 m 7 s");
}

#[test]
fn record_bytes_layout() {
    let w = (800.0f32).to_bits();
    let h = (600.0f32).to_bits();
    let u = FrameUniforms::new(w, h);
    let bytes = u.to_bytes();
    assert_eq!(bytes.len(), 48);
    let mut expected: Vec<u8> = Vec::new();
    expected.extend_from_slice(&w.to_le_bytes());
    expected.extend_from_slice(&h.to_le_bytes());
    for _ in 0..10 {
        expected.extend_from_slice(&0u32.to_le_bytes());
    }
    assert_eq!(bytes, expected);
}

#[test]
fn record_bytes_track_fields() {
    let mut u = FrameUniforms::new(0, 0);
    u.set_cursor((12.5f32).to_bits(), (99.0f32).to_bits());
    u.advance_frame();
    u.advance_frame();
    let bytes = u.to_bytes();
    assert_eq!(&bytes[8..12], &2u32.to_le_bytes());
    assert_eq!(&bytes[16..20], &(12.5f32).to_bits().to_le_bytes());
    assert_eq!(&bytes[20..24], &(99.0f32).to_bits().to_le_bytes());
    // declared-but-unwritten words stay zero
    assert_eq!(&bytes[24..48], &[0u8; 24]);
}

#[test]
fn frame_counter_wraps() {
    let mut u = FrameUniforms::new(0, 0);
    u.frame = u32::MAX;
    u.advance_frame();
    assert_eq!(u.frame, 0);
}

#[test]
fn last_resize_wins() {
    let mut u = FrameUniforms::new(1, 1);
    u.set_resolution(100, 200);
    u.set_resolution(300, 400);
    u.set_resolution((800.0f32).to_bits(), (600.0f32).to_bits());
    assert_eq!(u.resolution_x, (800.0f32).to_bits());
    assert_eq!(u.resolution_y, (600.0f32).to_bits());
    assert_eq!(u.frame, 0);
}

#[test]
fn wake_flag_is_idempotent_and_race_free() {
    let mut flag = WakeFlag::new();
    assert!(!flag.is_raised());
    // a wake that arrives before the park is kept, however often it fires
    flag.raise();
    flag.raise();
    assert!(flag.is_raised());
    flag.park();
    assert!(!flag.is_raised());
}

#[test]
fn executor_returns_immediately_without_wakes() {
    let mut c = CountdownComputation::new(0, 42);
    assert_eq!(block_on(&mut c), 42);
    assert_eq!(c.remaining, 0);
}

#[test]
fn executor_waits_for_each_programmed_wake() {
    let mut c = CountdownComputation::new(5, 7);
    assert_eq!(block_on(&mut c), 7);
    assert_eq!(c.remaining, 0);
}

#[test]
fn computation_is_not_ready_before_its_last_wake() {
    let k: u32 = 3;
    let mut c = CountdownComputation::new(k, 11);
    let mut wake = WakeFlag::new();
    for _ in 0..k {
        // no early return: every poll before the K-th wake comes back empty,
        // and its wake is already pending when it does
        assert!(c.poll(&mut wake).is_none());
        assert!(wake.is_raised());
        wake.park();
    }
    assert_eq!(c.poll(&mut wake), Some(11));
}

#[test]
fn bootstrap_builds_exactly_once() {
    let mut viewer = Viewer::new();
    assert!(viewer.on_resumed());
    assert!(!viewer.on_resumed());
    let gfx = GraphicsState::new(640, 480, (640.0f32).to_bits(), (480.0f32).to_bits());
    viewer.on_context_ready(gfx);
    assert!(!viewer.on_resumed());
}

#[test]
fn events_before_readiness_are_dropped() {
    let mut viewer = Viewer::new();
    assert_eq!(
        viewer.on_window_event(true, ViewerEvent::CloseRequested),
        Directive::Ignore
    );
    assert_eq!(
        viewer.on_window_event(true, ViewerEvent::ReloadKeyPressed),
        Directive::Ignore
    );
    assert!(viewer.graphics().is_none());
    assert!(viewer.uniform_bytes().is_none());
    assert!(matches!(
        viewer.phase,
        BootstrapPhase::Pending { sender_live: true }
    ));
}

#[test]
fn events_for_other_windows_are_dropped() {
    let mut viewer = ready_viewer(640, 480);
    let before = viewer.graphics().unwrap();
    let d = viewer.on_window_event(
        false,
        ViewerEvent::Resized { width: 1, height: 1, record_width: 1, record_height: 1 },
    );
    assert_eq!(d, Directive::Ignore);
    assert_eq!(viewer.graphics().unwrap(), before);
}

#[test]
fn resize_reconfigures_and_updates_record() {
    let mut viewer = ready_viewer(640, 480);
    let d = viewer.on_window_event(
        true,
        ViewerEvent::Resized {
            width: 800,
            height: 600,
            record_width: (800.0f32).to_bits(),
            record_height: (600.0f32).to_bits(),
        },
    );
    assert_eq!(d, Directive::Reconfigure { width: 800, height: 600 });
    let gfx = viewer.graphics().unwrap();
    assert_eq!(gfx.surface_width, 800);
    assert_eq!(gfx.surface_height, 600);
    assert_eq!(gfx.uniforms.resolution_x, (800.0f32).to_bits());
    assert_eq!(gfx.uniforms.resolution_y, (600.0f32).to_bits());
}

#[test]
fn cursor_moves_update_only_the_record() {
    let mut viewer = ready_viewer(640, 480);
    let d = viewer.on_window_event(
        true,
        ViewerEvent::CursorMoved {
            record_x: (10.0f32).to_bits(),
            record_y: (20.0f32).to_bits(),
        },
    );
    assert_eq!(d, Directive::Ignore);
    let gfx = viewer.graphics().unwrap();
    assert_eq!(gfx.uniforms.cursor_x, (10.0f32).to_bits());
    assert_eq!(gfx.uniforms.cursor_y, (20.0f32).to_bits());
    assert_eq!(gfx.surface_width, 640);
}

#[test]
fn close_and_escape_exit() {
    let mut viewer = ready_viewer(640, 480);
    assert_eq!(
        viewer.on_window_event(true, ViewerEvent::CloseRequested),
        Directive::Exit
    );
    assert_eq!(
        viewer.on_window_event(true, ViewerEvent::EscapePressed),
        Directive::Exit
    );
    assert_eq!(
        viewer.on_window_event(true, ViewerEvent::ReloadKeyPressed),
        Directive::Reload
    );
}

#[test]
fn failed_compilation_still_swaps_the_pipeline() {
    let mut viewer = ready_viewer(640, 480);
    let generation_before = viewer.graphics().unwrap().pipeline_generation;
    let msgs = vec![
        CompilationMessage {
            kind: MessageKind::Error,
            text: "expected ';', found '}'".to_string(),
        },
        CompilationMessage { kind: MessageKind::Info, text: "parsed 1 module".to_string() },
    ];
    let report = viewer.finish_reload(&msgs, 1).unwrap();
    // at least one error-severity entry is reported, the note is withheld,
    // and the active pipeline is a fresh one all the same
    assert_eq!(report.diagnostics, vec!["expected ';', found '}'".to_string()]);
    assert!(report.summary.is_none());
    let generation_after = viewer.graphics().unwrap().pipeline_generation;
    assert_ne!(generation_after, generation_before);
}

#[test]
fn clean_compilation_reports_elapsed_time() {
    let mut viewer = ready_viewer(640, 480);
    let msgs: Vec<CompilationMessage> = Vec::new();
    let report = viewer.finish_reload(&msgs, 3661).unwrap();
    assert!(report.diagnostics.is_empty());
    assert_eq!(
        report.summary,
        Some("reloaded prelude shader successfully in 1 h 1 m 1 s".to_string())
    );
}

#[test]
fn warnings_are_reported_but_do_not_withhold_the_note() {
    let mut viewer = ready_viewer(640, 480);
    let generation_before = viewer.graphics().unwrap().pipeline_generation;
    let msgs = vec![
        CompilationMessage {
            kind: MessageKind::Warning,
            text: "unused variable 'uv'".to_string(),
        },
        CompilationMessage { kind: MessageKind::Info, text: "parsed 1 module".to_string() },
    ];
    let report = viewer.finish_reload(&msgs, 2).unwrap();
    // the warning reaches the operator, yet no error-severity entry came
    // back, so the reload still counts as a success
    assert_eq!(report.diagnostics, vec!["unused variable 'uv'".to_string()]);
    assert_eq!(
        report.summary,
        Some("reloaded prelude shader successfully in 2 s".to_string())
    );
    assert_ne!(
        viewer.graphics().unwrap().pipeline_generation,
        generation_before
    );
}

#[test]
fn informational_messages_are_suppressed() {
    let mut viewer = ready_viewer(640, 480);
    let msgs = vec![CompilationMessage {
        kind: MessageKind::Info,
        text: "shader parsed".to_string(),
    }];
    let report = viewer.finish_reload(&msgs, 0).unwrap();
    assert!(report.diagnostics.is_empty());
    assert_eq!(
        report.summary,
        Some("reloaded prelude shader successfully in 0 s".to_string())
    );
}

#[test]
fn reload_before_readiness_does_nothing() {
    let mut viewer = Viewer::new();
    let msgs: Vec<CompilationMessage> = Vec::new();
    assert!(viewer.finish_reload(&msgs, 0).is_none());
    assert!(matches!(
        viewer.phase,
        BootstrapPhase::Pending { sender_live: true }
    ));
}

#[test]
fn end_to_end_ten_frames_with_a_resize() {
    let mut viewer = Viewer::new();
    assert!(viewer.on_resumed());
    let mut gfx = GraphicsState::new(640, 480, (640.0f32).to_bits(), (480.0f32).to_bits());
    // bootstrap force-compiles the on-disk shader once before delivery
    let report = gfx.apply_reload(&Vec::new(), 0);
    assert!(report.summary.is_some());
    viewer.on_context_ready(gfx);

    for i in 0u32..10 {
        if i == 4 {
            let d = viewer.on_window_event(
                true,
                ViewerEvent::Resized {
                    width: 800,
                    height: 600,
                    record_width: (800.0f32).to_bits(),
                    record_height: (600.0f32).to_bits(),
                },
            );
            assert_eq!(d, Directive::Reconfigure { width: 800, height: 600 });
        }
        let gfx = viewer.graphics().unwrap();
        assert_eq!(gfx.uniforms.frame, i);
        if i >= 4 {
            assert_eq!(gfx.uniforms.resolution_x, (800.0f32).to_bits());
            assert_eq!(gfx.uniforms.resolution_y, (600.0f32).to_bits());
        } else {
            assert_eq!(gfx.uniforms.resolution_x, (640.0f32).to_bits());
        }
        let bytes = viewer.uniform_bytes().unwrap();
        assert_eq!(&bytes[8..12], &i.to_le_bytes());
        viewer.frame_presented();
    }
    assert_eq!(viewer.graphics().unwrap().uniforms.frame, 10);
}
