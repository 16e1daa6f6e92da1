use wpaperd::errors::DrawError;
use wpaperd::event::{EventCell, RenderEvent};
use wpaperd::output::Output;
use wpaperd::surface::Surface;

fn output(path: &str, duration: Option<u32>) -> Output {
    Output { path: path.to_string(), duration }
}

#[test]
fn closed_is_terminal_in_cell() {
    let mut cell = EventCell::new();
    assert!(cell.record(RenderEvent::Closed));
    assert!(!cell.record(RenderEvent::Configure { width: 640, height: 480 }));
    assert_eq!(cell.take(), Some(RenderEvent::Closed));
    assert_eq!(cell.take(), None);
}

#[test]
fn latest_configure_wins_in_cell() {
    let mut cell = EventCell::new();
    assert!(cell.record(RenderEvent::Configure { width: 100, height: 100 }));
    assert!(cell.record(RenderEvent::Configure { width: 200, height: 200 }));
    assert_eq!(
        cell.take(),
        Some(RenderEvent::Configure { width: 200, height: 200 })
    );
}

#[test]
fn defunct_exactly_on_closed() {
    let mut s = Surface::new(output("a.jpg", None));
    assert!(!s.handle_events(None));
    assert!(!s.handle_events(Some(RenderEvent::Configure { width: 10, height: 20 })));
    assert!(s.handle_events(Some(RenderEvent::Closed)));
}

#[test]
fn draw_is_noop_while_width_is_zero() {
    let mut s = Surface::new(output("a.jpg", None));
    // Dirty flag up, timer expired, but no width configured yet.
    s.notify_timer_expired();
    assert!(matches!(s.draw(), Ok(None)));
    // A zero-sized Configure is stored verbatim and still blocks the draw.
    assert!(!s.handle_events(Some(RenderEvent::Configure { width: 0, height: 50 })));
    assert!(matches!(s.draw(), Ok(None)));
}

#[test]
fn flags_rest_until_new_signal_after_draw() {
    let mut s = Surface::new(output("a.jpg", Some(30)));
    assert!(!s.handle_events(Some(RenderEvent::Configure { width: 64, height: 64 })));
    assert!(matches!(s.draw(), Ok(Some(_))));
    assert!(!s.need_redraw);
    assert!(!s.timer.expired);
    // No Configure, no output update, no expiry: no redraw is due.
    assert!(!s.handle_events(None));
    assert!(matches!(s.draw(), Ok(None)));
    // An external expiry opens it again.
    s.notify_timer_expired();
    assert!(matches!(s.draw(), Ok(Some(_))));
}

#[test]
fn single_file_draw_request() {
    let mut s = Surface::new(output("a.jpg", Some(60)));
    assert!(!s.handle_events(Some(RenderEvent::Configure { width: 1920, height: 1080 })));
    assert!(!s.timer.expired);
    match s.draw() {
        Ok(Some(req)) => {
            assert_eq!(req.width, 1920);
            assert_eq!(req.height, 1080);
            assert_eq!(req.stride, 4 * 1920);
            assert_eq!(req.size, 4 * 1920 * 1080);
            assert_eq!(req.path, "a.jpg");
            assert_eq!(req.duration, Some(60));
        }
        _ => panic!("an eligible tick must yield a draw request"),
    }
}

#[test]
fn two_configures_one_redraw() {
    let mut cell = EventCell::new();
    cell.record(RenderEvent::Configure { width: 100, height: 100 });
    cell.record(RenderEvent::Configure { width: 200, height: 200 });
    let mut s = Surface::new(output("a.jpg", None));
    assert!(!s.handle_events(cell.take()));
    match s.draw() {
        Ok(Some(req)) => {
            assert_eq!(req.width, 200);
            assert_eq!(req.height, 200);
        }
        _ => panic!("the coalesced Configure must yield one draw"),
    }
    // The mailbox is empty now: no second redraw for the first Configure.
    assert!(!s.handle_events(cell.take()));
    assert!(matches!(s.draw(), Ok(None)));
}

#[test]
fn update_output_forces_prompt_redraw() {
    let mut s = Surface::new(output("old-dir", Some(300)));
    assert!(!s.handle_events(Some(RenderEvent::Configure { width: 800, height: 600 })));
    assert!(matches!(s.draw(), Ok(Some(_))));
    // New configuration, timer untouched: the next tick must redraw from
    // the new directory anyway.
    s.update_output(output("new-dir", Some(300)));
    assert!(!s.timer.expired);
    match s.draw() {
        Ok(Some(req)) => assert_eq!(req.path, "new-dir"),
        _ => panic!("a replaced output must force a redraw"),
    }
}

#[test]
fn surface_survives_a_failed_tick() {
    let mut s = Surface::new(output("empty-dir", None));
    assert!(!s.handle_events(Some(RenderEvent::Configure { width: 32, height: 32 })));
    // The tick is admitted; suppose the pipeline then fails (say, an empty
    // directory). The surface stays alive and a later signal redraws.
    assert!(matches!(s.draw(), Ok(Some(_))));
    let failed: Result<usize, DrawError> = wpaperd::select::pick_source(&Vec::new());
    assert_eq!(failed, Err(DrawError::EmptyDirectory));
    s.notify_timer_expired();
    assert!(matches!(s.draw(), Ok(Some(_))));
}

#[test]
fn oversized_dimensions_are_reported() {
    let mut s = Surface::new(output("a.jpg", None));
    assert!(!s.handle_events(Some(RenderEvent::Configure {
        width: u32::MAX,
        height: u32::MAX,
    })));
    assert!(matches!(s.draw(), Err(DrawError::PoolSizeOverflow)));
    // The flags were consumed before the failure: no retry loop.
    assert!(matches!(s.draw(), Ok(None)));
}
