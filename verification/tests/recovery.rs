use render_loop::driver::handle_render_result;
use render_loop::driver::Action;
use render_loop::event::FrameError;
use render_loop::state::FrameState;
use render_loop::surface::SurfaceConfig;

fn start(width: u32, height: u32) -> (FrameState, SurfaceConfig) {
    (FrameState::new(width, height), SurfaceConfig::new(width, height))
}

#[test]
fn successful_render_continues() {
    let (s, mut c) = start(800, 600);
    let a = handle_render_result(&s, &mut c, &Ok(()));
    assert_eq!(a, Action::Continue);
    assert_eq!((c.width, c.height), (800, 600));
}

#[test]
fn lost_surface_reconfigures_with_last_recorded_size() {
    let (mut s, mut c) = start(640, 480);
    s.width = 800;
    s.height = 600;
    let a = handle_render_result(&s, &mut c, &Err(FrameError::Lost));
    assert_eq!(a, Action::Reconfigure { width: 800, height: 600 });
    assert_eq!((c.width, c.height), (800, 600));
    assert!(!matches!(a, Action::Render(_)));
}

#[test]
fn lost_surface_with_zero_size_is_left_alone() {
    let (s, mut c) = start(0, 480);
    let a = handle_render_result(&s, &mut c, &Err(FrameError::Lost));
    assert_eq!(a, Action::Continue);
    assert_eq!((c.width, c.height), (0, 480));
}

#[test]
fn out_of_memory_exits() {
    let (s, mut c) = start(800, 600);
    let a = handle_render_result(&s, &mut c, &Err(FrameError::OutOfMemory));
    assert_eq!(a, Action::Exit);
    assert_eq!((c.width, c.height), (800, 600));
}

#[test]
fn outdated_and_timeout_drop_the_frame_and_continue() {
    let (s, mut c) = start(800, 600);
    let a1 = handle_render_result(&s, &mut c, &Err(FrameError::Outdated));
    assert_eq!(a1, Action::Continue);
    let a2 = handle_render_result(&s, &mut c, &Err(FrameError::Timeout));
    assert_eq!(a2, Action::Continue);
    assert_eq!((c.width, c.height), (800, 600));
}
