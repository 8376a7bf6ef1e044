use hudhook::render_state::RenderState;

#[test]
fn render_lock_follows_a_render_pass() {
    let mut s = RenderState::new();
    assert!(!s.is_locked());
    assert!(s.start_render(true, true));
    assert!(s.is_locked());
    s.finish_render();
    assert!(!s.is_locked());
}

#[test]
fn a_pass_that_cannot_go_on_releases_the_lock() {
    let mut s = RenderState::new();
    assert!(!s.start_render(false, true));
    assert!(!s.is_locked());
    assert!(!s.start_render(true, false));
    assert!(!s.is_locked());
    assert!(s.start_render(true, true));
    s.cleanup();
    assert!(!s.is_locked());
}
