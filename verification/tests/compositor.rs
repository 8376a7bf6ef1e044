use hudhook::compositor::{Compositor, CompositorState, COMMAND_LIST_TYPE_DIRECT};

type C = Compositor<&'static str, &'static str, &'static str, u32>;

#[test]
fn compositor_waits_for_all_parts() {
    let mut c: C = Compositor::new();
    assert!(c.take_parts().is_none());
    c.with_swap_chain("device", "swap chain");
    assert!(c.take_parts().is_none());
    // Only a direct command queue is taken.
    c.with_command_queue("compute queue", 2);
    assert!(c.take_parts().is_none());
    c.with_command_queue("direct queue", COMMAND_LIST_TYPE_DIRECT);
    assert_eq!(c.take_parts(), Some(("device", "swap chain", "direct queue")));
    // The parts were taken out: a failed set-up starts over.
    assert!(c.take_parts().is_none());
    assert!(c.inner().is_none());
}

#[test]
fn a_set_up_compositor_keeps_its_parts() {
    let mut c: C = Compositor::new();
    c.finish(9);
    c.with_swap_chain("device", "swap chain");
    c.with_command_queue("direct queue", COMMAND_LIST_TYPE_DIRECT);
    assert_eq!(c.inner(), Some(&9));
    assert!(c.take_parts().is_none());
    assert!(matches!(c.state, CompositorState::Compositor(9)));
}
