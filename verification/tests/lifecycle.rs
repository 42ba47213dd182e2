use cellsim::controller::{Controller, PointerState};
use cellsim::engine::Simulation;
use cellsim::errors::SimError;
use cellsim::target::{complete_target, TargetPair, FRAMEBUFFER_COMPLETE};

fn build_sim(base_handle: u32, program: u32) -> Simulation {
    let first = match complete_target(base_handle, base_handle + 1, 4, 4, FRAMEBUFFER_COMPLETE) {
        Ok(t) => t,
        Err(_) => panic!("sample target must be complete"),
    };
    let second = match complete_target(base_handle + 2, base_handle + 3, 4, 4, FRAMEBUFFER_COMPLETE)
    {
        Ok(t) => t,
        Err(_) => panic!("sample target must be complete"),
    };
    Simulation::assemble(TargetPair::new(first, second), program, 1, 0, 0)
}

#[test]
fn reset_supersedes_the_old_loop() {
    let mut c = Controller::new();
    let t1 = match c.complete_reset(Ok(build_sim(10, 100))) {
        Ok(t) => t,
        Err(_) => panic!("first install must succeed"),
    };
    assert!(c.should_step(t1));
    assert!(c.step_frame(t1).is_some());
    // Reconfigure while the first loop is live.
    let t2 = match c.complete_reset(Ok(build_sim(20, 200))) {
        Ok(t) => t,
        Err(_) => panic!("reset must succeed"),
    };
    // The old loop's token is stale: no tick against the old simulation
    // fires after the reset completes.
    assert!(!c.should_step(t1));
    assert!(c.step_frame(t1).is_none());
    // The new loop steps the new simulation.
    assert!(c.should_step(t2));
    let plan = match c.step_frame(t2) {
        Some(p) => p,
        None => panic!("the new token must step"),
    };
    assert_eq!(plan.program, 200);
    assert_eq!(plan.state_texture, 21);
}

#[test]
fn repeated_resets_keep_one_simulation() {
    let mut c = Controller::new();
    for i in 0..5u32 {
        let r = c.complete_reset(Ok(build_sim(10 * (i + 1), i)));
        assert!(r.is_ok());
        // One live simulation — two render targets — whatever the count of
        // resets so far.
        assert!(c.sim.is_some());
        assert_eq!(c.epoch, (i + 1) as u64);
    }
}

#[test]
fn failed_reset_leaves_the_prior_simulation_running() {
    let mut c = Controller::new();
    let t1 = match c.complete_reset(Ok(build_sim(10, 100))) {
        Ok(t) => t,
        Err(_) => panic!("first install must succeed"),
    };
    let r = c.complete_reset(Err(SimError::FramebufferIncomplete(0x8CD9)));
    assert!(matches!(r, Err(SimError::FramebufferIncomplete(0x8CD9))));
    // The prior simulation is untouched and its loop still runs.
    assert!(c.should_step(t1));
    assert!(c.step_frame(t1).is_some());
}

#[test]
fn failed_initialization_leaves_nothing_live() {
    let mut c = Controller::new();
    // Simulate requesting an unsupported format: the completeness check
    // fails, the build aborts, and no simulation is made live.
    let built: Result<Simulation, SimError> = match complete_target(1, 2, 4, 4, 0x8CDD) {
        Ok(_) => panic!("an incomplete status must be rejected"),
        Err(e) => Err(e),
    };
    let r = c.complete_reset(built);
    assert!(matches!(r, Err(SimError::FramebufferIncomplete(0x8CDD))));
    assert!(c.sim.is_none());
    assert!(!c.should_step(c.epoch));
    assert!(c.step_frame(0).is_none());
}

#[test]
fn pointer_survives_reset_and_feeds_the_next_tick() {
    let mut c = Controller::new();
    c.record_pointer(11, 22);
    let t1 = match c.complete_reset(Ok(build_sim(10, 100))) {
        Ok(t) => t,
        Err(_) => panic!("install must succeed"),
    };
    // The pointer state belongs to the controller, not the simulation.
    assert_eq!(c.pointer, PointerState { x: 11, y: 22 });
    let plan = match c.step_frame(t1) {
        Some(p) => p,
        None => panic!("fresh token must step"),
    };
    assert_eq!(plan.uniforms.pointer.x_num, 11);
    assert_eq!(plan.uniforms.pointer.y_num, 4 - 22);
    c.record_pointer(5, 6);
    assert_eq!(c.pointer, PointerState { x: 5, y: 6 });
}
