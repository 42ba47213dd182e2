use cellsim::engine::Simulation;
use cellsim::errors::{gpu_error_after_tick, ResourceKind, SimError};
use cellsim::grid::{derive_grid_size, map_pointer};
use cellsim::shader::{
    compile_outcome, link_outcome, unit_quad_vertices, QUAD_VERTEX_COUNT,
};
use cellsim::target::{
    complete_target, target_allocation, TargetPair, FRAMEBUFFER_COMPLETE,
};

#[test]
fn grid_size_is_rederived_from_scale() {
    assert_eq!(derive_grid_size(800, 600, 2), (400, 300));
    assert_eq!(derive_grid_size(801, 601, 2), (400, 300));
    assert_eq!(derive_grid_size(1920, 1080, 1), (1920, 1080));
    assert_eq!(derive_grid_size(100, 70, 8), (12, 8));
}

#[test]
fn pointer_maps_scaled_and_flipped() {
    // A pointer at canvas pixel (30, 10) with scale 2 on a grid 40 tall
    // must map to (30/2, 40 - 10/2) = (15, 35).
    let p = map_pointer(30, 10, 40, 2);
    assert_eq!(p.x_num, 30);
    assert_eq!(p.y_num, 70);
    assert_eq!(p.denom, 2);
    assert_eq!(p.x_num as f64 / p.denom as f64, 15.0);
    assert_eq!(p.y_num as f64 / p.denom as f64, 40.0 - 10.0 / 2.0);
    // Odd coordinates keep the exact fraction.
    let q = map_pointer(31, 9, 40, 2);
    assert_eq!(q.x_num as f64 / q.denom as f64, 15.5);
    assert_eq!(q.y_num as f64 / q.denom as f64, 40.0 - 4.5);
}

fn sample_sim() -> Simulation {
    let first = match complete_target(1, 2, 8, 6, FRAMEBUFFER_COMPLETE) {
        Ok(t) => t,
        Err(_) => panic!("sample target must be complete"),
    };
    let second = match complete_target(3, 4, 8, 6, FRAMEBUFFER_COMPLETE) {
        Ok(t) => t,
        Err(_) => panic!("sample target must be complete"),
    };
    let pair = TargetPair::new(first, second);
    Simulation::assemble(pair, 9, 2, 5, 0)
}

#[test]
fn tick_computes_into_next_and_presents_current() {
    let mut sim = sample_sim();
    let plan = sim.tick(12, 34);
    // Compute pass: bind the `next` target, sample the `current` texture.
    assert_eq!(plan.compute_target.framebuffer, 3);
    assert_eq!(plan.compute_target.texture, 4);
    assert_eq!(plan.state_texture, 2);
    // Present pass: draw the pre-step `current` texture.
    assert_eq!(plan.present_texture, 2);
    // Full-resolution viewport, same program, quad topology.
    assert_eq!(plan.viewport_width, 8);
    assert_eq!(plan.viewport_height, 6);
    assert_eq!(plan.program, 9);
    assert_eq!(plan.vertex_count, QUAD_VERTEX_COUNT);
    // Per-frame uniforms: mapped pointer, state count, rule selector.
    assert_eq!(plan.uniforms.states, 5);
    assert_eq!(plan.uniforms.kernel, 0);
    assert_eq!(plan.uniforms.pointer.x_num, 12);
    assert_eq!(plan.uniforms.pointer.y_num, 6 * 2 - 34);
    assert_eq!(plan.uniforms.pointer.denom, 2);
}

#[test]
fn ticks_alternate_roles() {
    let mut sim = sample_sim();
    let p1 = sim.tick(0, 0);
    let p2 = sim.tick(0, 0);
    let p3 = sim.tick(0, 0);
    // After a tick, `current` names what was just computed.
    assert_eq!(p1.state_texture, 2);
    assert_eq!(p1.compute_target.texture, 4);
    assert_eq!(p2.state_texture, 4);
    assert_eq!(p2.compute_target.texture, 2);
    assert_eq!(p3.state_texture, 2);
}

#[test]
fn framebuffer_completeness_is_checked_eagerly() {
    // An unsupported-format status must surface as the incompleteness
    // error carrying the raw code.
    match complete_target(1, 2, 8, 6, 0x8CD6) {
        Err(SimError::FramebufferIncomplete(code)) => assert_eq!(code, 0x8CD6),
        _ => panic!("expected the incompleteness error"),
    }
    match complete_target(1, 2, 8, 6, FRAMEBUFFER_COMPLETE) {
        Ok(t) => {
            assert_eq!(t.framebuffer, 1);
            assert_eq!(t.texture, 2);
            assert_eq!(t.width, 8);
            assert_eq!(t.height, 6);
        }
        _ => panic!("expected a complete target"),
    }
}

#[test]
fn allocation_failures_name_their_resource() {
    assert!(matches!(
        target_allocation(None, Some(2)),
        Err(SimError::ResourceCreation(ResourceKind::Framebuffer))
    ));
    assert!(matches!(
        target_allocation(Some(1), None),
        Err(SimError::ResourceCreation(ResourceKind::Texture))
    ));
    assert!(matches!(target_allocation(Some(1), Some(2)), Ok((1, 2))));
}

#[test]
fn compile_outcomes() {
    assert!(matches!(
        compile_outcome(None, false, None),
        Err(SimError::ResourceCreation(ResourceKind::Shader))
    ));
    assert!(matches!(compile_outcome(Some(7), true, None), Ok(7)));
    match compile_outcome(Some(7), false, Some("0:1: bad token".to_string())) {
        Err(SimError::ShaderCompile(m)) => assert_eq!(m, "0:1: bad token"),
        _ => panic!("expected the compile error"),
    }
    match compile_outcome(Some(7), false, None) {
        Err(SimError::ShaderCompile(m)) => {
            assert_eq!(m, "Unknown error creating shader")
        }
        _ => panic!("expected the compile error"),
    }
}

#[test]
fn link_outcomes() {
    assert!(matches!(
        link_outcome(None, false, None),
        Err(SimError::ResourceCreation(ResourceKind::Program))
    ));
    assert!(matches!(link_outcome(Some(8), true, None), Ok(8)));
    match link_outcome(Some(8), false, Some("undefined symbol".to_string())) {
        Err(SimError::ProgramLink(m)) => assert_eq!(m, "undefined symbol"),
        _ => panic!("expected the link error"),
    }
    match link_outcome(Some(8), false, None) {
        Err(SimError::ProgramLink(m)) => {
            assert_eq!(m, "Unknown error creating program object")
        }
        _ => panic!("expected the link error"),
    }
}

#[test]
fn gl_error_codes_classify() {
    assert!(gpu_error_after_tick(0).is_none());
    match gpu_error_after_tick(0x0502) {
        Some(e) => assert_eq!(e.code, 0x0502),
        None => panic!("a nonzero code is an error"),
    }
}

#[test]
fn quad_covers_clip_space() {
    assert_eq!(unit_quad_vertices(), vec![-1, -1, 1, -1, -1, 1, 1, 1]);
    assert_eq!(QUAD_VERTEX_COUNT, 4);
}
