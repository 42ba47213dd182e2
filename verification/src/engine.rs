use crate::grid::GridPoint;
use crate::grid::map_pointer;
use crate::shader::QUAD_VERTEX_COUNT;
use crate::target::RenderTarget;
use crate::target::TargetPair;
use vstd::prelude::*;

verus! {

/// The per-frame inputs uploaded to the rule program: the pointer position
/// in simulation-grid units, the configured state/parameter count, and the
/// rule-variant selector.
#[derive(Clone, Copy, Debug, PartialEq, Eq, Structural)]
pub struct Uniforms {
    pub pointer: GridPoint,
    pub states: i32,
    pub kernel: i32,
}

/// The bounded sequence of GPU commands that one tick issues, as data for
/// the host to execute: a compute pass into an off-screen target, then a
/// present pass to the default framebuffer, both drawing the same
/// full-viewport quad with the same program.
#[derive(Clone, Copy, Debug)]
pub struct TickPlan {
    /// Bound for the compute pass: the rule writes the next generation
    /// into this target's texture through its framebuffer.
    pub compute_target: RenderTarget,
    /// Bound as the rule's state input for the compute pass: the texture
    /// holding the current generation.
    pub state_texture: u32,
    /// Drawn to the default framebuffer by the present pass: again the
    /// current — pre-step — generation, so presentation always lags the
    /// computation by exactly one tick.
    pub present_texture: u32,
    /// Both passes cover the full simulation resolution.
    pub viewport_width: u32,
    pub viewport_height: u32,
    /// The rule program both passes run.
    pub program: u32,
    /// The per-frame inputs for the compute pass.
    pub uniforms: Uniforms,
    /// Vertex count of the full-viewport quad.
    pub vertex_count: u32,
}

/// One live simulation: the double-buffered target pair, the linked rule
/// program, and the parameters fixed for its lifetime.  Changing any
/// parameter means building a brand-new simulation.
#[derive(Clone, Copy, Debug)]
pub struct Simulation {
    pub pair: TargetPair,
    pub program: u32,
    pub scale: u32,
    pub states: i32,
    pub kernel: i32,
}

impl Simulation {
    /// The simulation grid width, which both render targets share.
    pub open spec fn grid_width(self) -> u32 {
        self.pair.slots[0].width
    }

    /// The simulation grid height, which both render targets share.
    pub open spec fn grid_height(self) -> u32 {
        self.pair.slots[0].height
    }

    /// The pair is well formed, the scale is positive, and the grid came
    /// from a canvas no taller than `u32::MAX` pixels, so pointer mapping
    /// cannot overflow.
    pub open spec fn wf(self) -> bool {
        &&& self.pair.wf()
        &&& self.scale > 0
        &&& self.grid_height() * self.scale <= u32::MAX
    }

    /// Assembles the simulation around an already constructed target pair
    /// and linked program.
    pub fn assemble(pair: TargetPair, program: u32, scale: u32, states: i32, kernel: i32) -> (sim:
        Simulation)
        requires
            pair.wf(),
            scale > 0,
            pair.slots[0].height * scale <= u32::MAX,
        ensures
            sim.wf(),
            sim.pair == pair,
            sim.program == program,
            sim.scale == scale,
            sim.states == states,
            sim.kernel == kernel,
    {
        Simulation { pair, program, scale, states, kernel }
    }

    /// The plan that a tick at the given pointer position emits.
    pub open spec fn tick_plan(self, px: i32, py: i32) -> TickPlan {
        TickPlan {
            compute_target: self.pair.nxt(),
            state_texture: self.pair.cur().texture,
            present_texture: self.pair.cur().texture,
            viewport_width: self.grid_width(),
            viewport_height: self.grid_height(),
            program: self.program,
            uniforms: Uniforms {
                pointer: GridPoint {
                    x_num: px as i64,
                    y_num: (self.grid_height() * self.scale - py) as i64,
                    denom: self.scale,
                },
                states: self.states,
                kernel: self.kernel,
            },
            vertex_count: QUAD_VERTEX_COUNT,
        }
    }

    /// The simulation a tick leaves behind: the same targets, program and
    /// parameters, with the two role labels exchanged.
    pub open spec fn after_tick(self) -> Simulation {
        Simulation { pair: self.pair.swapped(), ..self }
    }

    /// Runs the bookkeeping of one simulation tick and returns the plan of
    /// GPU commands for the host to execute: compute the next generation
    /// into the `next` target while sampling the `current` texture, then
    /// present the pre-step `current` texture to the screen.  The role
    /// labels are swapped as the plan is made, so when the call returns
    /// they already name the coming frame's roles.
    pub fn tick(&mut self, pointer_x: i32, pointer_y: i32) -> (plan: TickPlan)
        requires
            old(self).wf(),
        ensures
            *final(self) == old(self).after_tick(),
            final(self).wf(),
            plan == old(self).tick_plan(pointer_x, pointer_y),
    {
        let width = self.pair.current_target().width;
        let height = self.pair.current_target().height;
        let pointer = map_pointer(pointer_x, pointer_y, height, self.scale);
        let next = *self.pair.next_target();
        let state_texture = self.pair.current_target().texture;
        let plan = TickPlan {
            compute_target: next,
            state_texture,
            present_texture: state_texture,
            viewport_width: width,
            viewport_height: height,
            program: self.program,
            uniforms: Uniforms { pointer, states: self.states, kernel: self.kernel },
            vertex_count: QUAD_VERTEX_COUNT,
        };
        self.pair.swap_roles();
        plan
    }
}

/// What a conforming GPU does with one tick's plan: after the compute
/// pass, the texture named as the compute target holds the rule's output
/// for the state input under the plan's uniforms, and no other texture
/// changed.  The rule itself is opaque: the engine promises nothing about
/// what it computes, only where its input comes from and where its output
/// goes.
pub open spec fn apply_plan(
    contents: Map<u32, Seq<u8>>,
    plan: TickPlan,
    rule: spec_fn(Seq<u8>, Uniforms) -> Seq<u8>,
) -> Map<u32, Seq<u8>> {
    contents.insert(plan.compute_target.texture, rule(contents[plan.state_texture], plan.uniforms))
}

/// The frame the present pass shows, read from the texture map as it
/// stands after the compute pass has written.
pub open spec fn presented_frame(contents_after: Map<u32, Seq<u8>>, plan: TickPlan) -> Seq<u8> {
    contents_after[plan.present_texture]
}

/// One full tick is latency-one and loss-free: the screen shows the
/// pre-tick `current` generation even though the present pass reads after
/// the compute pass wrote; the new `current` holds exactly the rule's
/// output for the old `current`'s input; and the new `next` still holds
/// the frame that was just presented, ready to be overwritten.
pub proof fn lemma_tick_round_trip(
    sim: Simulation,
    px: i32,
    py: i32,
    contents: Map<u32, Seq<u8>>,
    rule: spec_fn(Seq<u8>, Uniforms) -> Seq<u8>,
)
    requires
        sim.wf(),
        contents.dom().contains(sim.pair.cur().texture),
        contents.dom().contains(sim.pair.nxt().texture),
    ensures
        ({
            let plan = sim.tick_plan(px, py);
            let after = apply_plan(contents, plan, rule);
            let swapped = sim.after_tick();
            &&& presented_frame(after, plan) == contents[sim.pair.cur().texture]
            &&& after[swapped.pair.cur().texture] == rule(
                contents[sim.pair.cur().texture],
                plan.uniforms,
            )
            &&& after[swapped.pair.nxt().texture] == contents[sim.pair.cur().texture]
        }),
{
    assert(sim.after_tick().pair.cur() == sim.pair.nxt());
    assert(sim.after_tick().pair.nxt() == sim.pair.cur());
}

/// The evolution the protocol promises: fold the rule over the seed, one
/// application per tick, each under the uniforms that the simulation's
/// fixed parameters and that tick's pointer position determine.
pub open spec fn evolve(
    sim: Simulation,
    seed: Seq<u8>,
    inputs: Seq<(i32, i32)>,
    rule: spec_fn(Seq<u8>, Uniforms) -> Seq<u8>,
) -> Seq<u8>
    decreases inputs.len(),
{
    if inputs.len() == 0 {
        seed
    } else {
        evolve(
            sim,
            rule(seed, sim.tick_plan(inputs[0].0, inputs[0].1).uniforms),
            inputs.drop_first(),
            rule,
        )
    }
}

/// The run of the step loop: tick after tick, from a simulation and a
/// texture map, one pointer position per tick.
pub open spec fn run_ticks(
    sim: Simulation,
    contents: Map<u32, Seq<u8>>,
    inputs: Seq<(i32, i32)>,
    rule: spec_fn(Seq<u8>, Uniforms) -> Seq<u8>,
) -> (Simulation, Map<u32, Seq<u8>>)
    decreases inputs.len(),
{
    if inputs.len() == 0 {
        (sim, contents)
    } else {
        run_ticks(
            sim.after_tick(),
            apply_plan(contents, sim.tick_plan(inputs[0].0, inputs[0].1), rule),
            inputs.drop_first(),
            rule,
        )
    }
}

/// The per-tick uniforms depend only on the simulation's fixed parameters,
/// so two simulations that agree on them evolve a seed identically,
/// whatever their handles or role labels.
pub proof fn lemma_evolve_params_only(
    a: Simulation,
    b: Simulation,
    seed: Seq<u8>,
    inputs: Seq<(i32, i32)>,
    rule: spec_fn(Seq<u8>, Uniforms) -> Seq<u8>,
)
    requires
        a.grid_height() == b.grid_height(),
        a.scale == b.scale,
        a.states == b.states,
        a.kernel == b.kernel,
    ensures
        evolve(a, seed, inputs, rule) == evolve(b, seed, inputs, rule),
    decreases inputs.len(),
{
    if inputs.len() > 0 {
        assert(a.tick_plan(inputs[0].0, inputs[0].1).uniforms == b.tick_plan(
            inputs[0].0,
            inputs[0].1,
        ).uniforms);
        lemma_evolve_params_only(
            a,
            b,
            rule(seed, a.tick_plan(inputs[0].0, inputs[0].1).uniforms),
            inputs.drop_first(),
            rule,
        );
    }
}

/// Role labels are observationally transparent: after any number of ticks,
/// the `current` texture holds exactly the evolution of the seed — the
/// contents that was current at the start — under the rule and the
/// per-tick inputs.  Which physical slot carries which label, and which
/// handles name the textures, never shows in the result.
pub proof fn lemma_run_label_transparent(
    sim: Simulation,
    contents: Map<u32, Seq<u8>>,
    inputs: Seq<(i32, i32)>,
    rule: spec_fn(Seq<u8>, Uniforms) -> Seq<u8>,
)
    requires
        sim.wf(),
        contents.dom().contains(sim.pair.cur().texture),
        contents.dom().contains(sim.pair.nxt().texture),
    ensures
        ({
            let (sim_n, contents_n) = run_ticks(sim, contents, inputs, rule);
            &&& sim_n.wf()
            &&& contents_n.dom().contains(sim_n.pair.cur().texture)
            &&& contents_n[sim_n.pair.cur().texture] == evolve(
                sim,
                contents[sim.pair.cur().texture],
                inputs,
                rule,
            )
        }),
    decreases inputs.len(),
{
    if inputs.len() > 0 {
        let plan = sim.tick_plan(inputs[0].0, inputs[0].1);
        let c1 = apply_plan(contents, plan, rule);
        let s1 = sim.after_tick();
        assert(s1.pair.cur() == sim.pair.nxt());
        assert(s1.pair.nxt() == sim.pair.cur());
        assert(s1.wf());
        lemma_run_label_transparent(s1, c1, inputs.drop_first(), rule);
        lemma_evolve_params_only(
            s1,
            sim,
            rule(contents[sim.pair.cur().texture], plan.uniforms),
            inputs.drop_first(),
            rule,
        );
    }
}

} // verus!
