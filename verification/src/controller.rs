use crate::engine::Simulation;
use crate::engine::TickPlan;
use crate::errors::SimError;
use vstd::prelude::*;

verus! {

/// The most recently recorded pointer position, in canvas pixels.  Only
/// the latest position matters: the listener overwrites it on every move,
/// and the step loop reads it once per frame.
#[derive(Clone, Copy, Debug, PartialEq, Eq, Structural)]
pub struct PointerState {
    pub x: i32,
    pub y: i32,
}

/// The single owner of the live simulation slot.  Each installed
/// simulation gets a fresh epoch token; the step loop driving it presents
/// that token every frame, and a stale token means the simulation was
/// replaced and the loop must stop rescheduling itself.  The pointer state
/// lives here, not in the simulation, so it survives resets.
#[derive(Clone, Copy, Debug)]
pub struct Controller {
    pub epoch: u64,
    pub sim: Option<Simulation>,
    pub pointer: PointerState,
}

/// The controller state that installing `sim` leaves behind: a fresh
/// epoch, the new simulation in the slot, the pointer untouched.
pub open spec fn install_spec(c: Controller, sim: Simulation) -> Controller {
    Controller { epoch: (c.epoch + 1) as u64, sim: Some(sim), pointer: c.pointer }
}

impl Controller {
    /// The installed simulation, if any, is internally consistent.
    pub open spec fn wf(self) -> bool {
        self.sim matches Some(s) ==> s.wf()
    }

    /// How many render targets the controller keeps alive: two for the one
    /// live simulation, none when the slot is empty — never more, however
    /// many resets have happened.
    pub open spec fn live_target_count(self) -> nat {
        if self.sim is Some {
            2
        } else {
            0
        }
    }

    /// Whether a step callback holding `token` may drive a tick this
    /// frame: only the loop of the currently installed simulation may.
    pub open spec fn may_step(self, token: u64) -> bool {
        self.sim is Some && token == self.epoch
    }

    /// A controller with nothing live yet.
    pub fn new() -> (c: Controller)
        ensures
            c.wf(),
            c.epoch == 0,
            c.sim is None,
            c.pointer == (PointerState { x: 0, y: 0 }),
            c.live_target_count() == 0,
    {
        Controller { epoch: 0, sim: None, pointer: PointerState { x: 0, y: 0 } }
    }

    /// Records a pointer move.  Only the latest position is kept —
    /// intermediate positions are lost by design — and neither the epoch
    /// nor the simulation slot is touched.
    pub fn record_pointer(&mut self, x: i32, y: i32)
        ensures
            final(self).pointer == (PointerState { x, y }),
            final(self).epoch == old(self).epoch,
            final(self).sim == old(self).sim,
    {
        self.pointer = PointerState { x, y };
    }

    /// Installs a freshly built simulation in place of whatever was live,
    /// and returns the new epoch as the step token for the loop that will
    /// drive it.  The old simulation leaves the slot whole — its two
    /// targets stop being referenced together — so the live target count
    /// stays exactly two.
    pub fn install(&mut self, sim: Simulation) -> (token: u64)
        requires
            old(self).epoch < u64::MAX,
            sim.wf(),
        ensures
            *final(self) == install_spec(*old(self), sim),
            final(self).wf(),
            token == final(self).epoch,
            final(self).epoch == old(self).epoch + 1,
            final(self).sim == Some(sim),
            final(self).pointer == old(self).pointer,
            final(self).live_target_count() == 2,
    {
        self.epoch = self.epoch + 1;
        self.sim = Some(sim);
        self.epoch
    }

    /// Finishes an initialization or reset attempt.  A successfully built
    /// simulation atomically replaces the live one and yields its step
    /// token.  A failed build leaves the controller — and so the
    /// previously live simulation, if any — exactly as it was, and hands
    /// the error through: a failed reset never tears down what runs.
    pub fn complete_reset(&mut self, built: Result<Simulation, SimError>) -> (r: Result<
        u64,
        SimError,
    >)
        requires
            old(self).epoch < u64::MAX,
            old(self).wf(),
            built matches Ok(s) ==> s.wf(),
        ensures
            final(self).wf(),
            final(self).pointer == old(self).pointer,
            built matches Ok(s) ==> (r matches Ok(token) && *final(self) == install_spec(
                *old(self),
                s,
            ) && token == final(self).epoch && final(self).live_target_count() == 2),
            built matches Err(e) ==> (*final(self) == *old(self) && r == Err::<u64, SimError>(e)),
    {
        match built {
            Ok(sim) => Ok(self.install(sim)),
            Err(e) => Err(e),
        }
    }

    /// Whether the step loop holding `token` still drives the live
    /// simulation.
    pub fn should_step(&self, token: u64) -> (b: bool)
        ensures
            b == self.may_step(token),
    {
        self.sim.is_some() && token == self.epoch
    }

    /// Runs one frame of the step loop.  The callback presents its token;
    /// if its simulation is still the live one, a tick runs against the
    /// recorded pointer position and the plan comes back for the host to
    /// execute.  A stale token steps nothing and changes nothing — that is
    /// how a superseded loop dies without an explicit stop operation.
    pub fn step_frame(&mut self, token: u64) -> (r: Option<TickPlan>)
        requires
            old(self).wf(),
        ensures
            final(self).wf(),
            final(self).epoch == old(self).epoch,
            final(self).pointer == old(self).pointer,
            !old(self).may_step(token) ==> r is None && final(self).sim == old(self).sim,
            old(self).may_step(token) ==> (r matches Some(plan) && old(self).sim matches Some(s)
                && plan == s.tick_plan(old(self).pointer.x, old(self).pointer.y)
                && final(self).sim == Some(s.after_tick())),
    {
        if !self.should_step(token) {
            return None;
        }
        match self.sim {
            Some(s) => {
                let mut stepped = s;
                let plan = stepped.tick(self.pointer.x, self.pointer.y);
                self.sim = Some(stepped);
                Some(plan)
            },
            None => None,
        }
    }
}

/// A completed reset stops the superseded loop: every token handed out
/// before the reset is at most the old epoch, the reset raised the epoch,
/// and a loop whose token no longer matches may not step — so no tick
/// against the old simulation fires after the reset completes.
pub proof fn lemma_reset_stops_old_loop(before: Controller, after: Controller, old_token: u64)
    requires
        old_token <= before.epoch,
        after.epoch > before.epoch,
    ensures
        !after.may_step(old_token),
{
}

/// Installing a sequence of simulations one after the other, as repeated
/// resets do.
pub open spec fn install_all(c: Controller, sims: Seq<Simulation>) -> Controller
    decreases sims.len(),
{
    if sims.len() == 0 {
        c
    } else {
        install_all(install_spec(c, sims[0]), sims.drop_first())
    }
}

/// Resets do not leak render targets: after any non-empty sequence of
/// installs the controller keeps exactly two targets alive — the count
/// after N resets equals the count after one, not a count that grows with
/// N.
pub proof fn lemma_resets_do_not_leak(c: Controller, sims: Seq<Simulation>)
    requires
        sims.len() > 0,
    ensures
        install_all(c, sims).live_target_count() == 2,
        install_all(c, sims).live_target_count() == install_all(
            c,
            sims.take(1),
        ).live_target_count(),
    decreases sims.len(),
{
    if sims.len() == 1 {
        lemma_install_all_single(c, sims);
        assert(sims.take(1) =~= sims);
    } else {
        lemma_resets_do_not_leak(install_spec(c, sims[0]), sims.drop_first());
        assert(sims.take(1).len() == 1);
        assert(sims.take(1)[0] == sims[0]);
        lemma_install_all_single(c, sims.take(1));
    }
}

/// Installing a one-element sequence is one install.
proof fn lemma_install_all_single(c: Controller, sims: Seq<Simulation>)
    requires
        sims.len() == 1,
    ensures
        install_all(c, sims) == install_spec(c, sims[0]),
{
    assert(sims.drop_first().len() == 0);
    assert(install_all(install_spec(c, sims[0]), sims.drop_first()) == install_spec(c, sims[0]));
}

} // verus!
