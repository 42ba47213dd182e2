use crate::errors::{ResourceKind, SimError};
use vstd::prelude::*;

verus! {

/// The GPU status code that reports a complete framebuffer.
pub const FRAMEBUFFER_COMPLETE: u32 = 0x8CD5;

/// One render target: a framebuffer whose color attachment 0 is a 2-D
/// texture of the given size, with nearest-neighbor filtering and clamped
/// addressing.  The handles are plain integers naming GPU objects owned by
/// the host shell.
#[derive(Clone, Copy, Debug, PartialEq, Eq, Structural)]
pub struct RenderTarget {
    pub framebuffer: u32,
    pub texture: u32,
    pub width: u32,
    pub height: u32,
}

/// Decides whether allocation of the two GPU objects of a render target
/// succeeded.  `None` stands for an allocation the GPU refused; either
/// refusal is fatal and aborts construction with a `ResourceCreation` error.
pub fn target_allocation(framebuffer: Option<u32>, texture: Option<u32>) -> (r: Result<
    (u32, u32),
    SimError,
>)
    ensures
        framebuffer is None ==> r == Err::<(u32, u32), SimError>(
            SimError::ResourceCreation(ResourceKind::Framebuffer),
        ),
        framebuffer is Some && texture is None ==> r == Err::<(u32, u32), SimError>(
            SimError::ResourceCreation(ResourceKind::Texture),
        ),
        framebuffer matches Some(f) ==> texture matches Some(t) ==> r == Ok::<
            (u32, u32),
            SimError,
        >((f, t)),
{
    match (framebuffer, texture) {
        (None, _) => Err(SimError::ResourceCreation(ResourceKind::Framebuffer)),
        (Some(_), None) => Err(SimError::ResourceCreation(ResourceKind::Texture)),
        (Some(f), Some(t)) => Ok((f, t)),
    }
}

/// Applies the completeness check that every render target must pass once,
/// eagerly, right after its texture is attached: the target is usable only
/// if the GPU confirmed `FRAMEBUFFER_COMPLETE`, and any other status is
/// fatal and carried in the error for diagnostics.
pub fn complete_target(framebuffer: u32, texture: u32, width: u32, height: u32, status: u32) -> (r:
    Result<RenderTarget, SimError>)
    ensures
        status == FRAMEBUFFER_COMPLETE ==> r == Ok::<RenderTarget, SimError>(
            RenderTarget { framebuffer, texture, width, height },
        ),
        status != FRAMEBUFFER_COMPLETE ==> r == Err::<RenderTarget, SimError>(
            SimError::FramebufferIncomplete(status),
        ),
{
    if status == FRAMEBUFFER_COMPLETE {
        Ok(RenderTarget { framebuffer, texture, width, height })
    } else {
        Err(SimError::FramebufferIncomplete(status))
    }
}

/// The double buffer: a fixed arena of two render targets plus the index of
/// the one currently holding the `current` role.  Swapping roles only moves
/// the index; no target is moved, copied or reallocated.
#[derive(Clone, Copy, Debug)]
pub struct TargetPair {
    pub slots: [RenderTarget; 2],
    pub current: usize,
}

impl TargetPair {
    /// The two slots name distinct GPU objects of one common size, and the
    /// role index is in range.
    pub open spec fn wf(self) -> bool {
        &&& self.current < 2
        &&& self.slots[0].framebuffer != self.slots[1].framebuffer
        &&& self.slots[0].texture != self.slots[1].texture
        &&& self.slots[0].width == self.slots[1].width
        &&& self.slots[0].height == self.slots[1].height
    }

    /// The target being presented and read from this frame.
    pub open spec fn cur(self) -> RenderTarget {
        self.slots[self.current as int]
    }

    /// The target being written by this frame's compute pass.
    pub open spec fn nxt(self) -> RenderTarget {
        self.slots[1 - self.current as int]
    }

    /// Builds the pair with `first` in the `current` role.
    pub fn new(first: RenderTarget, second: RenderTarget) -> (pair: TargetPair)
        requires
            first.framebuffer != second.framebuffer,
            first.texture != second.texture,
            first.width == second.width,
            first.height == second.height,
        ensures
            pair.wf(),
            pair.cur() == first,
            pair.nxt() == second,
    {
        TargetPair { slots: [first, second], current: 0 }
    }

    /// The pair with the two role labels exchanged; the slots are untouched.
    pub open spec fn swapped(self) -> TargetPair {
        TargetPair {
            slots: self.slots,
            current: if self.current == 0 {
                1usize
            } else {
                0usize
            },
        }
    }

    /// Exchanges the `current` and `next` roles; the targets themselves are
    /// untouched.
    pub fn swap_roles(&mut self)
        requires
            old(self).wf(),
        ensures
            *final(self) == old(self).swapped(),
            final(self).wf(),
            final(self).cur() == old(self).nxt(),
            final(self).nxt() == old(self).cur(),
    {
        self.current = 1 - self.current;
    }

    /// The target in the `current` role.
    pub fn current_target(&self) -> (t: &RenderTarget)
        requires
            self.wf(),
        ensures
            *t == self.cur(),
    {
        &self.slots[self.current]
    }

    /// The target in the `next` role.
    pub fn next_target(&self) -> (t: &RenderTarget)
        requires
            self.wf(),
        ensures
            *t == self.nxt(),
    {
        &self.slots[1 - self.current]
    }
}

} // verus!
