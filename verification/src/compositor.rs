//! The DX12 compositor is built from three parts that the hooks learn about
//! at different times: the device and swap chain (from a `Present`) and a
//! direct command queue (from `ExecuteCommandLists`). It collects them and
//! is set up once all three are known.
use vstd::prelude::*;

verus! {

/// The type number of a direct command queue; the compositor takes no
/// other kind.
pub const COMMAND_LIST_TYPE_DIRECT: i32 = 0;

/// The state of the compositor: still collecting its parts, or set up.
pub enum CompositorState<D, S, Q, C> {
    Builder(Option<D>, Option<S>, Option<Q>),
    Compositor(C),
}

/// A compositor over devices `D`, swap chains `S`, command queues `Q`, and
/// a set-up compositor `C`.
pub struct Compositor<D, S, Q, C> {
    pub state: CompositorState<D, S, Q, C>,
}

impl<D, S, Q, C> Compositor<D, S, Q, C> {
    /// Whether the compositor is still collecting its parts.
    pub open spec fn is_builder(&self) -> bool {
        self.state is Builder
    }

    /// A compositor that knows none of its parts.
    pub fn new() -> (r: Self)
        ensures
            r.state matches CompositorState::Builder(d, s, q) && d is None && s is None && q is None,
    {
        Compositor { state: CompositorState::Builder(None, None, None) }
    }

    /// Records the device and swap chain of a `Present`, while the
    /// compositor is still collecting its parts; a set-up compositor keeps
    /// the ones it has.
    pub fn with_swap_chain(&mut self, device: D, swap_chain: S)
        ensures
            match old(self).state {
                CompositorState::Builder(_, _, q) => final(self).state == CompositorState::<
                    D,
                    S,
                    Q,
                    C,
                >::Builder(Some(device), Some(swap_chain), q),
                CompositorState::Compositor(_) => final(self).state == old(self).state,
            },
    {
        let mut st = CompositorState::Builder(None, None, None);
        std::mem::swap(&mut st, &mut self.state);
        self.state = match st {
            CompositorState::Builder(_, _, q) => CompositorState::Builder(Some(device), Some(swap_chain), q),
            other => other,
        };
    }

    /// Records a command queue of type `queue_type`, while the compositor is
    /// still collecting its parts: only a direct queue is taken.
    pub fn with_command_queue(&mut self, queue: Q, queue_type: i32)
        ensures
            match old(self).state {
                CompositorState::Builder(d, s, q) => final(self).state == if queue_type
                    == COMMAND_LIST_TYPE_DIRECT {
                    CompositorState::<D, S, Q, C>::Builder(d, s, Some(queue))
                } else {
                    CompositorState::<D, S, Q, C>::Builder(d, s, q)
                },
                CompositorState::Compositor(_) => final(self).state == old(self).state,
            },
    {
        let mut st = CompositorState::Builder(None, None, None);
        std::mem::swap(&mut st, &mut self.state);
        self.state = match st {
            CompositorState::Builder(d, s, q) => {
                if queue_type == COMMAND_LIST_TYPE_DIRECT {
                    CompositorState::Builder(d, s, Some(queue))
                } else {
                    CompositorState::Builder(d, s, q)
                }
            },
            other => other,
        };
    }

    /// When all three parts are known, takes them out to set the compositor
    /// up (the builder is left empty, so a set-up that fails starts over);
    /// otherwise nothing changes and the result is `None`.
    pub fn take_parts(&mut self) -> (r: Option<(D, S, Q)>)
        ensures
            match old(self).state {
                CompositorState::Builder(Some(d), Some(s), Some(q)) => {
                    &&& r == Some((d, s, q))
                    &&& final(self).state == CompositorState::<D, S, Q, C>::Builder(None, None, None)
                },
                _ => r is None && final(self).state == old(self).state,
            },
    {
        let mut st = CompositorState::Builder(None, None, None);
        std::mem::swap(&mut st, &mut self.state);
        match st {
            CompositorState::Builder(Some(d), Some(s), Some(q)) => Some((d, s, q)),
            other => {
                self.state = other;
                None
            },
        }
    }

    /// Installs the set-up compositor.
    pub fn finish(&mut self, inner: C)
        ensures
            final(self).state == CompositorState::<D, S, Q, C>::Compositor(inner),
    {
        self.state = CompositorState::Compositor(inner);
    }

    /// The set-up compositor, if there is one.
    pub fn inner(&self) -> (r: Option<&C>)
        ensures
            match self.state {
                CompositorState::Compositor(c) => r == Some(&c),
                _ => r is None,
            },
    {
        match &self.state {
            CompositorState::Compositor(c) => Some(c),
            _ => None,
        }
    }
}

} // verus!
