//! The DirectX 12 hook's bookkeeping: capturing the swap chain and the
//! command queue that presents it, and deciding when the overlay pipeline
//! built on them is stale.
//!
//! COM objects are identified by the address of their `IUnknown` identity;
//! the hooks query the objects and hand the identities and query results in.
use vstd::prelude::*;

verus! {

/// The capture of the objects that the overlay needs.
#[derive(Debug, Clone, Copy, PartialEq, Eq, Structural)]
pub enum InitializationContext {
    /// Nothing captured.
    Empty,
    /// A swap chain was seen; its command queue is not known yet.
    WithSwapChain(usize),
    /// A swap chain and the command queue that presents it.
    Complete(usize, usize),
    /// The pipeline was built; the context takes no more changes.
    Done,
}

impl InitializationContext {
    /// Records a swap chain; only an empty context takes it.
    pub fn insert_swap_chain(&mut self, swap_chain: usize)
        ensures
            *final(self) == if *old(self) is Empty {
                InitializationContext::WithSwapChain(swap_chain)
            } else {
                *old(self)
            },
    {
        if let InitializationContext::Empty = *self {
            *self = InitializationContext::WithSwapChain(swap_chain);
        }
    }

    /// Records a command queue that the system tied to a swap chain when it
    /// was created; any context but a done one becomes complete with them.
    pub fn set_complete(&mut self, swap_chain: usize, command_queue: usize)
        ensures
            *final(self) == if *old(self) is Done {
                InitializationContext::Done
            } else {
                InitializationContext::Complete(swap_chain, command_queue)
            },
    {
        if let InitializationContext::Done = *self {
            return;
        }
        *self = InitializationContext::Complete(swap_chain, command_queue);
    }

    /// The swap chain against which a command queue must be checked: only a
    /// context that holds a swap chain and no queue asks for the check.
    pub fn pending_swap_chain(&self) -> (r: Option<usize>)
        ensures
            r == match *self {
                InitializationContext::WithSwapChain(s) => Some(s),
                _ => None::<usize>,
            },
    {
        match *self {
            InitializationContext::WithSwapChain(s) => Some(s),
            _ => None,
        }
    }

    /// Records a command queue seen executing work: a context that holds a
    /// swap chain becomes complete with it when the queue belongs to that
    /// swap chain (`belongs`, the check asked for by
    /// [`InitializationContext::pending_swap_chain`]); other contexts are
    /// unchanged.
    pub fn insert_command_queue(&mut self, command_queue: usize, belongs: bool)
        ensures
            *final(self) == match *old(self) {
                InitializationContext::WithSwapChain(s) => if belongs {
                    InitializationContext::Complete(s, command_queue)
                } else {
                    InitializationContext::WithSwapChain(s)
                },
                other => other,
            },
    {
        if let InitializationContext::WithSwapChain(s) = *self {
            if belongs {
                *self = InitializationContext::Complete(s, command_queue);
            }
        }
    }

    /// The swap chain and command queue of a complete context.
    pub open spec fn captured(&self) -> Option<(usize, usize)> {
        match *self {
            InitializationContext::Complete(s, q) => Some((s, q)),
            _ => None,
        }
    }

    /// The swap chain and command queue, if the context is complete.
    pub fn get(&self) -> (r: Option<(usize, usize)>)
        ensures
            r == match *self {
                InitializationContext::Complete(s, q) => Some((s, q)),
                _ => None::<(usize, usize)>,
            },
    {
        match *self {
            InitializationContext::Complete(s, q) => Some((s, q)),
            _ => None,
        }
    }

    /// Marks a complete context as done.
    pub fn done(&mut self)
        ensures
            *final(self) == if *old(self) is Complete {
                InitializationContext::Done
            } else {
                *old(self)
            },
    {
        if let InitializationContext::Complete(..) = *self {
            *self = InitializationContext::Done;
        }
    }
}

/// The initialization context together with the completion flag that lets
/// the hot path skip the context.
pub struct InitState {
    inner: InitializationContext,
    done: bool,
}

impl InitState {
    pub closed spec fn spec_context(&self) -> InitializationContext {
        self.inner
    }

    pub closed spec fn spec_done(&self) -> bool {
        self.done
    }

    pub fn new() -> (r: Self)
        ensures
            r.spec_context() == InitializationContext::Empty,
            !r.spec_done(),
    {
        InitState { inner: InitializationContext::Empty, done: false }
    }

    pub fn is_done(&self) -> (r: bool)
        ensures
            r == self.spec_done(),
    {
        self.done
    }

    /// The context, for reading.
    pub fn context(&self) -> (r: InitializationContext)
        ensures
            r == self.spec_context(),
    {
        self.inner
    }

    /// The context, for changing.
    pub fn context_mut(&mut self) -> (r: &mut InitializationContext)
        ensures
            *r == old(self).spec_context(),
            final(self).spec_context() == *final(r),
            final(self).spec_done() == old(self).spec_done(),
    {
        &mut self.inner
    }

    /// Marks the context done and sets the flag.
    pub fn mark_done(&mut self)
        ensures
            final(self).spec_done(),
            final(self).spec_context() == if old(self).spec_context() is Complete {
                InitializationContext::Done
            } else {
                old(self).spec_context()
            },
    {
        self.inner.done();
        self.done = true;
    }

    /// Forgets everything captured.
    pub fn reset(&mut self)
        ensures
            final(self).spec_context() == InitializationContext::Empty,
            !final(self).spec_done(),
    {
        self.inner = InitializationContext::Empty;
        self.done = false;
    }
}

/// A done context stays done whatever is recorded into it.
pub proof fn lemma_done_is_final(c: InitializationContext, s: usize, q: usize, belongs: bool)
    requires
        c is Done,
    ensures
        (if c is Empty {
            InitializationContext::WithSwapChain(s)
        } else {
            c
        }) == c,
        (if c is Done {
            InitializationContext::Done
        } else {
            InitializationContext::Complete(s, q)
        }) == c,
        (match c {
            InitializationContext::WithSwapChain(x) => if belongs {
                InitializationContext::Complete(x, q)
            } else {
                InitializationContext::WithSwapChain(x)
            },
            other => other,
        }) == c,
{
}

// ---------------------------------------------------------------------------
// Finding the command queue inside a swap chain
// ---------------------------------------------------------------------------

/// Finds the position of the command queue's address among the readable
/// pointer-sized words of a swap chain object.
pub fn find_queue_pointer(words: &[usize], queue: usize) -> (r: Option<usize>)
    ensures
        r matches Some(i) ==> i < words@.len() && words@[i as int] == queue && forall|j: int|
            0 <= j < i ==> words@[j] != queue,
        r is None ==> forall|j: int| 0 <= j < words@.len() ==> words@[j] != queue,
{
    let mut i: usize = 0;
    while i < words.len()
        invariant
            i <= words@.len(),
            forall|j: int| 0 <= j < i ==> words@[j] != queue,
        decreases words@.len() - i,
    {
        if words[i] == queue {
            return Some(i);
        }
        i = i + 1;
    }
    None
}

// ---------------------------------------------------------------------------
// Present queues of `ResizeBuffers1`
// ---------------------------------------------------------------------------

/// What the hook learns about one entry of a present-queue array.
#[derive(Debug, Clone, Copy, PartialEq, Eq, Structural)]
pub enum QueueEntry {
    /// The entry is null.
    Null,
    /// The object is not a direct D3D12 command queue.
    NotDirect,
    /// The queue's identity could not be queried.
    NoIdentity,
    /// A direct command queue with this identity.
    Direct(usize),
}

/// The outcome of inspecting the present queues of a `ResizeBuffers1` call.
#[derive(Debug, Clone, Copy, PartialEq, Eq, Structural)]
pub enum PresentQueueCapture {
    /// No present queues were supplied.
    Missing,
    /// All queues are one direct command queue (the first entry's).
    Valid,
    /// The queues cannot be used for the overlay.
    Invalid,
}

/// The present queues are usable: one direct command queue in every entry,
/// and, when node masks are supplied, the same mask for every entry.
pub open spec fn queues_usable(queues: Seq<QueueEntry>, masks: Option<Seq<u32>>) -> bool {
    &&& queues.len() >= 1
    &&& queues[0] is Direct
    &&& forall|i: int| 1 <= i < queues.len() ==> #[trigger] queues[i] == queues[0]
    &&& masks is Some ==> forall|i: int| 1 <= i < queues.len() ==> #[trigger] masks->0[i] == masks->0[0]
}

/// Inspects the present queues: `supplied` tells whether an array was
/// passed, `queues` holds one entry per back buffer and `masks` the
/// creation node masks when they were passed.
pub fn classify_present_queues(supplied: bool, queues: &[QueueEntry], masks: Option<&[u32]>) -> (r: PresentQueueCapture)
    requires
        masks matches Some(m) ==> m@.len() == queues@.len(),
    ensures
        !supplied ==> r == PresentQueueCapture::Missing,
        supplied ==> (r == PresentQueueCapture::Valid <==> queues_usable(
            queues@,
            match masks {
                Some(m) => Some(m@),
                None => None::<Seq<u32>>,
            },
        )),
        supplied ==> r != PresentQueueCapture::Missing,
{
    if !supplied {
        return PresentQueueCapture::Missing;
    }
    if queues.len() == 0 {
        return PresentQueueCapture::Invalid;
    }
    let first = queues[0];
    let id0 = match first {
        QueueEntry::Direct(id) => id,
        _ => {
            return PresentQueueCapture::Invalid;
        },
    };
    let ghost ms = match masks {
        Some(m) => Some(m@),
        None => None::<Seq<u32>>,
    };
    let mut i: usize = 1;
    while i < queues.len()
        invariant
            supplied,
            1 <= i <= queues@.len(),
            queues@[0] == QueueEntry::Direct(id0),
            masks matches Some(m) ==> m@.len() == queues@.len(),
            ms == match masks {
                Some(m) => Some(m@),
                None => None::<Seq<u32>>,
            },
            forall|j: int| 1 <= j < i ==> #[trigger] queues@[j] == queues@[0],
            ms matches Some(m) ==> forall|j: int| 1 <= j < i ==> #[trigger] m[j] == m[0],
        decreases queues@.len() - i,
    {
        match queues[i] {
            QueueEntry::Direct(id) => {
                if id != id0 {
                    return PresentQueueCapture::Invalid;
                }
            },
            _ => {
                return PresentQueueCapture::Invalid;
            },
        }
        match masks {
            Some(m) => {
                if m[i] != m[0] {
                    assert(ms->0[i as int] != ms->0[0]);
                    return PresentQueueCapture::Invalid;
                }
            },
            None => {},
        }
        i = i + 1;
    }
    PresentQueueCapture::Valid
}

/// How many present queues a `ResizeBuffers1` call passes: none without an
/// array, else the buffer count it asks for, or the swap chain's current
/// buffer count when it asks for 0 (`current` is `None` if that could not be
/// read, and then the count is 0).
pub fn present_queue_count(supplied: bool, buffer_count: u32, current: Option<u32>) -> (r: u32)
    ensures
        r == if !supplied {
            0
        } else if buffer_count != 0 {
            buffer_count
        } else {
            match current {
                Some(c) => c,
                None => 0,
            }
        },
{
    if !supplied {
        0
    } else if buffer_count != 0 {
        buffer_count
    } else {
        match current {
            Some(c) => c,
            None => 0,
        }
    }
}

// ---------------------------------------------------------------------------
// Staleness of the active context
// ---------------------------------------------------------------------------

/// `DXGI_ERROR_DEVICE_REMOVED`.
pub const DXGI_ERROR_DEVICE_REMOVED: i32 = -2005270523i32;
/// `DXGI_ERROR_DEVICE_RESET`.
pub const DXGI_ERROR_DEVICE_RESET: i32 = -2005270521i32;

/// Whether a `Present` result means the device is gone and the pipeline
/// must be rebuilt.
pub fn present_result_resets(result: i32) -> (r: bool)
    ensures
        r == (result == DXGI_ERROR_DEVICE_REMOVED || result == DXGI_ERROR_DEVICE_RESET),
{
    result == DXGI_ERROR_DEVICE_REMOVED || result == DXGI_ERROR_DEVICE_RESET
}

/// What the overlay pipeline was built on.
#[derive(Debug, Clone, Copy, PartialEq, Eq, Structural)]
pub struct ActiveContext {
    pub swap_chain_identity: usize,
    /// The command queue the pipeline renders with.
    pub command_queue: usize,
    pub device_identity: usize,
    pub command_queue_device_identity: usize,
    pub rtv_format: u32,
    pub buffer_count: u32,
    pub hwnd: usize,
}

/// What the hook observes of the swap chain being presented: each identity
/// is `None` when its query failed, `rtv_format` is `None` for a swap-chain
/// format the overlay does not support.
#[derive(Debug, Clone, Copy, PartialEq, Eq, Structural)]
pub struct ContextObservation {
    pub swap_chain_identity: Option<usize>,
    pub device_found: bool,
    pub device_identity: Option<usize>,
    pub queue_device_found: bool,
    pub queue_device_identity: Option<usize>,
    pub device_removed: bool,
    /// The swap chain's description could be read; the format and buffer
    /// count below come from it.
    pub desc_read: bool,
    pub rtv_format: Option<u32>,
    pub buffer_count: u32,
}

/// Why the pipeline is stale.
#[derive(Debug, Clone, Copy, PartialEq, Eq, Structural)]
pub enum StaleReason {
    SwapChainIdentityUnknown,
    SwapChainReplaced,
    DeviceUnknown,
    DeviceIdentityUnknown,
    DeviceReplaced,
    QueueDeviceUnknown,
    QueueDeviceIdentityUnknown,
    QueueDeviceMismatch,
    DeviceRemoved,
    UnsupportedFormat,
    FormatOrBufferCountChanged,
}

/// The verdict on the active context.
#[derive(Debug, Clone, Copy, PartialEq, Eq, Structural)]
pub enum ContextVerdict {
    /// The pipeline still fits the swap chain.
    Valid,
    /// The swap chain's description could not be read: the check fails with
    /// that error and changes nothing.
    DescUnreadable,
    /// The pipeline must be dropped, for this reason. After a format or
    /// buffer count change the context is completed again with the same
    /// command queue.
    Stale(StaleReason),
}

/// The first failed check, in the order the hook makes them.
pub open spec fn spec_validate(active: ActiveContext, o: ContextObservation) -> ContextVerdict {
    match o.swap_chain_identity {
        None => ContextVerdict::Stale(StaleReason::SwapChainIdentityUnknown),
        Some(sc) => if sc != active.swap_chain_identity {
            ContextVerdict::Stale(StaleReason::SwapChainReplaced)
        } else if !o.device_found {
            ContextVerdict::Stale(StaleReason::DeviceUnknown)
        } else {
            match o.device_identity {
                None => ContextVerdict::Stale(StaleReason::DeviceIdentityUnknown),
                Some(dev) => if dev != active.device_identity {
                    ContextVerdict::Stale(StaleReason::DeviceReplaced)
                } else if !o.queue_device_found {
                    ContextVerdict::Stale(StaleReason::QueueDeviceUnknown)
                } else {
                    match o.queue_device_identity {
                        None => ContextVerdict::Stale(StaleReason::QueueDeviceIdentityUnknown),
                        Some(qd) => if qd != dev || qd != active.command_queue_device_identity {
                            ContextVerdict::Stale(StaleReason::QueueDeviceMismatch)
                        } else if o.device_removed {
                            ContextVerdict::Stale(StaleReason::DeviceRemoved)
                        } else if !o.desc_read {
                            ContextVerdict::DescUnreadable
                        } else {
                            match o.rtv_format {
                                None => ContextVerdict::Stale(StaleReason::UnsupportedFormat),
                                Some(f) => if f != active.rtv_format || o.buffer_count
                                    != active.buffer_count {
                                    ContextVerdict::Stale(StaleReason::FormatOrBufferCountChanged)
                                } else {
                                    ContextVerdict::Valid
                                },
                            }
                        },
                    }
                },
            }
        },
    }
}

/// Checks whether the pipeline built on `active` still fits the swap chain
/// being presented.
pub fn validate_active_context(active: ActiveContext, o: ContextObservation) -> (r: ContextVerdict)
    ensures
        r == spec_validate(active, o),
{
    let sc = match o.swap_chain_identity {
        None => {
            return ContextVerdict::Stale(StaleReason::SwapChainIdentityUnknown);
        },
        Some(sc) => sc,
    };
    if sc != active.swap_chain_identity {
        return ContextVerdict::Stale(StaleReason::SwapChainReplaced);
    }
    if !o.device_found {
        return ContextVerdict::Stale(StaleReason::DeviceUnknown);
    }
    let dev = match o.device_identity {
        None => {
            return ContextVerdict::Stale(StaleReason::DeviceIdentityUnknown);
        },
        Some(d) => d,
    };
    if dev != active.device_identity {
        return ContextVerdict::Stale(StaleReason::DeviceReplaced);
    }
    if !o.queue_device_found {
        return ContextVerdict::Stale(StaleReason::QueueDeviceUnknown);
    }
    let qd = match o.queue_device_identity {
        None => {
            return ContextVerdict::Stale(StaleReason::QueueDeviceIdentityUnknown);
        },
        Some(q) => q,
    };
    if qd != dev || qd != active.command_queue_device_identity {
        return ContextVerdict::Stale(StaleReason::QueueDeviceMismatch);
    }
    if o.device_removed {
        return ContextVerdict::Stale(StaleReason::DeviceRemoved);
    }
    if !o.desc_read {
        return ContextVerdict::DescUnreadable;
    }
    match o.rtv_format {
        None => ContextVerdict::Stale(StaleReason::UnsupportedFormat),
        Some(f) => if f != active.rtv_format || o.buffer_count != active.buffer_count {
            ContextVerdict::Stale(StaleReason::FormatOrBufferCountChanged)
        } else {
            ContextVerdict::Valid
        },
    }
}

/// The context is valid exactly when every observation matches what it was
/// built on.
pub proof fn lemma_valid_iff_unchanged(active: ActiveContext, o: ContextObservation)
    ensures
        spec_validate(active, o) == ContextVerdict::Valid <==> (o.swap_chain_identity == Some(
            active.swap_chain_identity,
        ) && o.device_found && o.device_identity == Some(active.device_identity)
            && o.queue_device_found && o.queue_device_identity == Some(active.device_identity)
            && active.command_queue_device_identity == active.device_identity && !o.device_removed
            && o.desc_read && o.rtv_format == Some(active.rtv_format) && o.buffer_count == active.buffer_count),
{
}

/// Whether a context captured before the pipeline exists still belongs to
/// the swap chain being presented: with an active pipeline, or nothing
/// complete captured, there is nothing to check; otherwise the captured swap
/// chain must be the presented one (a mismatch resets the capture to the
/// presented swap chain).
pub fn pending_context_matches(has_active: bool, captured: Option<usize>, current: usize) -> (r: bool)
    ensures
        r == (has_active || captured is None || captured == Some(current)),
{
    if has_active {
        return true;
    }
    match captured {
        None => true,
        Some(c) => c == current,
    }
}

/// What to do when the system created a swap chain.
#[derive(Debug, Clone, Copy, PartialEq, Eq, Structural)]
pub enum SwapChainCreated {
    /// Nothing to record.
    Ignore,
    /// Complete the capture with the new swap chain and its command queue,
    /// after dropping the pipeline if `reset`.
    Capture { reset: bool },
}

/// Decides what a swap chain creation means for the capture: `succeeded`
/// is the creation's result, `created` the new swap chain's identity
/// (`None` when there is no usable swap chain or its identity query failed,
/// `has_swap_chain` telling the two apart), `direct_queue` whether the
/// creating device is a direct command queue, `hwnd` the target window (0 if
/// unknown) and `active` the active context.
pub fn on_swap_chain_created(
    succeeded: bool,
    has_swap_chain: bool,
    created: Option<usize>,
    direct_queue: bool,
    hwnd: usize,
    active: Option<ActiveContext>,
) -> (r: SwapChainCreated)
    ensures
        (!succeeded || !has_swap_chain || !direct_queue) ==> r == SwapChainCreated::Ignore,
        (succeeded && has_swap_chain && direct_queue) ==> r == match active {
            None => SwapChainCreated::Capture { reset: false },
            Some(a) => if hwnd != 0 && a.hwnd != 0 && hwnd != a.hwnd {
                SwapChainCreated::Ignore
            } else {
                SwapChainCreated::Capture {
                    reset: created matches Some(id) && id != a.swap_chain_identity,
                }
            },
        },
{
    if !succeeded || !has_swap_chain || !direct_queue {
        return SwapChainCreated::Ignore;
    }
    match active {
        None => SwapChainCreated::Capture { reset: false },
        Some(a) => {
            if hwnd != 0 && a.hwnd != 0 && hwnd != a.hwnd {
                return SwapChainCreated::Ignore;
            }
            let reset = match created {
                Some(id) => id != a.swap_chain_identity,
                None => false,
            };
            SwapChainCreated::Capture { reset }
        },
    }
}

// ---------------------------------------------------------------------------
// The hook's state across presents
// ---------------------------------------------------------------------------

/// What the DX12 hook keeps between presents: the context the pipeline was
/// built on (if any), whether the pipeline exists, and the capture of the
/// objects for the next one.
pub struct Dx12HookState {
    pub active: Option<ActiveContext>,
    pub pipeline: bool,
    pub init: InitState,
}

impl Dx12HookState {
    /// Nothing built, nothing captured.
    pub fn new() -> (r: Self)
        ensures
            r.active is None,
            !r.pipeline,
            r.init.spec_context() == InitializationContext::Empty,
            !r.init.spec_done(),
    {
        Dx12HookState { active: None, pipeline: false, init: InitState::new() }
    }

    /// Drops the pipeline and the active context and forgets the capture.
    pub fn reset_pipeline(&mut self)
        ensures
            final(self).active is None,
            !final(self).pipeline,
            final(self).init.spec_context() == InitializationContext::Empty,
            !final(self).init.spec_done(),
    {
        self.pipeline = false;
        self.active = None;
        self.init.reset();
    }

    /// After a `Present`: a result that reports the device removed or reset
    /// drops the pipeline; any other changes nothing.
    pub fn on_present_result(&mut self, result: i32)
        ensures
            (result == DXGI_ERROR_DEVICE_REMOVED || result == DXGI_ERROR_DEVICE_RESET) ==> {
                &&& final(self).active is None
                &&& !final(self).pipeline
                &&& final(self).init.spec_context() == InitializationContext::Empty
                &&& !final(self).init.spec_done()
            },
            !(result == DXGI_ERROR_DEVICE_REMOVED || result == DXGI_ERROR_DEVICE_RESET) ==> {
                &&& final(self).active == old(self).active
                &&& final(self).pipeline == old(self).pipeline
                &&& final(self).init.spec_context() == old(self).init.spec_context()
                &&& final(self).init.spec_done() == old(self).init.spec_done()
            },
    {
        if present_result_resets(result) {
            self.reset_pipeline();
        }
    }

    /// Checks a capture made before the pipeline exists against the swap chain
    /// being presented (identities): with an active context or no complete
    /// capture it passes; a capture of another swap chain is dropped and the
    /// presented swap chain captured instead, and the present skips the
    /// overlay (`false`).
    pub fn check_pending(&mut self, swap_chain: usize) -> (r: bool)
        ensures
            r == (old(self).active is Some || old(self).init.spec_context().captured() is None
                || (old(self).init.spec_context().captured()->0).0 == swap_chain),
            final(self).active == old(self).active,
            final(self).pipeline == old(self).pipeline,
            r ==> final(self).init.spec_context() == old(self).init.spec_context()
                && final(self).init.spec_done() == old(self).init.spec_done(),
            !r ==> final(self).init.spec_context() == InitializationContext::WithSwapChain(swap_chain)
                && !final(self).init.spec_done(),
    {
        if self.active.is_some() {
            return true;
        }
        let captured = self.init.context().get();
        match captured {
            None => true,
            Some((s, _)) => {
                if s == swap_chain {
                    true
                } else {
                    self.init.reset();
                    self.init.context_mut().insert_swap_chain(swap_chain);
                    false
                }
            },
        }
    }

    /// Checks the active context against what is observed of the swap chain
    /// being presented (`swap_chain` its identity). Without an active context
    /// the check passes and nothing changes. A stale context drops the
    /// pipeline and the capture; when only the format or buffer count
    /// changed, the capture is completed again with the presented swap chain
    /// and the active context's command queue.
    pub fn check_active(&mut self, swap_chain: usize, o: ContextObservation) -> (r: ContextVerdict)
        ensures
            old(self).active is None ==> r == ContextVerdict::Valid,
            old(self).active matches Some(a) ==> r == spec_validate(a, o),
            !(r is Stale) ==> {
                &&& final(self).active == old(self).active
                &&& final(self).pipeline == old(self).pipeline
                &&& final(self).init.spec_context() == old(self).init.spec_context()
                &&& final(self).init.spec_done() == old(self).init.spec_done()
            },
            r is Stale ==> {
                &&& final(self).active is None
                &&& !final(self).pipeline
                &&& !final(self).init.spec_done()
                &&& final(self).init.spec_context() == if r == ContextVerdict::Stale(
                    StaleReason::FormatOrBufferCountChanged,
                ) {
                    InitializationContext::Complete(swap_chain, old(self).active->0.command_queue)
                } else {
                    InitializationContext::Empty
                }
            },
    {
        let a = match self.active {
            None => {
                return ContextVerdict::Valid;
            },
            Some(a) => a,
        };
        let verdict = validate_active_context(a, o);
        match verdict {
            ContextVerdict::Stale(reason) => {
                self.reset_pipeline();
                if let StaleReason::FormatOrBufferCountChanged = reason {
                    self.init.context_mut().set_complete(swap_chain, a.command_queue);
                }
            },
            _ => {},
        }
        verdict
    }
}

/// Which check a stale context fails first: the checks run in the order
/// swap-chain identity, swap chain, device, device identity, device, queue
/// device, queue device identity, queue device, device removal,
/// description, format and buffer count, and the verdict names the first
/// that fails.
pub proof fn lemma_first_failed_check(a: ActiveContext, o: ContextObservation)
    ensures
        ({
            let v = spec_validate(a, o);
            let sc_ok = o.swap_chain_identity == Some(a.swap_chain_identity);
            let dev_ok = sc_ok && o.device_found && o.device_identity == Some(a.device_identity);
            let q_ok = dev_ok && o.queue_device_found && o.queue_device_identity == Some(
                a.device_identity,
            ) && a.command_queue_device_identity == a.device_identity;
            &&& o.swap_chain_identity is None ==> v == ContextVerdict::Stale(
                StaleReason::SwapChainIdentityUnknown,
            )
            &&& (o.swap_chain_identity is Some && !sc_ok) ==> v == ContextVerdict::Stale(
                StaleReason::SwapChainReplaced,
            )
            &&& (sc_ok && !o.device_found) ==> v == ContextVerdict::Stale(StaleReason::DeviceUnknown)
            &&& (sc_ok && o.device_found && o.device_identity is None) ==> v == ContextVerdict::Stale(
                StaleReason::DeviceIdentityUnknown,
            )
            &&& (sc_ok && o.device_found && o.device_identity is Some && o.device_identity != Some(
                a.device_identity,
            )) ==> v == ContextVerdict::Stale(StaleReason::DeviceReplaced)
            &&& (dev_ok && !o.queue_device_found) ==> v == ContextVerdict::Stale(
                StaleReason::QueueDeviceUnknown,
            )
            &&& (dev_ok && o.queue_device_found && o.queue_device_identity is None) ==> v
                == ContextVerdict::Stale(StaleReason::QueueDeviceIdentityUnknown)
            &&& (dev_ok && o.queue_device_found && o.queue_device_identity is Some && !q_ok) ==> v
                == ContextVerdict::Stale(StaleReason::QueueDeviceMismatch)
            &&& (q_ok && o.device_removed) ==> v == ContextVerdict::Stale(StaleReason::DeviceRemoved)
            &&& (q_ok && !o.device_removed && !o.desc_read) ==> v == ContextVerdict::DescUnreadable
            &&& (q_ok && !o.device_removed && o.desc_read && o.rtv_format is None) ==> v
                == ContextVerdict::Stale(StaleReason::UnsupportedFormat)
            &&& (q_ok && !o.device_removed && o.desc_read && o.rtv_format is Some && (o.rtv_format
                != Some(a.rtv_format) || o.buffer_count != a.buffer_count)) ==> v
                == ContextVerdict::Stale(StaleReason::FormatOrBufferCountChanged)
        }),
{
}

} // verus!
