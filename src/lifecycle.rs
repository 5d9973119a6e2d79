//! Lifecycle notification: the runtime's operation codes and the single
//! replaceable handler that receives them.

use vstd::prelude::*;

verus! {

/// A lifecycle transition of the PLC runtime.
#[derive(Debug, Clone, Copy, PartialEq, Eq, Structural)]
pub enum PlcOperation {
    /// No operation is in progress.
    NoOperation,
    Load,
    Setup,
    StartCold,
    StartWarm,
    StartHot,
    Stop,
    Reset,
    Unload,
    /// A code that names no known operation.
    Unknown,
}

/// The operation that the runtime's code `code` names.
pub open spec fn operation_of(code: u32) -> PlcOperation {
    match code {
        0 => PlcOperation::NoOperation,
        1 => PlcOperation::Load,
        2 => PlcOperation::Setup,
        3 => PlcOperation::StartCold,
        4 => PlcOperation::StartWarm,
        5 => PlcOperation::StartHot,
        6 => PlcOperation::Stop,
        7 => PlcOperation::Reset,
        8 => PlcOperation::Unload,
        _ => PlcOperation::Unknown,
    }
}

impl PlcOperation {
    /// The operation that the runtime's code `code` names; `Unknown` for any
    /// other code.
    pub fn from_code(code: u32) -> (r: PlcOperation)
        ensures
            r == operation_of(code),
    {
        match code {
            0 => PlcOperation::NoOperation,
            1 => PlcOperation::Load,
            2 => PlcOperation::Setup,
            3 => PlcOperation::StartCold,
            4 => PlcOperation::StartWarm,
            5 => PlcOperation::StartHot,
            6 => PlcOperation::Stop,
            7 => PlcOperation::Reset,
            8 => PlcOperation::Unload,
            _ => PlcOperation::Unknown,
        }
    }
}

/// Receives the runtime's lifecycle transitions.
pub trait LifecycleHandler {
    /// The operations received so far, in order.
    spec fn received(&self) -> Seq<PlcOperation>;

    /// Receives one operation.
    fn on_operation(&mut self, operation: PlcOperation)
        ensures
            final(self).received() == old(self).received().push(operation),
    ;
}

/// A handler that keeps every operation it receives.
pub struct OperationLog {
    pub operations: Vec<PlcOperation>,
}

impl OperationLog {
    /// A log that has received nothing.
    pub fn new() -> (l: OperationLog)
        ensures
            l.received() == Seq::<PlcOperation>::empty(),
    {
        OperationLog { operations: Vec::new() }
    }
}

impl LifecycleHandler for OperationLog {
    open spec fn received(&self) -> Seq<PlcOperation> {
        self.operations@
    }

    fn on_operation(&mut self, operation: PlcOperation) {
        self.operations.push(operation);
    }
}

/// A handler that hands each operation to a closure.
pub struct Callback<F: Fn(PlcOperation)> {
    f: F,
    /// The operations handed to the closure so far.
    handed: Ghost<Seq<PlcOperation>>,
}

impl<F: Fn(PlcOperation)> Callback<F> {
    /// The closure may be called with every operation.
    #[verifier::type_invariant]
    spec fn accepts_all(&self) -> bool {
        forall|op: PlcOperation| #[trigger] call_requires(self.f, (op,))
    }

    /// A handler that calls `f` with each operation it receives.
    pub fn new(f: F) -> (c: Callback<F>)
        requires
            forall|op: PlcOperation| #[trigger] call_requires(f, (op,)),
        ensures
            c.received() == Seq::<PlcOperation>::empty(),
    {
        Callback { f, handed: Ghost(Seq::empty()) }
    }
}

impl<F: Fn(PlcOperation)> LifecycleHandler for Callback<F> {
    closed spec fn received(&self) -> Seq<PlcOperation> {
        self.handed@
    }

    fn on_operation(&mut self, operation: PlcOperation) {
        proof {
            use_type_invariant(&*self);
        }
        (self.f)(operation);
        self.handed = Ghost(self.handed@.push(operation));
    }
}

/// The context that owns the one lifecycle handler.
pub struct System<H> {
    pub handler: Option<H>,
}

/// `s` with its handler replaced by `handler`.
pub open spec fn with_handler<H>(s: System<H>, handler: Option<H>) -> System<H> {
    System { handler, ..s }
}

/// Whether events reach a handler.
pub open spec fn delivers<H>(s: System<H>) -> bool {
    s.handler is Some
}

impl<H: LifecycleHandler> System<H> {
    /// A system without a handler.
    pub fn new() -> (s: System<H>)
        ensures
            !delivers(s),
    {
        System { handler: None }
    }

    /// Replaces the handler, dropping the previous one. Returns whether the
    /// runtime must deliver events: `false` means the caller deregisters from
    /// the runtime altogether.
    pub fn set_handler(&mut self, handler: Option<H>) -> (registered: bool)
        ensures
            *final(self) == with_handler(*old(self), handler),
            registered == handler is Some,
    {
        let registered = handler.is_some();
        self.handler = handler;
        registered
    }

    /// Delivers the operation that the runtime's code names to the handler,
    /// if there is one, exactly once. Returns whether a handler received it.
    pub fn handle_event(&mut self, code: u32) -> (delivered: bool)
        ensures
            delivered == delivers(*old(self)),
            delivers(*final(self)) == delivers(*old(self)),
            delivers(*old(self)) ==> final(self).handler->Some_0.received() == old(
                self,
            ).handler->Some_0.received().push(operation_of(code)),
            !delivers(*old(self)) ==> *final(self) == *old(self),
    {
        let operation = PlcOperation::from_code(code);
        match &mut self.handler {
            Some(h) => {
                h.on_operation(operation);
                true
            },
            None => false,
        }
    }
}

/// Replacing a handler leaves the new one as the only handler: later events
/// reach it, through `handle_event`, and no longer the one it replaced.
pub proof fn replaced_handler_is_dropped<H>(s: System<H>, first: H, second: H)
    ensures
        with_handler(with_handler(s, Some(first)), Some(second)).handler == Some(second),
{
}

/// Setting a handler and then clearing it leaves a system that delivers no
/// event; on such a system `handle_event` reaches no handler and changes nothing.
pub proof fn cleared_handler_receives_nothing<H>(s: System<H>, cb: H)
    ensures
        !delivers(with_handler(with_handler(s, Some(cb)), None)),
{
}

} // verus!
