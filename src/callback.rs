use vstd::prelude::*;

verus! {

/// The trampoline through which the native layer reaches a callback.
#[derive(PartialEq, Eq, Structural, Clone, Copy, Debug)]
pub enum Dispatch {
    /// Reads the context word back as a safe function and calls it.
    Plain,
    /// Reads the context word back as an unsafe function and calls it.
    UnsafePlain,
    /// Reads the context word back as the heap closure of the matching type and calls it.
    Closure,
    /// A native trampoline supplied by the caller, at the given address.
    Raw(usize),
}

/// What a callback hands to the native layer as its context word.
#[derive(PartialEq, Eq, Structural, Clone, Copy, Debug)]
pub enum CallbackVariant {
    /// A function address or caller data: nothing to reclaim.
    Trivial(usize),
    /// The address of a heap closure that the timer comes to own.
    Boxed(usize),
}

/// A callback erased to a context word and the trampoline that understands it.
pub struct Callback {
    variant: CallbackVariant,
    dispatch: Dispatch,
}

impl Callback {
    /// The context word and its kind.
    pub closed spec fn variant_of(&self) -> CallbackVariant {
        self.variant
    }

    /// The trampoline chosen for the context word.
    pub closed spec fn dispatch_of(&self) -> Dispatch {
        self.dispatch
    }

    /// The word handed to the native layer.
    pub open spec fn context_of(&self) -> usize {
        match self.variant_of() {
            CallbackVariant::Trivial(w) => w,
            CallbackVariant::Boxed(w) => w,
        }
    }

    /// The heap closure that a timer must reclaim, if any.
    pub open spec fn storage_of(&self) -> Option<usize> {
        match self.variant_of() {
            CallbackVariant::Trivial(_) => None,
            CallbackVariant::Boxed(w) => Some(w),
        }
    }

    /// The trampoline and the variant were produced together: the closure trampoline
    /// goes with a heap closure, every other one with a trivial word.
    pub open spec fn wf(&self) -> bool {
        (self.dispatch_of() == Dispatch::Closure) <==> (self.variant_of() is Boxed)
    }

    /// A callback through a caller-supplied trampoline and data word.
    pub fn raw(trampoline: usize, data: usize) -> (r: Callback)
        ensures
            r.variant_of() == CallbackVariant::Trivial(data),
            r.dispatch_of() == Dispatch::Raw(trampoline),
            r.wf(),
    {
        Callback { variant: CallbackVariant::Trivial(data), dispatch: Dispatch::Raw(trampoline) }
    }

    /// A callback that calls the safe function at address `function`.
    pub fn plain(function: usize) -> (r: Callback)
        ensures
            r.variant_of() == CallbackVariant::Trivial(function),
            r.dispatch_of() == Dispatch::Plain,
            r.wf(),
    {
        Callback { variant: CallbackVariant::Trivial(function), dispatch: Dispatch::Plain }
    }

    /// A callback that calls the unsafe function at address `function`.
    pub fn unsafe_plain(function: usize) -> (r: Callback)
        ensures
            r.variant_of() == CallbackVariant::Trivial(function),
            r.dispatch_of() == Dispatch::UnsafePlain,
            r.wf(),
    {
        Callback { variant: CallbackVariant::Trivial(function), dispatch: Dispatch::UnsafePlain }
    }

    /// A callback that calls the heap closure at address `boxed`, whose ownership it carries.
    pub fn closure(boxed: usize) -> (r: Callback)
        ensures
            r.variant_of() == CallbackVariant::Boxed(boxed),
            r.dispatch_of() == Dispatch::Closure,
            r.wf(),
    {
        Callback { variant: CallbackVariant::Boxed(boxed), dispatch: Dispatch::Closure }
    }

    /// The context word and its kind.
    pub fn variant(&self) -> (r: CallbackVariant)
        ensures
            r == self.variant_of(),
    {
        self.variant
    }

    /// The trampoline chosen for the context word.
    pub fn dispatch(&self) -> (r: Dispatch)
        ensures
            r == self.dispatch_of(),
    {
        self.dispatch
    }

    /// The word handed to the native layer.
    pub fn context(&self) -> (r: usize)
        ensures
            r == self.context_of(),
    {
        match self.variant {
            CallbackVariant::Trivial(w) => w,
            CallbackVariant::Boxed(w) => w,
        }
    }

    /// The heap closure that a timer must reclaim, if any.
    pub fn storage(&self) -> (r: Option<usize>)
        ensures
            r == self.storage_of(),
    {
        match self.variant {
            CallbackVariant::Trivial(_) => None,
            CallbackVariant::Boxed(w) => Some(w),
        }
    }
}

} // verus!
