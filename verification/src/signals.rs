//! A notification channel that holds at most one handler.

use crate::component::{ComponentRc, EvaluationContext};
use std::marker::PhantomData;
use vstd::prelude::*;

verus! {

/// A channel with at most one handler of type `H`, fired with an argument
/// of type `Arg` (a tuple by convention).
pub struct Signal<Arg, H> {
    handler: Option<H>,
    arg: PhantomData<Arg>,
}

impl<Arg, H> View for Signal<Arg, H> {
    type V = Option<H>;

    /// The registered handler, if any.
    closed spec fn view(&self) -> Option<H> {
        self.handler
    }
}

impl<Arg, H> Signal<Arg, H> {
    /// A channel with an empty handler slot.
    pub fn new() -> (s: Self)
        ensures
            s@ is None,
    {
        Signal { handler: None, arg: PhantomData }
    }

    /// Whether a handler is registered.
    pub fn has_handler(&self) -> (b: bool)
        ensures
            b == (self@ is Some),
    {
        self.handler.is_some()
    }

    /// The registered handler, if any.
    pub fn handler(&self) -> (h: Option<&H>)
        ensures
            h is Some == (self@ is Some),
            h matches Some(r) ==> self@ == Some(*r),
    {
        self.handler.as_ref()
    }

    /// Registers `f`. A handler that was registered before is replaced, not
    /// composed with, and is dropped here.
    pub fn set_handler(&mut self, f: H)
        ensures
            final(self)@ == Some(f),
    {
        self.handler = Some(f);
    }

    /// Registers `f` and hands back the handler it replaces, so that the
    /// caller can release what that handler had captured.
    pub fn replace_handler(&mut self, f: H) -> (previous: Option<H>)
        ensures
            final(self)@ == Some(f),
            previous == old(self)@,
    {
        let previous = self.handler.take();
        self.handler = Some(f);
        previous
    }

    /// Empties the slot and hands back the handler that was in it.
    pub fn take_handler(&mut self) -> (previous: Option<H>)
        ensures
            final(self)@ is None,
            previous == old(self)@,
    {
        self.handler.take()
    }
}

impl<Arg, H: Fn(&EvaluationContext, Arg)> Signal<Arg, H> {
    /// Fires the channel: the registered handler runs once, with `context`
    /// and `a`. With an empty slot nothing happens.
    ///
    /// `context` must be that of the tree which holds the channel. A handler
    /// that fires its own channel again recurses without a bound.
    pub fn emit(&self, context: &EvaluationContext, a: Arg)
        requires
            self@ matches Some(h) ==> call_requires(h, (context, a)),
        ensures
            self@ matches Some(h) ==> call_ensures(h, (context, a), ()),
    {
        if let Some(h) = &self.handler {
            h(context, a);
        }
    }
}

impl<Arg, H> Default for Signal<Arg, H> {
    fn default() -> (s: Self)
        ensures
            s@ is None,
    {
        Signal { handler: None, arg: PhantomData }
    }
}

/// A handler that lives on the far side of a foreign-function boundary: the
/// address of the function to call, the address of the state it captured, and
/// the address of the function that releases that state, if there is one.
#[derive(Clone, Copy, Debug, PartialEq, Eq)]
pub struct ForeignHandler {
    pub binding: usize,
    pub user_data: usize,
    pub drop_user_data: Option<usize>,
}

/// A call that is owed to a foreign handler: `binding(user_data, context)`.
#[derive(Clone, Copy, Debug, PartialEq, Eq)]
pub struct Invocation {
    pub binding: usize,
    pub user_data: usize,
    pub context: EvaluationContext,
}

/// A call that is owed to a destructor: `drop_user_data(user_data)`.
#[derive(Clone, Copy, Debug, PartialEq, Eq)]
pub struct Release {
    pub drop_user_data: usize,
    pub user_data: usize,
}

/// The channel as it is held across the foreign-function boundary: the typed
/// channel of foreign handlers and nothing else, so that what is written
/// through one form is read through the other.
pub struct SignalOpaque {
    pub signal: Signal<(), ForeignHandler>,
}

/// The destructor call that becomes due when `slot` loses its handler.
pub open spec fn release_of(slot: Option<ForeignHandler>) -> Option<Release> {
    match slot {
        Some(h) => match h.drop_user_data {
            Some(d) => Some(Release { drop_user_data: d, user_data: h.user_data }),
            None => None,
        },
        None => None,
    }
}

/// The call that firing `slot` in `context` asks for.
pub open spec fn invocation_of(slot: Option<ForeignHandler>, context: EvaluationContext) -> Option<
    Invocation,
> {
    match slot {
        Some(h) => Some(Invocation { binding: h.binding, user_data: h.user_data, context }),
        None => None,
    }
}

impl SignalOpaque {
    /// The handler slot.
    pub open spec fn slot(&self) -> Option<ForeignHandler> {
        self.signal@
    }

    /// The opaque form of a typed channel: the handler state is the same.
    pub fn from_signal(signal: Signal<(), ForeignHandler>) -> (sig: Self)
        ensures
            sig.signal == signal,
            sig.slot() == signal@,
    {
        SignalOpaque { signal }
    }

    /// The typed form of the channel: the handler state is the same.
    pub fn into_signal(self) -> (signal: Signal<(), ForeignHandler>)
        ensures
            signal == self.signal,
            signal@ == self.slot(),
    {
        self.signal
    }

    /// Initialises the channel: the slot is empty.
    pub fn init() -> (sig: Self)
        ensures
            sig.slot() is None,
    {
        SignalOpaque { signal: Signal::new() }
    }

    /// Fires the channel. The result is the one call to make, or `None`
    /// where no handler is registered.
    pub fn emit(&self, context: &EvaluationContext) -> (call: Option<Invocation>)
        ensures
            call == invocation_of(self.slot(), *context),
    {
        match self.signal.handler() {
            Some(h) => Some(
                Invocation { binding: h.binding, user_data: h.user_data, context: *context },
            ),
            None => None,
        }
    }

    /// Registers a handler. The result is the destructor call that the
    /// replaced handler is owed, if it had a destructor.
    pub fn set_handler(
        &mut self,
        binding: usize,
        user_data: usize,
        drop_user_data: Option<usize>,
    ) -> (due: Option<Release>)
        ensures
            final(self).slot() == Some(ForeignHandler { binding, user_data, drop_user_data }),
            due == release_of(old(self).slot()),
    {
        let previous = self.signal.replace_handler(
            ForeignHandler { binding, user_data, drop_user_data },
        );
        release(previous)
    }

    /// Destroys the channel's content. The result is the destructor call that
    /// the registered handler is owed, if it had a destructor.
    pub fn drop_handler(&mut self) -> (due: Option<Release>)
        ensures
            final(self).slot() is None,
            due == release_of(old(self).slot()),
    {
        let previous = self.signal.take_handler();
        release(previous)
    }
}

/// The destructor call that a handler leaving its slot is owed.
fn release(previous: Option<ForeignHandler>) -> (due: Option<Release>)
    ensures
        due == release_of(previous),
{
    match previous {
        Some(h) => match h.drop_user_data {
            Some(d) => Some(Release { drop_user_data: d, user_data: h.user_data }),
            None => None,
        },
        None => None,
    }
}

/// The slot after the handlers of `registered` were set, in order, on a
/// channel whose slot was `slot`.
pub open spec fn slot_after(slot: Option<ForeignHandler>, registered: Seq<ForeignHandler>) -> Option<
    ForeignHandler,
>
    decreases registered.len(),
{
    if registered.len() == 0 {
        slot
    } else {
        slot_after(Some(registered[0]), registered.skip(1))
    }
}

/// The destructor calls that became due while the handlers of `registered`
/// were set, in order, on a channel whose slot was `slot`, and the channel was
/// then destroyed.
pub open spec fn releases_over_lifetime(
    slot: Option<ForeignHandler>,
    registered: Seq<ForeignHandler>,
) -> Seq<Release>
    decreases registered.len(),
{
    let due = match release_of(slot) {
        Some(r) => seq![r],
        None => Seq::empty(),
    };
    if registered.len() == 0 {
        due
    } else {
        due + releases_over_lifetime(Some(registered[0]), registered.skip(1))
    }
}

/// The destructor calls that the handlers of `handlers` are owed: one for
/// each handler that has a destructor, in the handlers' order.
pub open spec fn releases_owed(handlers: Seq<ForeignHandler>) -> Seq<Release>
    decreases handlers.len(),
{
    if handlers.len() == 0 {
        Seq::empty()
    } else {
        let due = match release_of(Some(handlers[0])) {
            Some(r) => seq![r],
            None => Seq::empty(),
        };
        due + releases_owed(handlers.skip(1))
    }
}

/// After any non-empty run of registrations the slot holds the handler that
/// was set last, so firing the channel calls that handler and no other.
pub proof fn last_handler_fires(
    slot: Option<ForeignHandler>,
    registered: Seq<ForeignHandler>,
    context: EvaluationContext,
)
    requires
        registered.len() > 0,
    ensures
        slot_after(slot, registered) == Some(registered.last()),
        invocation_of(slot_after(slot, registered), context) == Some(
            Invocation {
                binding: registered.last().binding,
                user_data: registered.last().user_data,
                context,
            },
        ),
    decreases registered.len(),
{
    let rest = registered.skip(1);
    if rest.len() > 0 {
        last_handler_fires(Some(registered[0]), rest, context);
        assert(rest.last() == registered.last());
    } else {
        assert(slot_after(Some(registered[0]), rest) == Some(registered[0]));
    }
}

/// Over the life of a channel that starts empty, every handler that was
/// registered with a destructor has that destructor called exactly once, at
/// its replacement or at the channel's destruction, in the order of
/// registration; a handler without a destructor causes no call.
pub proof fn each_handler_released_once(registered: Seq<ForeignHandler>)
    ensures
        releases_over_lifetime(None, registered) == releases_owed(registered),
    decreases registered.len(),
{
    if registered.len() > 0 {
        released_once_from(registered[0], registered.skip(1));
        assert(seq![registered[0]] + registered.skip(1) =~= registered);
        assert(releases_over_lifetime(None, registered) =~= releases_over_lifetime(
            Some(registered[0]),
            registered.skip(1),
        ));
    }
}

/// The same, for a channel whose slot already holds `first`.
pub proof fn released_once_from(first: ForeignHandler, registered: Seq<ForeignHandler>)
    ensures
        releases_over_lifetime(Some(first), registered) == releases_owed(
            seq![first] + registered,
        ),
    decreases registered.len(),
{
    let all = seq![first] + registered;
    assert(all[0] == first);
    assert(all.skip(1) =~= registered);
    if registered.len() > 0 {
        released_once_from(registered[0], registered.skip(1));
        assert(seq![registered[0]] + registered.skip(1) =~= registered);
    } else {
        assert(releases_owed(registered) =~= Seq::<Release>::empty());
        let due = match release_of(Some(first)) {
            Some(r) => seq![r],
            None => Seq::empty(),
        };
        assert(due + Seq::<Release>::empty() =~= due);
    }
}

/// Writing a channel through one form and reading it through the other
/// gives the same handler state, in both directions.
pub proof fn forms_hold_the_same_state(typed: Signal<(), ForeignHandler>, opaque: SignalOpaque)
    ensures
        (SignalOpaque { signal: typed }).signal == typed,
        (SignalOpaque { signal: typed }).slot() == typed@,
        (SignalOpaque { signal: opaque.signal }) == opaque,
{
}

/// Firing a channel on which no handler was ever set asks for no call.
pub proof fn fresh_channel_is_silent(context: EvaluationContext)
    ensures
        invocation_of(slot_after(None, Seq::empty()), context) is None,
        releases_over_lifetime(None, Seq::empty()) == Seq::<Release>::empty(),
{
}

/// A value that can be cloned and holds nothing.
#[derive(Clone, Copy)]
struct Foo;

fn foo<T: Clone>(f: T) {
    let _ = f.clone();
}

/// Does no work. Calling it from a dependent dynamic library keeps this
/// module's entry points among that library's exports.
pub fn dummy() {
    foo(Foo);
}

} // verus!
