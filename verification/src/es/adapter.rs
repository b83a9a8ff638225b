//! [`Adapter`] definitions.

pub mod transformer;

pub use self::transformer::strategy;
pub use self::transformer::Adapt;
pub use self::transformer::Strategy;
pub use self::transformer::Transformer;
use std::collections::VecDeque;
use vstd::prelude::*;

verus! {

/// Wrapper of an adapter: the type that the [`Transformer`]s of an adapter
/// are implemented for.
///
/// A stream works on the wrapper of a reference to its adapter, so that the
/// adapter itself is only borrowed while its events are transformed.
#[derive(Debug)]
pub struct Wrapper<A>(pub A);

/// The types that an adapter gives out, whatever the event it was given: one
/// for its context, one for its errors, one for its events.
pub trait WithError {
    /// Context for converting events.
    type Context: ?Sized;

    /// Error of the adapter.
    type Error;

    /// Converted event.
    type Transformed;
}

impl<A: WithError> WithError for Wrapper<A> {
    type Context = A::Context;

    type Error = A::Error;

    type Transformed = A::Transformed;
}

impl<'a, A: WithError + ?Sized> WithError for &'a A {
    type Context = A::Context;

    type Error = A::Error;

    type Transformed = A::Transformed;
}

/// Facility to convert [`Event`]s.
/// Typical use cases include (but are not limited to):
///
/// - [`Skip`]ping unused [`Event`]s;
/// - Transforming (ex: from one [`Version`] to another);
/// - [`Split`]ting existing [`Event`]s into more granular ones.
///
/// Provided with blanket impl for every adapter whose [`Wrapper`] is a
/// [`Transformer`] of the events, so usually you shouldn't implement it
/// manually.
///
/// [`Event`]: crate::es::Event
/// [`Skip`]: transformer::strategy::Skip
/// [`Split`]: transformer::strategy::Split
/// [`Version`]: crate::es::event::Version
pub trait Adapter<'out, Events> {
    /// Context for converting [`Event`]s.
    ///
    /// [`Event`]: crate::es::Event
    type Context: ?Sized;

    /// Error of this [`Adapter`].
    type Error;

    /// Converted [`Event`].
    ///
    /// [`Event`]: crate::es::Event
    type Transformed;

    /// Stream of [`Transformed`] [`Event`]s.
    ///
    /// [`Event`]: crate::es::Event
    /// [`Transformed`]: Self::Transformed
    type TransformedStream;

    /// Converts all incoming [`Event`]s into [`Transformed`].
    ///
    /// [`Event`]: crate::es::Event
    /// [`Transformed`]: Self::Transformed
    fn transform_all(
        &'out self,
        events: Events,
        context: &'out Self::Context,
    ) -> Self::TransformedStream;
}

impl<'out, A, Event> Adapter<'out, Vec<Event>> for A where
    A: WithError + 'out,
    Wrapper<&'out A>: Transformer<Event>,
    <Wrapper<&'out A> as Transformer<Event>>::Context: 'out,
    <A as WithError>::Transformed: From<<Wrapper<&'out A> as Transformer<Event>>::Transformed>,
    <A as WithError>::Error: From<<Wrapper<&'out A> as Transformer<Event>>::Error>,
 {
    type Context = <Wrapper<&'out A> as Transformer<Event>>::Context;

    type Error = <A as WithError>::Error;

    type Transformed = <A as WithError>::Transformed;

    type TransformedStream = TransformedStream<'out, Wrapper<&'out A>, Event>;

    /// Makes the stream that holds all the `events` and has not transformed
    /// any of them yet.
    fn transform_all(&'out self, events: Vec<Event>, context: &'out Self::Context) -> (stream:
        Self::TransformedStream)
        ensures
            stream.adapter() == Wrapper(self),
            stream.context() == context,
            stream.events() == events@,
            stream.transformed().len() == 0,
    {
        TransformedStream::new(Wrapper(self), events, context)
    }
}

/// One item of what a [`Transformer`] makes of an `Event`: a transformed event,
/// or the error that takes its place.
pub type Item<A, Event> = Result<
    <A as Transformer<Event>>::Transformed,
    <A as Transformer<Event>>::Error,
>;

/// One item of what an adapter gives out: a converted event, or the error
/// that takes its place.
pub type Wide<A> = Result<<A as WithError>::Transformed, <A as WithError>::Error>;

/// Whether `local` is what the `adapter` may make of the `event`.
pub open spec fn transforms<A, Event>(
    adapter: &A,
    event: Event,
    context: &<A as Transformer<Event>>::Context,
    local: Seq<Item<A, Event>>,
) -> bool where A: Transformer<Event> {
    exists|items: Vec<Item<A, Event>>|
        #[trigger] call_ensures(
            <A as Transformer<Event>>::transform,
            (adapter, event, context),
            items,
        ) && items@ == local
}

/// Whether `locals` holds what the `adapter` may make of each of the
/// `events`, in their order.
pub open spec fn transforms_each<A, Event>(
    adapter: &A,
    events: Seq<Event>,
    context: &<A as Transformer<Event>>::Context,
    locals: Seq<Seq<Item<A, Event>>>,
) -> bool where A: Transformer<Event> {
    &&& locals.len() == events.len()
    &&& forall|i: int|
        0 <= i < events.len() ==> #[trigger] transforms(adapter, events[i], context, locals[i])
}

/// The conversion of a value into its own type, [`From::from`] of every type
/// for itself: the standard library documents that it returns its argument
/// unchanged. An adapter that gives out the very events or errors that its
/// strategies give converts them so.
pub assume_specification<Same>[ <Same as std::convert::From<Same>>::from ](given: Same) -> (same:
    Same)
    ensures
        same == given,
;

/// Whether `wide` is what the conversions of an adapter may make of `item`:
/// a converted event of an event, a converted error of an error.
pub open spec fn widens<T, E, U: From<T>, F: From<E>>(
    item: Result<T, E>,
    wide: Result<U, F>,
) -> bool {
    match (item, wide) {
        (Ok(event), Ok(converted)) => call_ensures(<U as From<T>>::from, (event,), converted),
        (Err(error), Err(converted)) => call_ensures(<F as From<E>>::from, (error,), converted),
        _ => false,
    }
}

/// Whether `wide` holds what the conversions of an adapter may make of each
/// of the `items`, in their order.
pub open spec fn widens_each<T, E, U: From<T>, F: From<E>>(
    items: Seq<Result<T, E>>,
    wide: Seq<Result<U, F>>,
) -> bool {
    &&& wide.len() == items.len()
    &&& forall|i: int| 0 <= i < items.len() ==> #[trigger] widens(items[i], wide[i])
}

/// Whether one request for the next item may go as told, on a stream of the
/// `adapter` that holds `transformed`, which is left of the event it took
/// last, and the `events` it has not taken yet.
///
/// The stream takes `locals.len()` of its events, and `locals` holds what the
/// adapter makes of them. It takes an event only when nothing is left of the
/// one before. It gives `next`, the first item that is there, converted, and
/// then holds `left` and the events `rest` that it has not taken. It gives
/// nothing only when it has taken all its events and nothing is left of them.
pub open spec fn polls<A, Event, U, F>(
    adapter: &A,
    context: &<A as Transformer<Event>>::Context,
    transformed: Seq<Item<A, Event>>,
    events: Seq<Event>,
    locals: Seq<Seq<Item<A, Event>>>,
    next: Option<Result<U, F>>,
    left: Seq<Item<A, Event>>,
    rest: Seq<Event>,
) -> bool where
    A: Transformer<Event>,
    U: From<<A as Transformer<Event>>::Transformed>,
    F: From<<A as Transformer<Event>>::Error>,
 {
    let current = if locals.len() == 0 {
        transformed
    } else {
        locals.last()
    };
    &&& locals.len() <= events.len()
    &&& transforms_each(adapter, events.take(locals.len() as int), context, locals)
    &&& rest == events.skip(locals.len() as int)
    &&& locals.len() > 0 ==> transformed.len() == 0
    &&& forall|i: int| 0 <= i < locals.len() - 1 ==> (#[trigger] locals[i]).len() == 0
    &&& match next {
        Some(item) => current.len() > 0 && widens(current[0], item) && left == current.skip(1),
        None => current.len() == 0 && locals.len() == events.len() && left.len() == 0,
    }
}

/// Stream of the events that an adapter makes of the events it is given.
///
/// The stream takes its events one by one, in their order. What the adapter
/// makes of one event is given out wholly, in its order, before the next
/// event is taken. An error is given out as any other item is, and nothing
/// ends with it.
pub struct TransformedStream<'out, Adapter, Event> where Adapter: Transformer<Event> {
    events: VecDeque<Event>,
    transformed: VecDeque<Item<Adapter, Event>>,
    adapter: Adapter,
    context: &'out <Adapter as Transformer<Event>>::Context,
}

impl<'out, Adapter, Event> TransformedStream<'out, Adapter, Event> where
    Adapter: Transformer<Event>,
 {
    /// The events that the stream has not taken yet, the next one first.
    pub closed spec fn events(&self) -> Seq<Event> {
        self.events@
    }

    /// What is left of the event that the stream took last, the next item
    /// first.
    pub closed spec fn transformed(&self) -> Seq<Item<Adapter, Event>> {
        self.transformed@
    }

    /// The adapter that transforms the events.
    pub closed spec fn adapter(&self) -> Adapter {
        self.adapter
    }

    /// The context that the adapter is given with every event.
    pub closed spec fn context(&self) -> &'out <Adapter as Transformer<Event>>::Context {
        self.context
    }

    /// Gives the adapter that transforms the events.
    pub fn adapter_ref(&self) -> (adapter: &Adapter)
        ensures
            *adapter == self.adapter(),
    {
        &self.adapter
    }

    /// Gives the context that the adapter is given with every event.
    pub fn context_ref(&self) -> (context: &'out <Adapter as Transformer<Event>>::Context)
        ensures
            context == self.context(),
    {
        self.context
    }

    /// Makes the stream of what the `adapter` makes of the `events`.
    pub fn new(
        adapter: Adapter,
        events: Vec<Event>,
        context: &'out <Adapter as Transformer<Event>>::Context,
    ) -> (stream: Self)
        ensures
            stream.adapter() == adapter,
            stream.context() == context,
            stream.events() == events@,
            stream.transformed().len() == 0,
    {
        Self { events: queue(events), transformed: VecDeque::new(), adapter, context }
    }

    /// Hands the stream one more event, to be taken after those it holds.
    pub fn push(&mut self, event: Event)
        ensures
            final(self).adapter() == old(self).adapter(),
            final(self).context() == old(self).context(),
            final(self).events() == old(self).events().push(event),
            final(self).transformed() == old(self).transformed(),
    {
        self.events.push_back(event);
    }
}

impl<'out, Adapter, Event> TransformedStream<'out, Adapter, Event> where
    Adapter: Transformer<Event> + WithError,
    <Adapter as WithError>::Transformed: From<<Adapter as Transformer<Event>>::Transformed>,
    <Adapter as WithError>::Error: From<<Adapter as Transformer<Event>>::Error>,
 {
    /// Gives the next item of the stream, or nothing when the stream has
    /// ended.
    ///
    /// What is left of the event taken last goes first. When nothing is left
    /// of it, the stream takes its next event and hands it to the adapter,
    /// and so on until an event gives an item or no event is left.
    pub fn poll_next(&mut self) -> (next: Option<Wide<Adapter>>)
        ensures
            final(self).adapter() == old(self).adapter(),
            final(self).context() == old(self).context(),
            exists|locals: Seq<Seq<Item<Adapter, Event>>>| #[trigger]
                polls(
                    &old(self).adapter(),
                    old(self).context(),
                    old(self).transformed(),
                    old(self).events(),
                    locals,
                    next,
                    final(self).transformed(),
                    final(self).events(),
                ),
            old(self).transformed().len() > 0 ==> {
                &&& final(self).events() == old(self).events()
                &&& final(self).transformed() == old(self).transformed().skip(1)
                &&& next matches Some(item)
                &&& widens(old(self).transformed()[0], item)
            },
            old(self).transformed().len() == 0 && old(self).events().len() == 0 ==> next is None,
            next is None ==> final(self).transformed().len() == 0 && final(self).events().len()
                == 0,
    {
        let ghost mut locals: Seq<Seq<Item<Adapter, Event>>> = Seq::empty();
        loop
            invariant
                self.adapter == old(self).adapter,
                self.context == old(self).context,
                locals.len() <= old(self).events@.len(),
                self.events@ == old(self).events@.skip(locals.len() as int),
                transforms_each(
                    &self.adapter,
                    old(self).events@.take(locals.len() as int),
                    self.context,
                    locals,
                ),
                locals.len() > 0 ==> old(self).transformed@.len() == 0,
                forall|i: int| 0 <= i < locals.len() - 1 ==> (#[trigger] locals[i]).len() == 0,
                self.transformed@ == if locals.len() == 0 {
                    old(self).transformed@
                } else {
                    locals.last()
                },
            decreases self.events@.len(),
        {
            if let Some(item) = self.transformed.pop_front() {
                let wide = match item {
                    Ok(event) => Ok(<Adapter as WithError>::Transformed::from(event)),
                    Err(error) => Err(<Adapter as WithError>::Error::from(error)),
                };
                proof {
                    assert(polls(
                        &old(self).adapter(),
                        old(self).context(),
                        old(self).transformed(),
                        old(self).events(),
                        locals,
                        Some(wide),
                        self.transformed(),
                        self.events(),
                    ));
                }
                return Some(wide);
            }
            match self.events.pop_front() {
                Some(event) => {
                    let items = self.adapter.transform(event, self.context);
                    proof {
                        let taken = locals.len() as int;
                        let before = locals;
                        locals = locals.push(items@);
                        assert(old(self).events@.skip(taken)[0] == event);
                        assert(self.events@ =~= old(self).events@.skip(taken + 1));
                        assert(transforms(&self.adapter, event, self.context, items@));
                        assert forall|i: int| 0 <= i < taken + 1 implies #[trigger] transforms(
                            &self.adapter,
                            old(self).events@.take(taken + 1)[i],
                            self.context,
                            locals[i],
                        ) by {
                            if i < taken {
                                assert(transforms(
                                    &self.adapter,
                                    old(self).events@.take(taken)[i],
                                    self.context,
                                    before[i],
                                ));
                            }
                        }
                    }
                    self.transformed = queue(items);
                },
                None => {
                    proof {
                        assert(polls(
                            &old(self).adapter(),
                            old(self).context(),
                            old(self).transformed(),
                            old(self).events(),
                            locals,
                            None::<Wide<Adapter>>,
                            self.transformed(),
                            self.events(),
                        ));
                    }
                    return None;
                },
            }
        }
    }

    /// Gives all the items of the stream that are left, in their order: what
    /// is left of the event taken last, and then what the adapter makes of
    /// each event not taken yet, one event after the other.
    pub fn collect(self) -> (all: Vec<Wide<Adapter>>)
        ensures
            exists|locals: Seq<Seq<Item<Adapter, Event>>>|
                #[trigger] transforms_each(&self.adapter(), self.events(), self.context(), locals)
                    && widens_each(self.transformed() + locals.flatten(), all@),
    {
        let mut stream = self;
        let mut all = Vec::new();
        let ghost mut done: Seq<Seq<Item<Adapter, Event>>> = Seq::empty();
        let ghost mut given: Seq<Item<Adapter, Event>> = Seq::empty();
        proof {
            assert(given + stream.transformed() =~= self.transformed() + done.flatten());
        }
        loop
            invariant
                stream.adapter() == self.adapter(),
                stream.context() == self.context(),
                done.len() <= self.events().len(),
                stream.events() == self.events().skip(done.len() as int),
                transforms_each(
                    &self.adapter(),
                    self.events().take(done.len() as int),
                    self.context(),
                    done,
                ),
                given + stream.transformed() == self.transformed() + done.flatten(),
                widens_each(given, all@),
            decreases stream.events().len(), stream.transformed().len(),
        {
            let ghost events = stream.events();
            let ghost transformed = stream.transformed();
            let next = stream.poll_next();
            let ghost locals = choose|locals: Seq<Seq<Item<Adapter, Event>>>| #[trigger]
                polls(
                    &self.adapter(),
                    self.context(),
                    transformed,
                    events,
                    locals,
                    next,
                    stream.transformed(),
                    stream.events(),
                );
            proof {
                let taken = done.len() as int;
                let current = if locals.len() == 0 {
                    transformed
                } else {
                    locals.last()
                };
                assert(stream.events() =~= self.events().skip(taken + locals.len()));
                assert forall|i: int| 0 <= i < taken + locals.len() implies #[trigger] transforms(
                    &self.adapter(),
                    self.events().take(taken + locals.len())[i],
                    self.context(),
                    (done + locals)[i],
                ) by {
                    if i < taken {
                        assert(transforms(
                            &self.adapter(),
                            self.events().take(taken)[i],
                            self.context(),
                            done[i],
                        ));
                    } else {
                        assert(transforms(
                            &self.adapter(),
                            events.take(locals.len() as int)[i - taken],
                            self.context(),
                            locals[i - taken],
                        ));
                    }
                }
                vstd::seq_lib::lemma_flatten_concat(done, locals);
                if locals.len() > 0 {
                    lemma_flatten_last(locals);
                    assert(given =~= self.transformed() + done.flatten());
                } else {
                    assert(done + locals =~= done);
                }
                match next {
                    Some(_) => {
                        assert(given.push(current[0]) + current.skip(1) =~= given + current);
                        assert(given.push(current[0]) + stream.transformed() =~= self.transformed()
                            + (done + locals).flatten());
                    },
                    None => {
                        assert(given + stream.transformed() =~= self.transformed() + (done
                            + locals).flatten());
                        assert(self.events().take(taken + locals.len()) =~= self.events());
                        assert(self.transformed() + (done + locals).flatten() =~= given);
                    },
                }
                done = done + locals;
                assert(transforms_each(
                    &self.adapter(),
                    self.events().take(done.len() as int),
                    self.context(),
                    done,
                ));
            }
            match next {
                Some(item) => {
                    proof {
                        given = given.push(
                            if locals.len() == 0 {
                                transformed[0]
                            } else {
                                locals.last()[0]
                            },
                        );
                    }
                    all.push(item);
                },
                None => {
                    return all;
                },
            }
        }
    }
}

/// What a run of events gives holds what each event gives at a place of its
/// own: behind all that the events before it give, before all that the
/// events behind it give, and in the order in which the event gives it.
pub proof fn lemma_each_event_has_its_place<T>(locals: Seq<Seq<T>>, i: int)
    requires
        0 <= i < locals.len(),
    ensures
        locals.flatten() == locals.take(i).flatten() + locals[i] + locals.skip(i + 1).flatten(),
{
    let before = locals.take(i);
    let behind = locals.skip(i + 1);
    assert(locals =~= before + seq![locals[i]] + behind);
    vstd::seq_lib::lemma_flatten_concat(before + seq![locals[i]], behind);
    vstd::seq_lib::lemma_flatten_concat(before, seq![locals[i]]);
    seq![locals[i]].lemma_flatten_singleton();
}

/// An event that gives nothing adds nothing to what a run of events gives:
/// the run gives what it gives without that event.
pub proof fn lemma_event_that_gives_nothing_adds_nothing<T>(locals: Seq<Seq<T>>, i: int)
    requires
        0 <= i < locals.len(),
        locals[i].len() == 0,
    ensures
        locals.flatten() == locals.remove(i).flatten(),
{
    let before = locals.take(i);
    let behind = locals.skip(i + 1);
    lemma_each_event_has_its_place(locals, i);
    assert(locals.remove(i) =~= before + behind);
    vstd::seq_lib::lemma_flatten_concat(before, behind);
    assert(before.flatten() + locals[i] + behind.flatten() =~= before.flatten()
        + behind.flatten());
}

/// An error takes its own place among the items that a stream gives, and
/// nothing ends with it: every item behind it is given out as well, each in
/// its place, an error as an error and an event as an event.
pub proof fn lemma_error_does_not_end_the_stream<T, E, U: From<T>, F: From<E>>(
    items: Seq<Result<T, E>>,
    all: Seq<Result<U, F>>,
    k: int,
)
    requires
        widens_each(items, all),
        0 <= k < items.len(),
        items[k] is Err,
    ensures
        all.len() == items.len(),
        all[k] is Err,
        forall|j: int| k < j < items.len() ==> #[trigger] widens(items[j], all[j]),
        forall|j: int| 0 <= j < items.len() ==> ((#[trigger] all[j]) is Err <==> items[j] is Err),
{
    assert(widens(items[k], all[k]));
    assert forall|j: int| 0 <= j < items.len() implies ((#[trigger] all[j]) is Err
        <==> items[j] is Err) by {
        assert(widens(items[j], all[j]));
    }
}

/// What a run of events gives is what its last event gives, when the events
/// before it give nothing.
proof fn lemma_flatten_last<T>(locals: Seq<Seq<T>>)
    requires
        locals.len() > 0,
        forall|i: int| 0 <= i < locals.len() - 1 ==> (#[trigger] locals[i]).len() == 0,
    ensures
        locals.flatten() == locals.last(),
    decreases locals.len(),
{
    if locals.len() == 1 {
        locals.lemma_flatten_singleton();
    } else {
        let rest = locals.drop_first();
        assert forall|i: int| 0 <= i < rest.len() - 1 implies (#[trigger] rest[i]).len() == 0 by {
            assert(rest[i] == locals[i + 1]);
        }
        lemma_flatten_last(rest);
        assert(locals[0].len() == 0);
        assert(locals.flatten() =~= locals.first() + rest.flatten());
        assert(locals.first() + rest.flatten() =~= rest.last());
    }
}

/// Lines the `items` up, the first one to leave first.
fn queue<T>(items: Vec<T>) -> (queue: VecDeque<T>)
    ensures
        queue@ == items@,
{
    let mut items = items;
    let ghost all = items@;
    let mut queue = VecDeque::new();
    while items.len() > 0
        invariant
            items@ + queue@ == all,
        decreases items@.len(),
    {
        let ghost before = items@;
        let ghost lined = queue@;
        let item = items.pop().unwrap();
        queue.push_front(item);
        assert(items@ + queue@ =~= before + lined);
    }
    assert(queue@ =~= items@ + queue@);
    queue
}

} // verus!
