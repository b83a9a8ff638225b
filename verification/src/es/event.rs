//! [`Event`] machinery.

use std::marker::PhantomData;
use std::ops::Deref;
use std::ops::DerefMut;
use vstd::prelude::*;
use vstd::std_specs::convert::FromSpecImpl;
use vstd::std_specs::convert::TryFromSpec;

pub mod codegen;

verus! {

/// Fully qualified name of an event.
pub type Name = &'static str;

/// Revision number of an event: an integer between `1` and `65535`.
#[derive(Clone, Copy, Debug, Eq, Hash, Ord, PartialEq, PartialOrd, Structural)]
pub struct Version(u16);

impl View for Version {
    type V = int;

    closed spec fn view(&self) -> int {
        self.0 as int
    }
}

impl Version {
    #[verifier::type_invariant]
    spec fn is_positive(self) -> bool {
        self.0 != 0
    }

    /// The number a [`Version`] is made of, once `value` has been converted to
    /// [`u16`] with the given outcome: none if the conversion failed or gave
    /// `0`.
    pub open spec fn checked<E>(converted: Result<u16, E>) -> Option<int> {
        match converted {
            Ok(value) if value != 0 => Some(value as int),
            _ => None,
        }
    }

    /// The number held by an optional [`Version`].
    pub open spec fn number(version: Option<Version>) -> Option<int> {
        match version {
            Some(version) => Some(version@),
            None => None,
        }
    }

    /// Two [`Version`]s are the same exactly when they hold the same number.
    pub proof fn lemma_same_number_same_version(self, other: Version)
        ensures
            (self == other) == (self@ == other@),
    {
    }

    /// Creates a new [`Version`] out of the given `value`.
    ///
    /// The given `value` should not be `0` (zero) and fit into [`u16`] size.
    #[must_use]
    pub fn try_new<N>(value: N) -> (version: Option<Self>) where u16: TryFrom<N>
        ensures
            exists|converted: Result<u16, <u16 as TryFrom<N>>::Error>|
                #[trigger] call_ensures(<u16 as TryFrom<N>>::try_from, (value,), converted)
                    && Self::number(version) == Self::checked(converted),
            <u16 as TryFromSpec<N>>::obeys_try_from_spec() ==> Self::number(version)
                == Self::checked(<u16 as TryFromSpec<N>>::try_from_spec(value)),
            version matches Some(v) ==> 1 <= v@ <= 65535,
    {
        match u16::try_from(value) {
            Ok(value) => if value == 0 {
                None
            } else {
                Some(Self(value))
            },
            Err(_) => None,
        }
    }

    /// Creates a new [`Version`] out of the given `value`, which is known not
    /// to be `0` (zero).
    #[must_use]
    pub fn new_unchecked(value: u16) -> (version: Self)
        requires
            value != 0,
        ensures
            version@ == value,
    {
        Self(value)
    }

    /// Returns the value of this [`Version`] as a primitive type.
    #[must_use]
    pub fn get(self) -> (value: u16)
        ensures
            value == self@,
            1 <= value <= 65535,
    {
        proof {
            use_type_invariant(&self);
        }
        self.0
    }
}

impl From<Version> for u16 {
    /// Gives the number that the `version` holds.
    fn from(version: Version) -> (value: u16)
        ensures
            value == version@,
            1 <= value <= 65535,
    {
        version.get()
    }
}

impl FromSpecImpl<Version> for u16 {
    open spec fn obeys_from_spec() -> bool {
        true
    }

    open spec fn from_spec(version: Version) -> u16 {
        version@ as u16
    }
}

/// [`Event`] of a concrete [`Version`].
///
/// The name and the version are constants of the type: every [`Event`] of
/// the type has them, whatever it holds.
pub trait Versioned {
    /// [`Name`] of this [`Event`].
    const NAME: Name;

    /// Number of the [`Version`] of this [`Event`], from `1` to `65535`.
    const VERSION: u16;

    /// [`Version`] of this [`Event`]: the one that holds the number
    /// [`VERSION`].
    ///
    /// [`VERSION`]: Self::VERSION
    fn revision() -> (version: Version)
        ensures
            version@ == Self::VERSION,
    ;
}

/// [Event Sourcing] event describing something that has occurred (happened
/// fact).
///
/// [Event Sourcing]: https://martinfowler.com/eaaDev/EventSourcing.html
pub trait Event {
    /// Returns [`Name`] of this [`Event`].
    ///
    /// _Note:_ This should effectively be a constant value, and should never
    /// change.
    #[must_use]
    fn name(&self) -> Name;

    /// Returns [`Version`] of this [`Event`].
    #[must_use]
    fn version(&self) -> Version;
}

impl<Ev: Versioned> Event for Ev {
    fn name(&self) -> (name: Name)
        ensures
            name == <Ev as Versioned>::NAME,
    {
        <Self as Versioned>::NAME
    }

    fn version(&self) -> (version: Version)
        ensures
            version@ == <Ev as Versioned>::VERSION,
    {
        <Self as Versioned>::revision()
    }
}

/// State that can be calculated by applying the specified [`Event`].
pub trait Sourced<Ev: ?Sized> {
    /// Applies the specified [`Event`] to the current state.
    fn apply(&mut self, event: &Ev);
}

impl<Ev: Versioned + ?Sized, S: Sourced<Ev>> Sourced<Ev> for Option<S> {
    fn apply(&mut self, event: &Ev)
        ensures
            match (*old(self), *final(self)) {
                (Some(before), Some(after)) => exists|state: &mut S|
                    *state == before && *final(state) == after && #[trigger] call_ensures(
                        <S as Sourced<Ev>>::apply,
                        (state, event),
                        (),
                    ),
                (None, None) => true,
                _ => false,
            },
    {
        if let Some(state) = self {
            state.apply(event);
        }
    }
}

impl<'e, S: Sourced<dyn Event + 'e>> Sourced<dyn Event + 'e> for Option<S> {
    fn apply(&mut self, event: &(dyn Event + 'e))
        ensures
            match (*old(self), *final(self)) {
                (Some(before), Some(after)) => exists|state: &mut S|
                    *state == before && *final(state) == after && #[trigger] call_ensures(
                        <S as Sourced<dyn Event + 'e>>::apply,
                        (state, event),
                        (),
                    ),
                (None, None) => true,
                _ => false,
            },
    {
        if let Some(state) = self {
            state.apply(event);
        }
    }
}

/// [`Event`] sourcing the specified state.
///
/// This is a reversed version of [`Sourced`] trait intended to simplify usage
/// of trait objects describing sets of [`Event`]s. Shouldn't be implemented
/// manually, but rather used as blanket impl.
pub trait Sourcing<S: ?Sized> {
    /// Whether applying this [`Event`] may change a state as the `target`
    /// tells: from the state that it holds to the state that it ends with.
    spec fn sources(&self, target: &mut S) -> bool;

    /// Applies this [`Event`] to the specified `state`.
    fn apply_to(&self, state: &mut S)
        ensures
            exists|target: &mut S|
                &*target == &*old(state) && &*final(target) == &*final(state)
                    && #[trigger] self.sources(target),
    ;
}

impl<Ev, S: Sourced<Ev> + ?Sized> Sourcing<S> for Ev {
    /// An [`Event`] changes a state as the state applies it to itself.
    open spec fn sources(&self, target: &mut S) -> bool {
        call_ensures(<S as Sourced<Ev>>::apply, (target, self), ())
    }

    fn apply_to(&self, state: &mut S) {
        state.apply(self);
        proof {
            let target = choose|target: &mut S|
                &*target == &*old(state) && &*final(target) == &*final(state)
                    && #[trigger] call_ensures(<S as Sourced<Ev>>::apply, (target, self), ());
            assert(self.sources(target));
        }
    }
}

impl<'e, S: ?Sized> Sourced<dyn Sourcing<S> + 'e> for S {
    /// Lets the `event` apply itself to this state, whatever [`Event`] it
    /// is.
    fn apply(&mut self, event: &(dyn Sourcing<S> + 'e))
        ensures
            exists|target: &mut S|
                &*target == &*old(self) && &*final(target) == &*final(self)
                    && #[trigger] event.sources(target),
    {
        event.apply_to(self);
    }
}

/// Before a state can be [`Sourced`] it needs to be [`Initialized`].
pub trait Initialized<Ev: ?Sized>: Sized {
    /// Creates an initial state from the given [`Event`].
    #[must_use]
    fn init(event: &Ev) -> Self;
}

/// Wrapper type to mark an [`Event`] that makes some [`Sourced`] state being
/// [`Initialized`].
///
/// Exists solely to solve specialization problems.
#[derive(Clone, Copy, Debug)]
pub struct Initial<Ev: ?Sized>(pub Ev);

impl<Ev> From<Ev> for Initial<Ev> {
    fn from(ev: Ev) -> (initial: Self)
    {
        Self(ev)
    }
}

impl<Ev> FromSpecImpl<Ev> for Initial<Ev> {
    open spec fn obeys_from_spec() -> bool {
        true
    }

    open spec fn from_spec(ev: Ev) -> Self {
        Initial(ev)
    }
}

impl<Ev: ?Sized> Deref for Initial<Ev> {
    type Target = Ev;

    /// Gives the [`Event`] that is marked.
    fn deref(&self) -> (event: &Ev)
        ensures
            event == &self.0,
    {
        &self.0
    }
}

impl<Ev: ?Sized> DerefMut for Initial<Ev> {
    /// Gives the [`Event`] that is marked, to be changed in its place.
    fn deref_mut(&mut self) -> (event: &mut Ev)
        ensures
            &*event == &old(self).0,
            &final(self).0 == &*final(event),
    {
        &mut self.0
    }
}

impl<Ev: Event + ?Sized, S: Initialized<Ev>> Sourced<Initial<Ev>> for Option<S> {
    fn apply(&mut self, event: &Initial<Ev>)
        ensures
            *final(self) matches Some(state) && call_ensures(
                <S as Initialized<Ev>>::init,
                (&event.0,),
                state,
            ),
    {
        *self = Some(S::init(&event.0));
    }
}

/// Raw [`Versioned`] event.
///
/// This type is useful for repository-level [`Event`]s to avoid necessity of
/// describing every [`Version`] as a separate type.
///
/// As [`Event::version()`] is infallible method, every instance of this type
/// has to store [`Version`].
#[derive(Copy, Debug, Eq, Hash, Ord, PartialEq, PartialOrd)]
pub struct Raw<Ev: ?Sized, Data> {
    /// Inner [`Event`] data.
    pub data: Data,

    /// This [`Event`] [`Version`].
    pub version: Version,

    /// Used for [`Versioned::NAME`] in [`Event`] implementation.
    _event: PhantomData<Ev>,
}

impl<Ev: ?Sized, Data> View for Raw<Ev, Data> {
    type V = (Data, Version);

    /// The data and the [`Version`] that this event carries.
    closed spec fn view(&self) -> (Data, Version) {
        (self.data, self.version)
    }
}

impl<Ev: ?Sized, Data: Clone> Clone for Raw<Ev, Data> {
    fn clone(&self) -> (raw: Self)
        ensures
            cloned(self@.0, raw@.0),
            raw@.1 == self@.1,
    {
        Self { data: self.data.clone(), version: self.version, _event: PhantomData }
    }
}

impl<Ev: ?Sized, Data> Deref for Raw<Ev, Data> {
    type Target = Data;

    /// Gives the data of the [`Event`].
    fn deref(&self) -> (data: &Data)
        ensures
            *data == self@.0,
    {
        &self.data
    }
}

impl<Ev: ?Sized, Data> DerefMut for Raw<Ev, Data> {
    /// Gives the data of the [`Event`], to be changed in its place; the
    /// [`Version`] stays.
    fn deref_mut(&mut self) -> (data: &mut Data)
        ensures
            *data == old(self)@.0,
            final(self)@ == (*final(data), old(self)@.1),
    {
        &mut self.data
    }
}

impl<Ev: ?Sized, Data> Raw<Ev, Data> {
    /// Creates a new [`Raw`].
    #[must_use]
    pub fn new(data: Data, version: Version) -> (raw: Self)
        ensures
            raw@ == (data, version),
    {
        Self { data, version, _event: PhantomData }
    }
}

impl<Ev, Data> Event for Raw<Ev, Data> where Ev: Versioned + ?Sized {
    fn name(&self) -> (name: Name)
        ensures
            name == <Ev as Versioned>::NAME,
    {
        Ev::NAME
    }

    fn version(&self) -> (version: Version)
        ensures
            version == self@.1,
    {
        self.version
    }
}

/// Marker trait for [`Versioned`] or [`Raw`] [`Event`]s. Used for adapter
/// specialization.
pub trait VersionedOrRaw {}

impl<Ev, Data> VersionedOrRaw for Raw<Ev, Data> where Ev: ?Sized, Self: Event {}

impl<Ev: Versioned> VersionedOrRaw for Ev {}

} // verus!
