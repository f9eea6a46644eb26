//! Runtime-checked linear types.
//!
//! A bomb is a guard that holds a message and a `defused` flag. It starts
//! armed; the owner defuses it on every path that fulfilled the obligation it
//! stands for. When an armed bomb goes away while the thread is not already
//! failing, that is a fault carrying the message.
//!
//! `DropBomb` always keeps the obligation. `DebugDropBomb` is the zero-cost
//! stand-in for builds that skip the check: it keeps no message, occupies no
//! storage and is always defused.
//!
//! The decision taken when a bomb goes away is `drop_fault`, a function of the
//! bomb's state and of whether the thread is already failing. Raising the
//! fault is left to the drop hook of the embedding code.
use std::borrow::Cow;
use vstd::prelude::*;

verus! {

/// The abstract state of a guard: the message of the obligation and whether
/// it has been fulfilled.
pub struct Obligation {
    pub message: Seq<char>,
    pub defused: bool,
}

impl Obligation {
    /// A fresh guard: the obligation is outstanding.
    pub open spec fn armed(message: Seq<char>) -> Obligation {
        Obligation { message, defused: false }
    }

    /// The same guard with its flag set to `defused`; the message never changes.
    pub open spec fn with_defused(self, defused: bool) -> Obligation {
        Obligation { message: self.message, defused }
    }

    /// What happens when the guard goes away: the message of the fault that is
    /// raised, or `None` when nothing is. A fault already under way on the
    /// thread suppresses a second one.
    pub open spec fn on_drop(self, already_panicking: bool) -> Option<Seq<char>> {
        if !self.defused && !already_panicking {
            Some(self.message)
        } else {
            None
        }
    }
}

/// A bomb built with any message and dropped while still armed raises a fault
/// that carries that message.
pub proof fn armed_bomb_faults_with_its_message(message: Seq<char>)
    ensures
        Obligation::armed(message).on_drop(false) == Some(message),
{
}

/// A bomb built with any message and then defused goes away without a fault.
pub proof fn defused_bomb_goes_quietly(message: Seq<char>, already_panicking: bool)
    ensures
        Obligation::armed(message).with_defused(true).on_drop(already_panicking).is_none(),
{
}

/// While the thread is already failing, no bomb raises a second fault.
pub proof fn no_fault_during_a_fault(state: Obligation)
    ensures
        state.on_drop(true).is_none(),
{
}

/// Defusing twice is defusing once; setting the flag to `false` afterwards
/// arms the bomb again, with its message.
pub proof fn defuse_is_idempotent_and_reversible(state: Obligation)
    ensures
        state.with_defused(true).with_defused(true) == state.with_defused(true),
        state.with_defused(true).defused,
        !state.with_defused(true).with_defused(false).defused,
        state.with_defused(true).with_defused(false).on_drop(false) == Some(state.message),
{
}

/// A message a bomb can carry: a literal, an owned string, or either in a
/// `Cow`.
pub trait IntoMessage {
    /// The text of the message.
    spec fn message_spec(&self) -> Seq<char>;

    fn into_message(self) -> (r: Cow<'static, str>)
        ensures
            r@ == self.message_spec(),
    ;
}

impl IntoMessage for &'static str {
    open spec fn message_spec(&self) -> Seq<char> {
        self@
    }

    fn into_message(self) -> (r: Cow<'static, str>) {
        Cow::Borrowed(self)
    }
}

impl IntoMessage for String {
    open spec fn message_spec(&self) -> Seq<char> {
        self@
    }

    fn into_message(self) -> (r: Cow<'static, str>) {
        Cow::Owned(self)
    }
}

impl IntoMessage for Cow<'static, str> {
    open spec fn message_spec(&self) -> Seq<char> {
        self@
    }

    fn into_message(self) -> (r: Cow<'static, str>) {
        self
    }
}

/// The record shared by the armed variants.
#[derive(Debug)]
struct RealBomb {
    msg: Cow<'static, str>,
    defused: bool,
}

impl RealBomb {
    closed spec fn model(&self) -> Obligation {
        Obligation { message: self.msg@, defused: self.defused }
    }

    fn new(msg: Cow<'static, str>) -> (r: RealBomb)
        ensures
            r.model() == Obligation::armed(msg@),
    {
        RealBomb { msg, defused: false }
    }

    fn set_defused(&mut self, defused: bool)
        ensures
            final(self).model() == old(self).model().with_defused(defused),
    {
        self.defused = defused;
    }

    fn is_defused(&self) -> (r: bool)
        ensures
            r == self.model().defused,
    {
        self.defused
    }

    fn drop_fault(&self, already_panicking: bool) -> (r: Option<&Cow<'static, str>>)
        ensures
            r.is_some() == self.model().on_drop(already_panicking).is_some(),
            r.is_some() ==> Some(r.unwrap()@) == self.model().on_drop(already_panicking),
    {
        if !self.defused && !already_panicking {
            Some(&self.msg)
        } else {
            None
        }
    }
}

/// A guard for an obligation that must be fulfilled before the guard goes
/// away.
///
/// Embed it in a type whose owner must call a finishing method, and defuse it
/// there. The hook that runs when the guard goes away asks `drop_fault` which
/// fault, if any, to raise.
#[derive(Debug)]
#[must_use]
pub struct DropBomb(RealBomb);

impl View for DropBomb {
    type V = Obligation;

    closed spec fn view(&self) -> Obligation {
        self.0.model()
    }
}

impl DropBomb {
    /// An armed bomb carrying `msg`, given as a literal or as an owned string.
    pub fn new<M: IntoMessage>(msg: M) -> (r: DropBomb)
        ensures
            r@ == Obligation::armed(msg.message_spec()),
    {
        DropBomb(RealBomb::new(msg.into_message()))
    }

    /// Marks the obligation as fulfilled.
    pub fn defuse(&mut self)
        ensures
            final(self)@ == old(self)@.with_defused(true),
    {
        self.set_defused(true)
    }

    /// Sets the flag either way; `false` arms the bomb again.
    pub fn set_defused(&mut self, defused: bool)
        ensures
            final(self)@ == old(self)@.with_defused(defused),
    {
        self.0.set_defused(defused)
    }

    pub fn is_defused(&self) -> (r: bool)
        ensures
            r == self@.defused,
    {
        self.0.is_defused()
    }

    /// The message of the fault to raise when the bomb goes away, or `None`
    /// when it goes away quietly. `already_panicking` tells whether the
    /// thread is failing already.
    pub fn drop_fault(&self, already_panicking: bool) -> (r: Option<&Cow<'static, str>>)
        ensures
            r.is_some() == self@.on_drop(already_panicking).is_some(),
            r.is_some() ==> Some(r.unwrap()@) == self@.on_drop(already_panicking),
    {
        self.0.drop_fault(already_panicking)
    }
}

/// The stand-in for builds that skip the check: it keeps nothing.
#[derive(Debug)]
struct FakeBomb {}

impl FakeBomb {
    fn new(_msg: Cow<'static, str>) -> FakeBomb {
        FakeBomb {}
    }

    fn set_defused(&mut self, _defused: bool)
        ensures
            *final(self) == *old(self),
    {
    }

    fn is_defused(&self) -> (r: bool)
        ensures
            r,
    {
        true
    }
}

/// A bomb for builds that skip the check: it keeps no message, occupies no
/// storage, is always defused and never faults.
#[derive(Debug)]
#[must_use]
pub struct DebugDropBomb(FakeBomb);

impl DebugDropBomb {
    /// A bomb that discards `msg`.
    pub fn new<M: IntoMessage>(msg: M) -> (r: DebugDropBomb)
        ensures
            r.is_defused_spec(),
    {
        DebugDropBomb(FakeBomb::new(msg.into_message()))
    }

    pub fn defuse(&mut self)
        ensures
            *final(self) == *old(self),
    {
        self.set_defused(true)
    }

    /// Does nothing: this bomb cannot be armed.
    pub fn set_defused(&mut self, defused: bool)
        ensures
            *final(self) == *old(self),
    {
        self.0.set_defused(defused)
    }

    /// Whether the bomb is defused: always.
    pub open spec fn is_defused_spec(&self) -> bool {
        true
    }

    pub fn is_defused(&self) -> (r: bool)
        ensures
            r == self.is_defused_spec(),
            r,
    {
        self.0.is_defused()
    }

    /// Never a fault, whatever the thread is doing.
    pub fn drop_fault(&self, _already_panicking: bool) -> (r: Option<&Cow<'static, str>>)
        ensures
            r.is_none(),
    {
        None
    }
}

} // verus!
