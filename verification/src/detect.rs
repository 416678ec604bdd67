//! Detection of the host, as a machine that asks and is answered.
//!
//! Which entropy source a JavaScript host has can only be found out by
//! asking the host, one question after the other, and what is asked next
//! depends on the last answer. The machine here makes those decisions and
//! nothing else: [`Detection::action`] says what to ask, the embedding asks
//! it, and [`Detection::step`] takes the answer. When nothing is left to
//! ask, [`Detection::outcome`] holds the adapter or the reason why there is
//! none.

use crate::error::{Error, ErrorKind};
use crate::os_rng::OsRng;
use vstd::pervasive::unreached;
use vstd::prelude::*;

verus! {

/// A question to the host.
#[derive(Debug, Clone, Copy, PartialEq, Eq)]
pub enum Action {
    /// Obtain the global object: what `this` is at the top level.
    ReadGlobal,
    /// Read the property `self` of the global object. Only a browser window
    /// or worker defines it.
    ReadSelf,
    /// Acquire the host's built-in module of this name, as `require` does.
    /// The module is taken as it comes: detection does not examine it, and
    /// a host on which acquiring fails has no answer to give.
    Require { module: &'static str },
    /// Read the property `crypto` of the global object.
    ReadCrypto,
    /// Read the property `getRandomValues` of the `crypto` object, without
    /// calling it.
    ReadGetRandomValues,
}

/// An answer of the host. `N` is a handle to a module of a server-side
/// runtime, `B` a handle to the `crypto` object of a browser.
#[derive(Debug)]
pub enum Event<N, B> {
    /// The global object was looked for, and is defined or not.
    Global { defined: bool },
    /// The property `self` was read, and is defined or not.
    SelfProperty { defined: bool },
    /// The module that was acquired.
    Module(N),
    /// The property `crypto` was read: the object, or `None` where the
    /// property is undefined.
    Crypto(Option<B>),
    /// The property `getRandomValues` was read, and is defined or not.
    GetRandomValues { defined: bool },
}

/// How far detection has come.
#[derive(Debug)]
pub enum Detection<N, B> {
    /// Nothing is known yet.
    NeedGlobal,
    /// The global object is in hand.
    NeedSelf,
    /// There is no `self`: this is a server-side runtime.
    NeedModule,
    /// There is a `self`: this is a browser.
    NeedCrypto,
    /// The browser has this `crypto` object.
    NeedGetRandomValues(B),
    /// Nothing is left to ask.
    Done(Result<OsRng<N, B>, Error>),
}

impl<N, B> Detection<N, B> {
    /// The question that this state waits on, `None` once detection is
    /// done.
    pub open spec fn spec_action(&self) -> Option<Action> {
        match self {
            Detection::NeedGlobal => Some(Action::ReadGlobal),
            Detection::NeedSelf => Some(Action::ReadSelf),
            Detection::NeedModule => Some(Action::Require { module: "crypto" }),
            Detection::NeedCrypto => Some(Action::ReadCrypto),
            Detection::NeedGetRandomValues(_) => Some(Action::ReadGetRandomValues),
            Detection::Done(_) => None,
        }
    }

    /// Whether `event` answers the question that this state waits on. An
    /// undefined global object answers nothing: no host is without one.
    pub open spec fn spec_accepts(&self, event: &Event<N, B>) -> bool {
        match (self, event) {
            (Detection::NeedGlobal, Event::Global { defined }) => *defined,
            (Detection::NeedSelf, Event::SelfProperty { .. }) => true,
            (Detection::NeedModule, Event::Module(_)) => true,
            (Detection::NeedCrypto, Event::Crypto(_)) => true,
            (Detection::NeedGetRandomValues(_), Event::GetRandomValues { .. }) => true,
            _ => false,
        }
    }

    /// The state after `event`. An event that the state does not accept
    /// leaves it as it is.
    pub open spec fn next(self, event: Event<N, B>) -> Detection<N, B> {
        match (self, event) {
            (Detection::NeedGlobal, Event::Global { defined: true }) => Detection::NeedSelf,
            (Detection::NeedSelf, Event::SelfProperty { defined: false }) => Detection::NeedModule,
            (Detection::NeedSelf, Event::SelfProperty { defined: true }) => Detection::NeedCrypto,
            (Detection::NeedModule, Event::Module(module)) => Detection::Done(
                Ok(OsRng::HostRuntime(module)),
            ),
            (Detection::NeedCrypto, Event::Crypto(None)) => Detection::Done(
                Err(Error::crypto_undefined()),
            ),
            (Detection::NeedCrypto, Event::Crypto(Some(crypto))) => Detection::NeedGetRandomValues(
                crypto,
            ),
            (
                Detection::NeedGetRandomValues(_),
                Event::GetRandomValues { defined: false },
            ) => Detection::Done(Err(Error::get_random_values_undefined())),
            (
                Detection::NeedGetRandomValues(crypto),
                Event::GetRandomValues { defined: true },
            ) => Detection::Done(Ok(OsRng::EmbeddedRuntime(crypto))),
            (state, _) => state,
        }
    }

    /// The most questions that are still to be asked from this state.
    pub open spec fn remaining(&self) -> nat {
        match self {
            Detection::NeedGlobal => 4,
            Detection::NeedSelf => 3,
            Detection::NeedCrypto => 2,
            Detection::NeedModule => 1,
            Detection::NeedGetRandomValues(_) => 1,
            Detection::Done(_) => 0,
        }
    }

    /// What detection found, `None` while a question is open.
    pub open spec fn spec_outcome(self) -> Option<Result<OsRng<N, B>, Error>> {
        match self {
            Detection::Done(found) => Some(found),
            _ => None,
        }
    }

    /// The state in which nothing has been asked.
    pub fn start() -> (state: Detection<N, B>)
        ensures
            state == Detection::<N, B>::NeedGlobal,
    {
        Detection::NeedGlobal
    }

    /// The question to put to the host now, `None` once detection is done.
    #[verifier::when_used_as_spec(spec_action)]
    pub fn action(&self) -> (asked: Option<Action>)
        ensures
            asked == self.spec_action(),
            asked is None <==> self is Done,
    {
        match self {
            Detection::NeedGlobal => Some(Action::ReadGlobal),
            Detection::NeedSelf => Some(Action::ReadSelf),
            Detection::NeedModule => Some(Action::Require { module: "crypto" }),
            Detection::NeedCrypto => Some(Action::ReadCrypto),
            Detection::NeedGetRandomValues(_) => Some(Action::ReadGetRandomValues),
            Detection::Done(_) => None,
        }
    }

    /// Whether `event` answers the question that is open. An embedding
    /// tests this before it calls [`Detection::step`], and gives up where
    /// the test fails: on an undefined global object above all.
    #[verifier::when_used_as_spec(spec_accepts)]
    pub fn accepts(&self, event: &Event<N, B>) -> (accepted: bool)
        ensures
            accepted == self.spec_accepts(event),
    {
        match (self, event) {
            (Detection::NeedGlobal, Event::Global { defined }) => *defined,
            (Detection::NeedSelf, Event::SelfProperty { .. }) => true,
            (Detection::NeedModule, Event::Module(_)) => true,
            (Detection::NeedCrypto, Event::Crypto(_)) => true,
            (Detection::NeedGetRandomValues(_), Event::GetRandomValues { .. }) => true,
            _ => false,
        }
    }

    /// Takes the host's answer and decides what follows from it.
    ///
    /// Without a `self` the host is a server-side runtime, and the module
    /// that is acquired next becomes the source, unexamined. With a `self`
    /// it is a browser, which must have a `crypto` object, and that object
    /// a `getRandomValues` function; the object then becomes the source.
    /// Every step leaves fewer questions open than there were.
    pub fn step(self, event: Event<N, B>) -> (next: Detection<N, B>)
        requires
            self.accepts(&event),
        ensures
            next == self.next(event),
            next.remaining() < self.remaining(),
    {
        match (self, event) {
            (Detection::NeedGlobal, Event::Global { .. }) => Detection::NeedSelf,
            (Detection::NeedSelf, Event::SelfProperty { defined }) => {
                if defined {
                    Detection::NeedCrypto
                } else {
                    Detection::NeedModule
                }
            },
            (Detection::NeedModule, Event::Module(module)) => Detection::Done(
                Ok(OsRng::HostRuntime(module)),
            ),
            (Detection::NeedCrypto, Event::Crypto(None)) => Detection::Done(
                Err(Error::new(ErrorKind::Unavailable, "self.crypto is undefined")),
            ),
            (Detection::NeedCrypto, Event::Crypto(Some(crypto))) => Detection::NeedGetRandomValues(
                crypto,
            ),
            (Detection::NeedGetRandomValues(crypto), Event::GetRandomValues { defined }) => {
                if defined {
                    Detection::Done(Ok(OsRng::EmbeddedRuntime(crypto)))
                } else {
                    Detection::Done(
                        Err(
                            Error::new(
                                ErrorKind::Unavailable,
                                "self.crypto.getRandomValues is undefined",
                            ),
                        ),
                    )
                }
            },
            _ => unreached(),
        }
    }

    /// What detection found: the adapter, or the error of a browser without
    /// a usable `crypto`. `None` while a question is open.
    #[verifier::when_used_as_spec(spec_outcome)]
    pub fn outcome(self) -> (found: Option<Result<OsRng<N, B>, Error>>)
        ensures
            found == self.spec_outcome(),
            found is Some <==> self is Done,
    {
        match self {
            Detection::Done(found) => Some(found),
            _ => None,
        }
    }
}

} // verus!
