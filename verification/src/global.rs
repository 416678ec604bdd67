//! A host's global object as far as detection looks at it, and what
//! detection finds on each such object.
//!
//! Nothing here runs: a [`GlobalObject`] describes a host, so that what
//! [`Detection`] does can be stated for every host at once and proved.

use crate::detect::{Action, Detection, Event};
use crate::error::{Error, ErrorKind};
use crate::os_rng::OsRng;
use vstd::prelude::*;

verus! {

/// The `crypto` object of a browser.
pub struct CryptoObject<B> {
    /// The handle by which the object is called.
    pub handle: B,
    /// Whether its property `getRandomValues` is defined.
    pub get_random_values: bool,
}

/// The global object of a host.
pub struct GlobalObject<N, B> {
    /// Whether its property `self` is defined.
    pub has_self: bool,
    /// What acquiring the module `crypto` yields on this host.
    pub module: N,
    /// Its property `crypto`, `None` where that is undefined.
    pub crypto: Option<CryptoObject<B>>,
}

impl<N, B> GlobalObject<N, B> {
    /// What this host answers to `action`.
    pub open spec fn answer(self, action: Action) -> Event<N, B> {
        match action {
            Action::ReadGlobal => Event::Global { defined: true },
            Action::ReadSelf => Event::SelfProperty { defined: self.has_self },
            Action::Require { .. } => Event::Module(self.module),
            Action::ReadCrypto => Event::Crypto(
                match self.crypto {
                    Some(crypto) => Some(crypto.handle),
                    None => None,
                },
            ),
            Action::ReadGetRandomValues => Event::GetRandomValues {
                defined: self.crypto is Some && self.crypto->0.get_random_values,
            },
        }
    }

    /// The state in which detection ends on this host when it goes on from
    /// `state`: every question is put to the host and the answer taken.
    pub open spec fn run(self, state: Detection<N, B>) -> Detection<N, B>
        decreases state.remaining(),
    {
        match state.action() {
            Some(action) => self.run(state.next(self.answer(action))),
            None => state,
        }
    }

    /// The questions that detection puts to this host when it goes on from
    /// `state`, in their order.
    pub open spec fn asked(self, state: Detection<N, B>) -> Seq<Action>
        decreases state.remaining(),
    {
        match state.action() {
            Some(action) => seq![action] + self.asked(state.next(self.answer(action))),
            None => Seq::empty(),
        }
    }

    /// The adapter that belongs to this host, or the reason why it has
    /// none.
    pub open spec fn found(self) -> Result<OsRng<N, B>, Error> {
        if !self.has_self {
            Ok(OsRng::HostRuntime(self.module))
        } else {
            match self.crypto {
                None => Err(Error::crypto_undefined()),
                Some(crypto) => if crypto.get_random_values {
                    Ok(OsRng::EmbeddedRuntime(crypto.handle))
                } else {
                    Err(Error::get_random_values_undefined())
                },
            }
        }
    }

    /// What the host answers to the open question is an answer that the
    /// state accepts: an embedding that reports the host as it is can
    /// always take the next step.
    pub proof fn answers_are_accepted(self, state: Detection<N, B>)
        requires
            state.action() is Some,
        ensures
            state.accepts(&self.answer(state.action()->0)),
    {
    }

    /// From any state, detection ends, and asks no more questions on the
    /// way than the state had left: four at most.
    pub proof fn detection_ends(self, state: Detection<N, B>)
        ensures
            self.run(state) is Done,
            self.asked(state).len() <= state.remaining() <= 4,
        decreases state.remaining(),
    {
        match state.action() {
            Some(action) => {
                self.detection_ends(state.next(self.answer(action)));
            },
            None => {},
        }
    }

    /// On every host, detection from the start ends with exactly the
    /// adapter or error that belongs to the host.
    pub proof fn detection_finds(self)
        ensures
            self.run(Detection::NeedGlobal) == Detection::Done(self.found()),
    {
        reveal_with_fuel(GlobalObject::run, 5);
    }

    /// A host without `self` gets the adapter of a host runtime, bound to
    /// the module that was acquired, and its `crypto` property is never
    /// read.
    pub proof fn host_runtime_without_self(self)
        requires
            !self.has_self,
        ensures
            self.run(Detection::NeedGlobal) == Detection::<N, B>::Done(
                Ok(OsRng::HostRuntime(self.module)),
            ),
            self.asked(Detection::NeedGlobal) == seq![
                Action::ReadGlobal,
                Action::ReadSelf,
                Action::Require { module: "crypto" },
            ],
            !self.asked(Detection::NeedGlobal).contains(Action::ReadCrypto),
            !self.asked(Detection::NeedGlobal).contains(Action::ReadGetRandomValues),
    {
        reveal_with_fuel(GlobalObject::run, 5);
        reveal_with_fuel(GlobalObject::asked, 5);
    }

    /// A host with `self` and without `crypto` gets the error of an
    /// undefined `crypto`, and no module is acquired.
    pub proof fn unavailable_without_crypto(self)
        requires
            self.has_self,
            self.crypto is None,
        ensures
            self.run(Detection::NeedGlobal) == Detection::<N, B>::Done(
                Err(Error::crypto_undefined()),
            ),
            Error::crypto_undefined().kind == ErrorKind::Unavailable,
            Error::crypto_undefined().msg@ == "self.crypto is undefined"@,
            self.asked(Detection::NeedGlobal) == seq![
                Action::ReadGlobal,
                Action::ReadSelf,
                Action::ReadCrypto,
            ],
    {
        reveal_with_fuel(GlobalObject::run, 5);
        reveal_with_fuel(GlobalObject::asked, 5);
    }

    /// A host with `self` whose `crypto` object has no `getRandomValues`
    /// gets the error of an undefined `getRandomValues`.
    pub proof fn unavailable_without_get_random_values(self)
        requires
            self.has_self,
            self.crypto is Some,
            !self.crypto->0.get_random_values,
        ensures
            self.run(Detection::NeedGlobal) == Detection::<N, B>::Done(
                Err(Error::get_random_values_undefined()),
            ),
            Error::get_random_values_undefined().kind == ErrorKind::Unavailable,
            Error::get_random_values_undefined().msg@
                == "self.crypto.getRandomValues is undefined"@,
            self.asked(Detection::NeedGlobal) == seq![
                Action::ReadGlobal,
                Action::ReadSelf,
                Action::ReadCrypto,
                Action::ReadGetRandomValues,
            ],
    {
        reveal_with_fuel(GlobalObject::run, 5);
        reveal_with_fuel(GlobalObject::asked, 5);
    }

    /// A host with `self` whose `crypto` object has `getRandomValues` gets
    /// the adapter of an embedded runtime, bound to that object.
    pub proof fn embedded_runtime_with_get_random_values(self)
        requires
            self.has_self,
            self.crypto is Some,
            self.crypto->0.get_random_values,
        ensures
            self.run(Detection::NeedGlobal) == Detection::<N, B>::Done(
                Ok(OsRng::EmbeddedRuntime(self.crypto->0.handle)),
            ),
            self.asked(Detection::NeedGlobal) == seq![
                Action::ReadGlobal,
                Action::ReadSelf,
                Action::ReadCrypto,
                Action::ReadGetRandomValues,
            ],
    {
        reveal_with_fuel(GlobalObject::run, 5);
        reveal_with_fuel(GlobalObject::asked, 5);
    }
}

} // verus!
