//! The adapter itself: one of two sources, fixed when it is built.

use crate::error::Error;
use vstd::prelude::*;

verus! {

/// The most bytes that `getRandomValues` fills in one call. A browser
/// throws on a longer buffer.
pub const GET_RANDOM_VALUES_QUOTA: usize = 65536;

/// A handle to the `crypto` module of a server-side host runtime.
///
/// Nothing is taken for granted of what the host writes. An implementation
/// that promises something of the buffer in its own `ensures` has that
/// promise passed on by [`OsRng::fill_chunk`].
pub trait RandomFillSync {
    /// Calls `randomFillSync` on `dest`, which the host fills in place.
    fn random_fill_sync(&self, dest: &mut [u8]);
}

/// A handle to the `crypto` object of a browser window or worker.
///
/// Nothing is taken for granted of what the browser writes. An
/// implementation that promises something of the buffer in its own
/// `ensures` has that promise passed on by [`OsRng::fill_chunk`].
pub trait GetRandomValues {
    /// Calls `getRandomValues` on `dest`, which the browser fills in place.
    /// The caller keeps `dest` within the browser's quota.
    fn get_random_values(&self, dest: &mut [u8])
        requires
            old(dest)@.len() <= GET_RANDOM_VALUES_QUOTA,
    ;
}

/// An entropy source of a JavaScript host. Which of the two it is gets
/// decided once, by [`crate::detect::Detection`], and never changes.
#[derive(Debug)]
pub enum OsRng<N, B> {
    /// A server-side host runtime, through its `crypto` module.
    HostRuntime(N),
    /// A browser window or worker, through its global `crypto` object.
    EmbeddedRuntime(B),
}

impl<N, B> OsRng<N, B> {
    /// The most bytes that one call of `fill_chunk` may ask for.
    pub open spec fn spec_max_chunk_size(&self) -> usize {
        match self {
            OsRng::HostRuntime(_) => usize::MAX,
            OsRng::EmbeddedRuntime(_) => GET_RANDOM_VALUES_QUOTA,
        }
    }

    /// The name of the host function that fills the buffers.
    pub open spec fn spec_method_str(&self) -> &'static str {
        match self {
            OsRng::HostRuntime(_) => "crypto.randomFillSync",
            OsRng::EmbeddedRuntime(_) => "crypto.getRandomValues",
        }
    }

    /// The most bytes that one call of `fill_chunk` may ask for: no limit
    /// on a host runtime, the quota of `getRandomValues` in a browser. A
    /// caller with more to fill makes several calls.
    #[verifier::when_used_as_spec(spec_max_chunk_size)]
    pub fn max_chunk_size(&self) -> (max: usize)
        ensures
            max == self.spec_max_chunk_size(),
            self is HostRuntime ==> max == usize::MAX,
            self is EmbeddedRuntime ==> max == 65536,
    {
        match self {
            OsRng::HostRuntime(_) => usize::MAX,
            OsRng::EmbeddedRuntime(_) => GET_RANDOM_VALUES_QUOTA,
        }
    }

    /// The name of the host function that fills the buffers, for messages.
    #[verifier::when_used_as_spec(spec_method_str)]
    pub fn method_str(&self) -> (name: &'static str)
        ensures
            name == self.spec_method_str(),
            self is HostRuntime ==> name@ == "crypto.randomFillSync"@,
            self is EmbeddedRuntime ==> name@ == "crypto.getRandomValues"@,
            name@.len() > 0,
    {
        proof {
            reveal_strlit("crypto.randomFillSync");
            reveal_strlit("crypto.getRandomValues");
        }
        match self {
            OsRng::HostRuntime(_) => "crypto.randomFillSync",
            OsRng::EmbeddedRuntime(_) => "crypto.getRandomValues",
        }
    }

    /// What an adapter reports of itself depends on which of the two
    /// sources it is bound to and on nothing else: two adapters on the
    /// same kind of source report the same limit and the same name,
    /// whatever handles they hold and whatever they have filled.
    pub proof fn reports_follow_the_variant(self, other: OsRng<N, B>)
        requires
            self is HostRuntime <==> other is HostRuntime,
        ensures
            self.spec_max_chunk_size() == other.spec_max_chunk_size(),
            self.spec_method_str() == other.spec_method_str(),
    {
    }
}

impl<N: Clone, B: Clone> Clone for OsRng<N, B> {
    /// A second adapter on the same kind of source, with a clone of the
    /// handle.
    fn clone(&self) -> (copy: Self)
        ensures
            match (*self, copy) {
                (OsRng::HostRuntime(module), OsRng::HostRuntime(other)) => cloned(module, other),
                (OsRng::EmbeddedRuntime(crypto), OsRng::EmbeddedRuntime(other)) => cloned(
                    crypto,
                    other,
                ),
                _ => false,
            },
    {
        match self {
            OsRng::HostRuntime(module) => OsRng::HostRuntime(module.clone()),
            OsRng::EmbeddedRuntime(crypto) => OsRng::EmbeddedRuntime(crypto.clone()),
        }
    }
}

impl<N: RandomFillSync, B: GetRandomValues> OsRng<N, B> {
    /// Hands `dest` to the source, which fills it in place in one
    /// synchronous call.
    ///
    /// The source is called once, on all of `dest` as it was, and `dest`
    /// comes back as the source left it: whatever the source promises of a
    /// buffer that it has filled holds of `dest`. The adapter adds no
    /// failure of its own and stays bound to the source that it had.
    pub fn fill_chunk(&mut self, dest: &mut [u8]) -> (filled: Result<(), Error>)
        requires
            old(dest)@.len() <= old(self).max_chunk_size(),
        ensures
            filled is Ok,
            *final(self) == *old(self),
            match *old(self) {
                OsRng::HostRuntime(module) => exists|handed: &mut [u8]|
                    handed@ == old(dest)@ && final(handed)@ == final(dest)@
                        && #[trigger] call_ensures(N::random_fill_sync, (&module, handed), ()),
                OsRng::EmbeddedRuntime(crypto) => exists|handed: &mut [u8]|
                    handed@ == old(dest)@ && final(handed)@ == final(dest)@
                        && #[trigger] call_ensures(B::get_random_values, (&crypto, handed), ()),
            },
    {
        match &*self {
            OsRng::HostRuntime(module) => module.random_fill_sync(dest),
            OsRng::EmbeddedRuntime(crypto) => crypto.get_random_values(dest),
        }
        Ok(())
    }
}

} // verus!
