//! An adapter that binds a random number generator to the entropy source of
//! a JavaScript host: the `crypto` module of a server-side runtime, or the
//! global `crypto` object of a browser window or worker.
//!
//! The adapter generates nothing itself. It decides which of the two
//! sources is present, refuses a browser that has none, and from then on
//! hands every buffer to the source it is bound to, within the size that
//! the source takes in one call.
//!
//! The library never touches the host. An embedding starts a
//! [`Detection`], puts each [`Action`] that it asks for to the host and
//! hands the answer back as an [`Event`], until the detection has an
//! [`OsRng`] or an [`Error`]. The handles that an `OsRng` holds are the
//! embedding's own, behind [`RandomFillSync`] and [`GetRandomValues`].
//! What detection does on every host is stated and proved over
//! [`GlobalObject`].

pub mod detect;
pub mod error;
pub mod global;
pub mod os_rng;

pub use detect::{Action, Detection, Event};
pub use error::{Error, ErrorKind};
pub use global::{CryptoObject, GlobalObject};
pub use os_rng::{GetRandomValues, OsRng, RandomFillSync, GET_RANDOM_VALUES_QUOTA};
