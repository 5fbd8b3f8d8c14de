//! A vmbus server's control plane.
//!
//! Devices offer channels through [`offer::VmbusServerControl`]; the guest opens, closes and
//! changes them by messages. Between the two stands [`task::ServerTask`], which decides what each
//! event takes, and the channel state machine, which knows the protocol and calls back into
//! [`inner::ServerTaskInner`]. What has to be done outside the server is returned as
//! [`effect::Effect`]s and steps, and what came of it is handed back in; the values that go along
//! are of the types of a [`host::Host`].
//!
//! What holds of the server over any series of events is stated in [`laws`].

pub mod builder;
pub mod channel;
pub mod connection;
pub mod effect;
pub mod host;
pub mod inner;
pub mod laws;
pub mod offer;
pub mod protocol;
pub mod relay;
pub mod resolver;
pub mod rings;
pub mod server;
pub mod task;
