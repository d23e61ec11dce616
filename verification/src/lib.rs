//! A typed request-handler adapter and an access-log middleware, with proofs.
//!
//! The adapter turns a callable over extracted parameters into a processing unit: given a
//! request, it extracts the parameters, invokes the handler, and converts what the handler
//! returned into a response. The three steps run one after the other in one piece of
//! storage. A request always ends with a response: a failure of the extraction or of the
//! conversion is handed to the error renderer of the application.
//!
//! - [`dispatch`] holds the state machine of a request as a mathematical object, and what is
//!   proved of it: the handler is called once or never, the head of the request is taken
//!   exactly once, a request moves on at most three times.
//! - [`handler`] holds the `Handler` trait, its implementations for callables of up to ten
//!   parameters, and the adapter itself.
//! - [`extract`], [`responder`], [`error`] and [`service`] hold the capabilities that the
//!   adapter and the middleware take from their surroundings.
//! - [`http`] holds requests and responses as plain values.
//! - [`logger`] holds the access log; [`grammar`] and [`format`] hold the reading of a
//!   format string and the writing of a line.
//! - [`task`], [`clock`], [`body`] and [`text`] hold the little that is taken on trust: the
//!   polling of a future, the system clock and the calendar of the `time` crate, the length
//!   of a chunk of `bytes`, and that `String::push` appends.
pub mod body;
pub mod clock;
pub mod dispatch;
pub mod error;
pub mod extract;
pub mod format;
pub mod grammar;
pub mod handler;
pub mod http;
pub mod logger;
pub mod responder;
pub mod service;
pub mod task;
pub mod text;
