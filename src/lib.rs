//! Real-time fragment broadcast with session-bound identity resolution.
//!
//! The library holds the decisions of a server that re-renders HTML
//! fragments and pushes them to every connected browser tab:
//!
//! * [`stream`]: how one received fragment becomes one push event;
//! * [`hub`]: the process-wide fan-out channel;
//! * [`identity`]: resolving a browser session to a durable user identity;
//! * [`joy`], [`cards`], [`component`] and [`questions`]: the rules of the
//!   application data that feed the fragments;
//! * [`request`]: the query parameters of a request.
pub mod cards;
pub mod component;
pub mod hub;
pub mod identity;
pub mod joy;
pub mod questions;
pub mod request;
pub mod stream;
