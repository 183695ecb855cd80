//! Ordered-fallback object resolution for a gateway fronting several
//! object-storage buckets.
//!
//! A request key is looked up in a fixed, prioritised list of backends;
//! the first backend that returns the object wins, and every kind of
//! backend failure is coerced to a miss so that clients only ever see
//! the object bytes or a uniform not-found answer.

pub mod gateway;
pub mod lookup;
pub mod resolver;
pub mod settings;
