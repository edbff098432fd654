//! A value that is loaded once, in the background, and then served from memory.
//!
//! A [`Preloader`] starts out idle. One call of [`Preloader::load`] wins the right to
//! start the load; the value that the load produces arrives over a one-time channel,
//! whose receiving half waits in a slot behind a lock. The first read that finds the
//! value in the channel drains it: it publishes the value and marks the preloader
//! loaded. Every later read is answered from the published value.
//!
//! Reads never block a thread. [`Preloader::try_get`] answers at once; the suspending
//! read is offered as steps ([`Preloader::get`], [`Preloader::claim`],
//! [`Preloader::complete`]) between which the caller awaits the lock and the channel.
//!
//! The preloader's state is shared between threads, so the contracts of its methods
//! cannot speak of it. What a method decides is stated where it is decided: on the
//! states ([`PreloaderState`]), on the deliveries of the channel ([`Delivery`]), on
//! the slot ([`Slot`]), on the steps of a read ([`Step`], [`Claim`]) and on the
//! parts of a preloader that is no longer shared ([`Parts`]). The module [`model`]
//! puts these decisions together into the preloader as one sequential value, and
//! the module [`laws`] proves what holds of it.

pub mod cell;
pub mod delivery;
pub mod error;
pub mod laws;
pub mod model;
pub mod parts;
pub mod preloader;
pub mod read;
pub mod slot;
pub mod state;

pub use delivery::Delivery;
pub use error::PreloaderError;
pub use model::Cache;
pub use parts::Parts;
pub use preloader::Preloader;
pub use read::published;
pub use read::Claim;
pub use read::Step;
pub use slot::Slot;
pub use state::Access;
pub use state::PreloaderState;
