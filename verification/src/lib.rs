//! The core of a Wayland windowing shim: the decisions of the event loop,
//! the timers, the queue through which other threads reach the loop, the
//! table of windows, and for each window the coalescing of the compositor's
//! notifications and the lifecycle they drive.
//!
//! The library never touches the display, the clock or the GPU. Its
//! functions take what has happened and answer with the new state and the
//! effects to carry out, and their contracts say exactly which.

pub mod dimensions;
pub mod pending;
pub mod window;
pub mod timerlist;
pub mod spawn;
pub mod promise;
pub mod connection;
pub mod input;
pub mod pipe;
