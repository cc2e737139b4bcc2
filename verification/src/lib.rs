//! Host-side core of a binding to the LiquidFun / Box2D simulation engine.
//!
//! The engine is native code that only a foreign-function shim can reach.
//! This crate holds everything such a shim has to decide on the host side:
//! which identities stand for an object and which for "nothing", which
//! handle may deallocate what it names, what a callback bridge hands to the
//! user's listener, which bridge a world has registered, and in which order
//! a bridge is torn down.  Every function is verified against its contract;
//! identities cross the boundary as plain `usize` tokens and are never
//! dereferenced here.

pub mod box2d;
