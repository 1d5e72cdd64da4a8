//! The orchestration core of a real-time render loop.
//!
//! The crate sits between application code and a rendering engine that it
//! treats as a black box. It assigns stable identifiers to entity kinds
//! ([`registry`]), keeps the named entities of each kind ([`entity`]), stages
//! configuration changes so that each takes effect at a frame boundary
//! ([`staged`], with the three configurations in [`viewport`], [`renderer`]
//! and [`camera`]), collects the drawables of a frame in submission order
//! ([`collector`]), and decides, phase by phase, what the host has to ask of
//! the engine ([`engine`]). What passes between the core and the engine is
//! described in [`corange`].
//!
//! Nothing here talks to the engine. Every decision comes back as plain data,
//! and the host carries it out. Nothing here is shared between threads
//! either: a host that lets several threads stage configuration keeps the
//! driver behind a lock, and holds the lock for one call at a time.
//!
//! Each module states its rules twice: as the contract of each function, over
//! a mathematical view of the data, and as laws, which are lemmas about
//! sequences of calls.
#![allow(non_camel_case_types)]

pub mod camera;
pub mod collector;
pub mod corange;
pub mod engine;
pub mod entity;
pub mod error;
pub mod registry;
pub mod renderer;
pub mod staged;
pub mod viewport;
