//! Runtime support for exposing natively-owned values to an embedded,
//! garbage-collected script engine.
//!
//! A native value becomes visible to scripts through exactly one foreign
//! wrapper object whose inline storage holds the value's bytes.  The
//! compartment owns the class registry, the prototype graph, the interned
//! name table and the foreign heap; the trampoline module adapts each
//! exposed operation (resolve "this", decode arguments, run the native
//! logic under a scoped borrow, encode the result); the collector hooks
//! (`finalize`, `trace`) destroy an embedded value exactly once and
//! enumerate the linked natives reachable from it.

#![allow(non_snake_case)]

pub mod values;
pub mod cache;
pub mod entries;
pub mod node;
pub mod rect;
pub mod blob;
pub mod formdata;
pub mod event;
pub mod uievent;
pub mod mouseevent;
pub mod windowproxy;
pub mod window;
pub mod collection;
pub mod parser;
pub mod document;
pub mod native;
pub mod compartment;
pub mod bindings;
pub mod trampoline;
pub mod setup;
