//! Bridge between a host application that drives plugin objects through a fixed,
//! vtable-dispatched binary interface and plugin logic written against an owned,
//! tagged value model.
//!
//! `interface` holds the value model that plugin logic works with and the
//! capability that a plugin supplies. `ffi` holds the layout of the composite
//! object, the model of the raw values exchanged with the host, the marshalling
//! between the two value representations, and the entries of the dispatch tables.
//! `derive_addin` holds the words of a plugin's declaration and of the code that is
//! written from it.
//!
//! The library holds no unsafe code. It works on plain values: an address is a
//! number, and a buffer in host memory is its address together with its contents.
//! Reading and writing host memory is left to the caller.

pub mod derive_addin;
pub mod ffi;
pub mod interface;
