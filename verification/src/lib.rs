//! The nucleus of a sandboxed execution engine for WebAssembly modules.
//!
//! A module is decoded into a [`module::Module`], each function it defines is
//! compiled to machine code for a target, and the code is handed out together
//! with the places in it that a loader still has to patch. The generated code
//! reaches globals and linear memories through a context pointer that every
//! compiled function takes as its last argument; the layout behind that pointer
//! is what the [`backend`] provides at run time.

use vstd::prelude::*;

pub mod backend;
pub mod module;
pub mod target;
pub mod wasm_compile;

use backend::Backend;

verus! {

/// The engine, resting on the backend it was given.
pub struct Nucleus<B: Backend> {
    backend: B,
}

impl<B: Backend> View for Nucleus<B> {
    type V = B;

    closed spec fn view(&self) -> B {
        self.backend
    }
}

impl<B: Backend> Nucleus<B> {
    /// A nucleus on top of `backend`.
    pub fn new(backend: B) -> (nucleus: Self)
        ensures
            nucleus@ == backend,
    {
        Self { backend }
    }

    /// The backend under this nucleus.
    pub fn backend(&self) -> (backend: &B)
        ensures
            *backend == self@,
    {
        &self.backend
    }
}

} // verus!
