//! Android hardware buffers and the native library that receives them.

use vstd::prelude::*;

verus! {

/// The native hardware buffer, known only by its address.
pub struct AHardwareBuffer {}

/// The native library that receives hardware buffers from a socket: the
/// address of its handle (zero while it is not loaded) and of its receiving
/// function.
#[derive(Debug, Clone, Copy, PartialEq, Eq, Structural)]
pub struct Lib {
    handle: usize,
    fn_recv: Option<usize>,
}

impl Lib {
    /// The library is either wholly unloaded (no handle, no receiving
    /// function) or wholly loaded (a handle and a non-null receiving
    /// function).
    #[verifier::type_invariant]
    spec fn wholly_loaded_or_not(&self) -> bool {
        &&& (self.handle == 0) <==> (self.fn_recv is None)
        &&& self.fn_recv matches Some(f) ==> f != 0
    }

    /// The address of the library's handle, zero while it is not loaded.
    pub closed spec fn handle_addr(&self) -> usize {
        self.handle
    }

    /// The address of the receiving function, once it has been looked up.
    pub closed spec fn recv_addr(&self) -> Option<usize> {
        self.fn_recv
    }

    /// The library before it is loaded.
    pub fn unloaded() -> (l: Lib)
        ensures
            l.handle_addr() == 0,
            l.recv_addr() == None::<usize>,
    {
        Lib { handle: 0, fn_recv: None }
    }

    /// The library once it is loaded at `handle` and its receiving function
    /// found at `recv_fn`. Loading fails with a panic where either is null:
    /// that input is refused by `requires`.
    pub fn loaded(handle: usize, recv_fn: usize) -> (l: Lib)
        requires
            handle != 0,
            recv_fn != 0,
        ensures
            l.handle_addr() == handle,
            l.recv_addr() == Some(recv_fn),
    {
        Lib { handle, fn_recv: Some(recv_fn) }
    }

    /// Whether the library is loaded; loading again is then skipped, and
    /// only then is there a handle to close.
    pub fn is_loaded(&self) -> (r: bool)
        ensures
            r == (self.handle_addr() != 0),
            r == (self.recv_addr() is Some),
    {
        proof {
            use_type_invariant(self);
        }
        self.handle != 0
    }

    /// The address of the library's handle.
    pub fn handle(&self) -> (r: usize)
        ensures
            r == self.handle_addr(),
            (r == 0) <==> (self.recv_addr() is None),
    {
        proof {
            use_type_invariant(self);
        }
        self.handle
    }

    /// The address of the receiving function, once it has been looked up.
    pub fn recv_fn(&self) -> (r: Option<usize>)
        ensures
            r == self.recv_addr(),
            (r is None) <==> (self.handle_addr() == 0),
            r matches Some(f) ==> f != 0,
    {
        proof {
            use_type_invariant(self);
        }
        self.fn_recv
    }

    /// What a call of the receiving function gave: the buffer at `buffer`,
    /// unless the call returned a non-zero `status` or left the buffer null.
    pub fn recv_outcome(status: i32, buffer: usize) -> (r: Option<usize>)
        ensures
            r == (if status != 0 || buffer == 0 {
                None
            } else {
                Some(buffer)
            }),
    {
        let mut buffer = buffer;
        if status != 0 {
            buffer = 0;
        }
        if buffer == 0 {
            return None;
        }
        Some(buffer)
    }
}

} // verus!
