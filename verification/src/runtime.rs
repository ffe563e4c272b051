//! The records that the worker keeps of its runtime session.
//!
//! The embedded runtime counts the references to its values itself. A handle
//! stands for one reference that the worker owns: it is made from the address
//! that the runtime gave, and the null address, with which the runtime
//! signals a failure, never becomes a handle. The runtime's own "none" value
//! has an address like any other and is an ordinary handle.
//!
//! A session is built in three steps that cannot be reordered: the runtime
//! is started, its lock is taken, and the two namespaces are created.

use vstd::prelude::*;

verus! {

/// What the runtime reported of its lock when the lock was taken.
#[derive(Clone, Copy, PartialEq, Eq, Structural, Debug)]
pub enum PyGILState {
    Locked,
    Unlocked,
}

/// One owned reference to a value of the runtime, by its address.
#[derive(Debug)]
pub struct PyObj {
    p: usize,
}

impl View for PyObj {
    type V = usize;

    closed spec fn view(&self) -> usize {
        self.p
    }
}

impl PyObj {
    #[verifier::type_invariant]
    spec fn inv(self) -> bool {
        self.p != 0
    }

    /// Claims the reference behind the address that a call into the runtime
    /// returned. The null address is the runtime's sign of failure: no
    /// handle is made of it.
    pub fn new(p: usize) -> (r: Option<PyObj>)
        ensures
            r is Some <==> p != 0,
            r matches Some(obj) ==> obj@ == p,
    {
        if p == 0 {
            None
        } else {
            Some(PyObj { p })
        }
    }

    /// The address of the value; never null.
    pub fn addr(&self) -> (p: usize)
        ensures
            p == self@,
            p != 0,
    {
        proof {
            use_type_invariant(self);
        }
        self.p
    }

    /// Gives the reference up: the address that is to be released, once.
    pub fn release(self) -> (p: usize)
        ensures
            p == self@,
            p != 0,
    {
        proof {
            use_type_invariant(&self);
        }
        self.p
    }
}

impl Clone for PyObj {
    /// A second handle for the same value. It stands for a reference of its
    /// own: the runtime is to count one more for the address, and each of
    /// the two handles is released once.
    fn clone(&self) -> (obj: Self)
        ensures
            obj@ == self@,
    {
        proof {
            use_type_invariant(self);
        }
        PyObj { p: self.p }
    }
}

/// The started runtime. It lives as long as the worker process.
#[derive(Debug)]
pub struct Py {}

impl Py {
    /// The record of a runtime that has just been started.
    pub fn new() -> (py: Py)
        ensures
            py == (Py {  }),
    {
        Py {  }
    }
}

/// The runtime's lock, held. It cannot outlive the runtime it belongs to.
#[derive(Debug)]
pub struct PyGil<'a> {
    _py: &'a Py,
    gil: PyGILState,
}

impl<'a> PyGil<'a> {
    /// The state of the lock as the runtime reported it when this guard
    /// took it.
    pub closed spec fn prior(&self) -> PyGILState {
        self.gil
    }

    /// The guard of the lock of `py`, taken with the report `gil`.
    pub fn new(py: &'a Py, gil: PyGILState) -> (guard: Self)
        ensures
            guard.prior() == gil,
    {
        Self { _py: py, gil }
    }

    /// What is to be handed back to the runtime when the lock is released.
    pub fn state(&self) -> (gil: PyGILState)
        ensures
            gil == self.prior(),
    {
        self.gil
    }
}

/// The two namespaces against which every request of a worker is
/// evaluated. They cannot outlive the lock under which they were made.
#[derive(Debug)]
pub struct PyState<'a> {
    globals: PyObj,
    locals: PyObj,
    _state: &'a PyGil<'a>,
}

impl<'a> PyState<'a> {
    /// The address of the namespace of globals.
    pub closed spec fn globals_addr(&self) -> usize {
        self.globals@
    }

    /// The address of the namespace of locals.
    pub closed spec fn locals_addr(&self) -> usize {
        self.locals@
    }

    /// The session over the two namespaces that the runtime created under
    /// the lock `state`. There is none if the runtime failed to create
    /// either of them.
    pub fn new(state: &'a PyGil<'a>, globals: usize, locals: usize) -> (r: Option<Self>)
        ensures
            r is Some <==> globals != 0 && locals != 0,
            r matches Some(s) ==> s.globals_addr() == globals && s.locals_addr() == locals,
    {
        match PyObj::new(globals) {
            Some(g) => match PyObj::new(locals) {
                Some(l) => Some(Self { globals: g, locals: l, _state: state }),
                None => None,
            },
            None => None,
        }
    }

    /// Ends the session: gives up both handles, the one of the globals
    /// first, then the one of the locals, for each to be released once.
    pub fn release(self) -> (handles: (PyObj, PyObj))
        ensures
            handles.0@ == self.globals_addr(),
            handles.1@ == self.locals_addr(),
    {
        (self.globals, self.locals)
    }

    /// The handle of the namespace of globals.
    pub fn globals(&self) -> (g: &PyObj)
        ensures
            g@ == self.globals_addr(),
    {
        &self.globals
    }

    /// The handle of the namespace of locals.
    pub fn locals(&self) -> (l: &PyObj)
        ensures
            l@ == self.locals_addr(),
    {
        &self.locals
    }
}

} // verus!
