use vstd::prelude::*;
use crate::error::Error;

verus! {

/// What can be observed of an [`Engine`] handle.
pub ghost struct EngineState {
    pub ptr: usize,
    pub owned: bool,
    pub released: bool,
    pub releases: nat,
}

/// The state of a borrowed handle to the engine at `ptr`.
pub open spec fn borrowed_engine(ptr: usize) -> EngineState {
    EngineState { ptr, owned: false, released: false, releases: 0 }
}

/// A handle to a native compute engine.  Only the handle that constructed
/// the engine tears it down; one that wraps an engine reported by a tensor or
/// a context never does.  Sharing among several holders is left to a
/// reference-counted box around the owning handle.
pub struct Engine {
    ptr: usize,
    owned: bool,
    released: bool,
    releases: Ghost<nat>,
}

impl View for Engine {
    type V = EngineState;

    closed spec fn view(&self) -> EngineState {
        EngineState {
            ptr: self.ptr,
            owned: self.owned,
            released: self.released,
            releases: self.releases@,
        }
    }
}

impl Engine {
    /// The handle's invariant: a non-null address, and a teardown only of an
    /// owned engine, at most once.
    pub open spec fn wf(&self) -> bool {
        &&& self@.ptr != 0
        &&& self@.released ==> self@.owned
        &&& self@.releases == if self@.released {
            1nat
        } else {
            0nat
        }
    }

    /// The owning handle of the engine the engine's initialisation returned
    /// at `ptr`.
    pub fn new(ptr: usize) -> (r: Result<Engine, Error>)
        ensures
            ptr == 0 <==> r is Err,
            ptr == 0 ==> (r matches Err(Error::WrapperError(m)) && m@
                == "nn_engine_init returned null"@),
            r matches Ok(e) ==> e.wf() && e@ == (EngineState {
                ptr,
                owned: true,
                released: false,
                releases: 0,
            }),
    {
        if ptr == 0 {
            Err(Error::wrapper("nn_engine_init returned null"))
        } else {
            Ok(Engine { ptr, owned: true, released: false, releases: Ghost(0) })
        }
    }

    /// A non-owning handle to an engine that someone else owns.
    pub fn wrap(ptr: usize) -> (r: Result<Engine, Error>)
        ensures
            ptr == 0 <==> r is Err,
            ptr == 0 ==> (r matches Err(Error::WrapperError(m)) && m@ == "ptr is null"@),
            r matches Ok(e) ==> e.wf() && e@ == (EngineState {
                ptr,
                owned: false,
                released: false,
                releases: 0,
            }),
    {
        if ptr == 0 {
            Err(Error::wrapper("ptr is null"))
        } else {
            Ok(Engine { ptr, owned: false, released: false, releases: Ghost(0) })
        }
    }

    /// The native address of the engine.
    pub fn to_ptr(&self) -> (r: usize)
        ensures
            r == self@.ptr,
    {
        self.ptr
    }

    /// Ends the handle's use of the engine.  Returns whether the native
    /// teardown is owed: for the owning handle the first time, never for a
    /// wrapped one.
    pub fn release(&mut self) -> (r: bool)
        requires
            old(self).wf(),
        ensures
            final(self).wf(),
            r == (old(self)@.owned && !old(self)@.released),
            final(self)@ == (EngineState {
                released: old(self)@.released || old(self)@.owned,
                releases: if r {
                    old(self)@.releases + 1
                } else {
                    old(self)@.releases
                },
                ..old(self)@
            }),
    {
        if self.owned && !self.released {
            self.released = true;
            self.releases = Ghost(self.releases@ + 1);
            true
        } else {
            false
        }
    }
}

/// A wrapped engine handle never tears the engine down; the owning handle
/// does so at most once.
pub proof fn lemma_engine_teardown(e: Engine)
    requires
        e.wf(),
    ensures
        !e@.owned ==> e@.releases == 0,
        e@.releases <= 1,
{
}

} // verus!
