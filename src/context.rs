use vstd::prelude::*;
use vstd::string::StringSliceAdditionalSpecFns;
use crate::engine::{borrowed_engine, Engine, EngineState};
use crate::error::{check_status, status_result, Error, NN_SUCCESS};
use crate::tensor::{
    after_mapro, after_maprw, after_unmap_readonly, after_unmap_readwrite, fresh_state, mapro_opens,
    maprw_opens, state_wf, Tensor, TensorState,
};

verus! {

/// What can be observed of a [`Context`]: its native address, ownership, the
/// engine it is bound to, the model blob it holds, whether the engine accepted
/// that blob, and its cache of borrowed tensor handles keyed by index.
pub ghost struct ContextState {
    pub ptr: usize,
    pub owned: bool,
    pub released: bool,
    pub engine: Option<EngineState>,
    pub model: Seq<u8>,
    pub loaded: bool,
    pub cache: Seq<(usize, TensorState)>,
}

/// Whether the cache of `s` holds an entry for `index`.
pub open spec fn is_cached(s: ContextState, index: usize) -> bool {
    exists|k: int| 0 <= k < s.cache.len() && #[trigger] s.cache[k].0 == index
}

/// No index appears twice in the cache.
pub open spec fn keys_distinct(cache: Seq<(usize, TensorState)>) -> bool {
    forall|j: int, k: int|
        0 <= j < cache.len() && 0 <= k < cache.len() && #[trigger] cache[j].0 == #[trigger] cache[k].0
            ==> j == k
}

/// Every cached handle is well formed and borrowed: the context never
/// releases the buffers it caches.
pub open spec fn entries_borrowed(cache: Seq<(usize, TensorState)>) -> bool {
    forall|k: int| 0 <= k < cache.len() ==> state_wf(#[trigger] cache[k].1) && !cache[k].1.owned
}

/// `s` with the handle in `slot` replaced by one in state `t`.
pub open spec fn with_slot(s: ContextState, slot: int, t: TensorState) -> ContextState {
    ContextState { cache: s.cache.update(slot, (s.cache[slot].0, t)), ..s }
}

/// Going from `old` to `new` keeps every handle cached in `old`, in its slot,
/// with its native address; new handles may follow.
pub open spec fn keeps_handles(old: ContextState, new: ContextState) -> bool {
    &&& old.cache.len() <= new.cache.len()
    &&& forall|k: int|
        0 <= k < old.cache.len() ==> new.cache[k].0 == (#[trigger] old.cache[k]).0
            && new.cache[k].1.ptr == old.cache[k].1.ptr
}

/// `s` with no model, no cached handle, and everything else as it was.
pub open spec fn unloaded(s: ContextState) -> ContextState {
    ContextState { model: Seq::empty(), loaded: false, cache: Seq::empty(), ..s }
}

/// The whole contract of [`Context::tensor_index`]: from `old`, resolving
/// `index` to the native address `resolved` yields `r` and leaves `new`.
pub open spec fn tensor_index_post(
    old: ContextState,
    index: usize,
    resolved: usize,
    r: Result<usize, Error>,
    new: ContextState,
) -> bool {
    &&& (r is Ok <==> (old.loaded && resolved != 0))
    &&& (!old.loaded ==> (r matches Err(Error::WrapperError(m)) && m@ == "no model is loaded"@))
    &&& (old.loaded && resolved == 0 ==> (r matches Err(Error::WrapperError(m)) && m@
        == "No tensor found"@))
    &&& (r is Err ==> new == old)
    &&& keeps_handles(old, new)
    &&& (r matches Ok(slot) ==> {
        &&& 0 <= slot < new.cache.len()
        &&& new.cache[slot as int].0 == index
        &&& state_wf(new.cache[slot as int].1)
        &&& !new.cache[slot as int].1.owned
        &&& is_cached(old, index) ==> new == old
        &&& forall|k: int| 0 <= k < old.cache.len() && #[trigger] old.cache[k].0 == index ==> slot == k
        &&& !is_cached(old, index) ==> slot == old.cache.len() && new == ContextState {
            cache: old.cache.push((index, fresh_state(resolved, false))),
            ..old
        }
    })
}

/// The observable cache of a sequence of cached entries.
pub closed spec fn cache_view(entries: Seq<(usize, Tensor)>) -> Seq<(usize, TensorState)> {
    entries.map_values(|e: (usize, Tensor)| (e.0, e.1@))
}

proof fn lemma_cache_view_update(entries: Seq<(usize, Tensor)>, i: int)
    requires
        0 <= i < entries.len(),
    ensures
        forall|t: Tensor|
            #[trigger] cache_view(entries.update(i, (entries[i].0, t))) == cache_view(
                entries,
            ).update(i, (entries[i].0, t@)),
{
    assert forall|t: Tensor|
        #[trigger] cache_view(entries.update(i, (entries[i].0, t))) == cache_view(entries).update(
            i,
            (entries[i].0, t@),
        ) by {
        assert(cache_view(entries.update(i, (entries[i].0, t))) =~= cache_view(entries).update(
            i,
            (entries[i].0, t@),
        ));
    }
}

/// An execution session: a loaded model blob and a cache of borrowed handles
/// to the engine's tensors, one per index.
pub struct Context {
    owned: bool,
    ptr: usize,
    released: bool,
    engine: Option<Engine>,
    model: Vec<u8>,
    loaded: bool,
    tensors: Vec<(usize, Tensor)>,
}

impl View for Context {
    type V = ContextState;

    closed spec fn view(&self) -> ContextState {
        ContextState {
            ptr: self.ptr,
            owned: self.owned,
            released: self.released,
            engine: match self.engine {
                Some(e) => Some(e@),
                None => None,
            },
            model: self.model@,
            loaded: self.loaded,
            cache: cache_view(self.tensors@),
        }
    }
}

impl Context {
    /// The context's invariant: a non-null address, a release only of an
    /// owned context, a borrowed engine handle if any, at most one cached
    /// handle per index, and only well-formed borrowed handles in the cache.
    pub open spec fn wf(&self) -> bool {
        &&& self@.ptr != 0
        &&& self@.released ==> self@.owned
        &&& self@.engine matches Some(e) ==> e == borrowed_engine(e.ptr) && e.ptr != 0
        &&& keys_distinct(self@.cache)
        &&& entries_borrowed(self@.cache)
    }

    fn make(ptr: usize, owned: bool, engine: Option<Engine>) -> (r: Context)
        requires
            ptr != 0,
            engine matches Some(e) ==> e@ == borrowed_engine(e@.ptr) && e@.ptr != 0,
        ensures
            r.wf(),
            r@ == (ContextState {
                ptr,
                owned,
                released: false,
                engine: match engine {
                    Some(e) => Some(e@),
                    None => None,
                },
                model: Seq::empty(),
                loaded: false,
                cache: Seq::empty(),
            }),
    {
        let r = Context {
            owned,
            ptr,
            released: false,
            engine,
            model: Vec::new(),
            loaded: false,
            tensors: Vec::new(),
        };
        assert(r@.cache =~= Seq::empty());
        r
    }

    /// An owned context for the session the engine's context initialisation
    /// returned at `ptr`, bound to `engine` if one was given.  The context
    /// keeps a borrowed handle to that engine.
    pub fn new(engine: Option<&Engine>, ptr: usize) -> (r: Result<Context, Error>)
        requires
            engine matches Some(e) ==> e.wf(),
        ensures
            ptr == 0 <==> r is Err,
            ptr == 0 ==> (r matches Err(Error::WrapperError(m)) && m@
                == "nn_context_init returned null"@),
            r matches Ok(c) ==> c.wf() && c@ == (ContextState {
                ptr,
                owned: true,
                released: false,
                engine: match engine {
                    Some(e) => Some(borrowed_engine(e@.ptr)),
                    None => None,
                },
                model: Seq::empty(),
                loaded: false,
                cache: Seq::empty(),
            }),
    {
        if ptr == 0 {
            Err(Error::wrapper("nn_context_init returned null"))
        } else {
            let bound = match engine {
                Some(e) => match Engine::wrap(e.to_ptr()) {
                    Ok(w) => Some(w),
                    Err(_) => None,
                },
                None => None,
            };
            Ok(Context::make(ptr, true, bound))
        }
    }

    /// A borrowed handle for a native context at `ptr` that someone else
    /// owns; it never releases the context.
    pub fn from_ptr(ptr: usize) -> (r: Result<Context, Error>)
        ensures
            ptr == 0 <==> r is Err,
            ptr == 0 ==> (r matches Err(Error::WrapperError(m)) && m@ == "ptr is null"@),
            r matches Ok(c) ==> c.wf() && c@ == (ContextState {
                ptr,
                owned: false,
                released: false,
                engine: None,
                model: Seq::empty(),
                loaded: false,
                cache: Seq::empty(),
            }),
    {
        if ptr == 0 {
            Err(Error::wrapper("ptr is null"))
        } else {
            Ok(Context::make(ptr, false, None))
        }
    }

    /// The native address of the session.
    pub fn to_mut_ptr(&self) -> (r: usize)
        ensures
            r == self@.ptr,
    {
        self.ptr
    }

    /// The model blob currently held; empty when none is loaded.
    pub fn model(&self) -> (r: &Vec<u8>)
        ensures
            r@ == self@.model,
    {
        &self.model
    }

    /// Whether the engine accepted the blob currently held.
    pub fn is_loaded(&self) -> (r: bool)
        ensures
            r == self@.loaded,
    {
        self.loaded
    }

    /// The address of the engine handle known so far, if any.
    pub fn cached_engine(&self) -> (r: Option<usize>)
        ensures
            self@.engine matches Some(e) ==> r == Some(e.ptr),
            self@.engine is None ==> r is None,
    {
        match &self.engine {
            Some(e) => Some(e.to_ptr()),
            None => None,
        }
    }

    /// The engine the context is bound to.  A handle already known is kept;
    /// otherwise `resolved`, the engine the session reports, is remembered as
    /// a borrowed handle, a null one meaning there is none.
    pub fn engine(&mut self, resolved: usize) -> (r: Option<&Engine>)
        requires
            old(self).wf(),
        ensures
            final(self).wf(),
            old(self)@.engine is Some ==> final(self)@ == old(self)@,
            old(self)@.engine is None && resolved == 0 ==> final(self)@ == old(self)@,
            old(self)@.engine is None && resolved != 0 ==> final(self)@ == (ContextState {
                engine: Some(borrowed_engine(resolved)),
                ..old(self)@
            }),
            final(self)@.engine matches Some(e) ==> r matches Some(h) && h@ == e,
            final(self)@.engine is None ==> r is None,
            keeps_handles(old(self)@, final(self)@),
    {
        if self.engine.is_none() && resolved != 0 {
            match Engine::wrap(resolved) {
                Ok(w) => {
                    self.engine = Some(w);
                },
                Err(_) => {},
            }
        }
        self.engine.as_ref()
    }

    /// Drops the model: the cached handles, which point into memory the
    /// engine no longer holds, and the blob.  Safe to repeat.
    pub fn unload_model(&mut self)
        requires
            old(self).wf(),
        ensures
            final(self).wf(),
            final(self)@ == unloaded(old(self)@),
    {
        self.tensors = Vec::new();
        self.model = Vec::new();
        self.loaded = false;
        assert(self@.cache =~= Seq::empty());
        assert(self@.model =~= Seq::empty());
    }

    /// Replaces whatever model was held by the blob `model`, which the engine
    /// has yet to accept (see [`Context::model_loaded`]).
    pub fn load_model(&mut self, model: Vec<u8>)
        requires
            old(self).wf(),
        ensures
            final(self).wf(),
            final(self)@ == (ContextState { model: model@, ..unloaded(old(self)@) }),
    {
        self.unload_model();
        self.model = model;
    }

    /// Records the engine's answer `status` to loading the held blob.  On
    /// failure the blob stays held but the context counts as unloaded, so no
    /// tensor can be resolved until a load succeeds.
    pub fn model_loaded(&mut self, status: u32, description: Option<String>) -> (r: Result<
        (),
        Error,
    >)
        requires
            old(self).wf(),
        ensures
            final(self).wf(),
            r is Ok <==> status == NN_SUCCESS,
            r == status_result(status, description),
            final(self)@ == (ContextState { loaded: status == NN_SUCCESS, ..old(self)@ }),
            keeps_handles(old(self)@, final(self)@),
    {
        self.loaded = status == NN_SUCCESS;
        check_status(status, description)
    }
}

impl Context {
    /// Executes the loaded model: the outcome of the engine's run, which
    /// reported `status`.
    pub fn run(&self, status: u32, description: Option<String>) -> (r: Result<(), Error>)
        ensures
            r is Ok <==> status == NN_SUCCESS,
            r == status_result(status, description),
    {
        check_status(status, description)
    }

    /// The handle cached for tensor `index`, whose native resolution gave
    /// `resolved`.  Returns its slot in the cache: the slot of the entry
    /// already there for `index`, or a new slot holding a borrowed handle to
    /// `resolved`.  Fails when no model is loaded or the engine found no such
    /// tensor, leaving the context as it was.
    pub fn tensor_index(&mut self, index: usize, resolved: usize) -> (r: Result<usize, Error>)
        requires
            old(self).wf(),
        ensures
            final(self).wf(),
            tensor_index_post(old(self)@, index, resolved, r, final(self)@),
    {
        if !self.loaded {
            return Err(Error::wrapper("no model is loaded"));
        }
        if resolved == 0 {
            return Err(Error::wrapper("No tensor found"));
        }
        let mut k: usize = 0;
        while k < self.tensors.len()
            invariant
                self.wf(),
                self@ == old(self)@,
                self@.loaded,
                resolved != 0,
                0 <= k <= self.tensors@.len(),
                self.tensors@.len() == self@.cache.len(),
                forall|j: int| 0 <= j < k ==> self@.cache[j].0 != index,
            decreases self.tensors@.len() - k,
        {
            assert(self@.cache[k as int].0 == self.tensors@[k as int].0);
            if self.tensors[k].0 == index {
                return Ok(k);
            }
            k = k + 1;
        }
        assert(!is_cached(old(self)@, index));
        match Tensor::from_ptr(resolved, false) {
            Ok(t) => {
                self.tensors.push((index, t));
            },
            Err(e) => {
                return Err(e);
            },
        }
        assert(self@.cache =~= old(self)@.cache.push((index, fresh_state(resolved, false))));
        assert(self@ == (ContextState {
            cache: old(self)@.cache.push((index, fresh_state(resolved, false))),
            ..old(self)@
        }));
        Ok(self.tensors.len() - 1)
    }

    /// The handle cached for the tensor named `name`.  `index` is the index
    /// the model gives that name (negative when it has none) and `resolved`
    /// the engine's resolution of the name.
    pub fn tensor(&mut self, name: &str, index: i32, resolved: usize) -> (r: Result<usize, Error>)
        requires
            old(self).wf(),
        ensures
            final(self).wf(),
            name.spec_bytes().contains(0u8) ==> (r matches Err(Error::WrapperError(m)) && m@
                == "name contains a nul byte"@ && final(self)@ == old(self)@),
            !name.spec_bytes().contains(0u8) && index < 0 ==> (r matches Err(
                Error::WrapperError(m),
            ) && m@ == "Could not get index of layer"@ && final(self)@ == old(self)@),
            !name.spec_bytes().contains(0u8) && index >= 0 ==> tensor_index_post(
                old(self)@,
                index as usize,
                resolved,
                r,
                final(self)@,
            ),
            keeps_handles(old(self)@, final(self)@),
    {
        match check_name(name) {
            Err(e) => Err(e),
            Ok(()) => {
                if index < 0 {
                    Err(Error::wrapper("Could not get index of layer"))
                } else {
                    self.tensor_index(index as usize, resolved)
                }
            },
        }
    }

    /// The handle cached for the model's `i`-th input, given the model's
    /// list of input indices and the engine's resolution of that input.
    pub fn input(&mut self, i: usize, inputs: &Vec<u32>, resolved: usize) -> (r: Result<
        usize,
        Error,
    >)
        requires
            old(self).wf(),
        ensures
            final(self).wf(),
            i >= inputs@.len() ==> (r matches Err(Error::WrapperError(m)) && m@
                == "index out of range"@ && final(self)@ == old(self)@),
            i < inputs@.len() ==> tensor_index_post(
                old(self)@,
                inputs@[i as int] as usize,
                resolved,
                r,
                final(self)@,
            ),
            keeps_handles(old(self)@, final(self)@),
    {
        match select_index(inputs, i) {
            Err(e) => Err(e),
            Ok(index) => self.tensor_index(index, resolved),
        }
    }

    /// The handle cached for the model's `i`-th output, given the model's
    /// list of output indices and the engine's resolution of that output.
    pub fn output(&mut self, i: usize, outputs: &Vec<u32>, resolved: usize) -> (r: Result<
        usize,
        Error,
    >)
        requires
            old(self).wf(),
        ensures
            final(self).wf(),
            i >= outputs@.len() ==> (r matches Err(Error::WrapperError(m)) && m@
                == "index out of range"@ && final(self)@ == old(self)@),
            i < outputs@.len() ==> tensor_index_post(
                old(self)@,
                outputs@[i as int] as usize,
                resolved,
                r,
                final(self)@,
            ),
            keeps_handles(old(self)@, final(self)@),
    {
        match select_index(outputs, i) {
            Err(e) => Err(e),
            Ok(index) => self.tensor_index(index, resolved),
        }
    }

    /// The number of cached handles.
    pub fn cache_len(&self) -> (r: usize)
        ensures
            r == self@.cache.len(),
    {
        self.tensors.len()
    }

    /// The cached handle in `slot`.
    pub fn cached(&self, slot: usize) -> (r: &Tensor)
        requires
            slot < self@.cache.len(),
        ensures
            r@ == self@.cache[slot as int].1,
    {
        &self.tensors[slot].1
    }

    /// Records, on the cached handle in `slot`, a native read-only map that
    /// returned `addr` (see [`Tensor::mapro`]).
    pub fn mapro_at(&mut self, slot: usize, addr: usize) -> (r: Result<(), Error>)
        requires
            old(self).wf(),
            slot < old(self)@.cache.len(),
        ensures
            final(self).wf(),
            r is Ok <==> mapro_opens(old(self)@.cache[slot as int].1, addr),
            final(self)@ == with_slot(
                old(self)@,
                slot as int,
                after_mapro(old(self)@.cache[slot as int].1, addr),
            ),
            keeps_handles(old(self)@, final(self)@),
    {
        proof {
            self.lemma_slot(slot as int);
            lemma_cache_view_update(self.tensors@, slot as int);
        }
        let t = &mut self.tensors[slot].1;
        let r = t.mapro(addr);
        proof {
            lemma_with_slot(old(self)@, slot as int, self@.cache[slot as int].1);
        }
        r
    }

    /// Records, on the cached handle in `slot`, a native read-write map that
    /// returned `addr` (see [`Tensor::maprw`]).
    pub fn maprw_at(&mut self, slot: usize, addr: usize) -> (r: Result<(), Error>)
        requires
            old(self).wf(),
            slot < old(self)@.cache.len(),
        ensures
            final(self).wf(),
            r is Ok <==> maprw_opens(old(self)@.cache[slot as int].1, addr),
            final(self)@ == with_slot(
                old(self)@,
                slot as int,
                after_maprw(old(self)@.cache[slot as int].1, addr),
            ),
            keeps_handles(old(self)@, final(self)@),
    {
        proof {
            self.lemma_slot(slot as int);
            lemma_cache_view_update(self.tensors@, slot as int);
        }
        let t = &mut self.tensors[slot].1;
        let r = t.maprw(addr);
        proof {
            lemma_with_slot(old(self)@, slot as int, self@.cache[slot as int].1);
        }
        r
    }

    /// Closes a read-only view of the cached handle in `slot`; returns whether
    /// the native unmap is owed (see [`Tensor::unmap_readonly`]).
    pub fn unmap_readonly_at(&mut self, slot: usize) -> (r: bool)
        requires
            old(self).wf(),
            slot < old(self)@.cache.len(),
        ensures
            final(self).wf(),
            r == (old(self)@.cache[slot as int].1.readers > 0),
            final(self)@ == with_slot(
                old(self)@,
                slot as int,
                after_unmap_readonly(old(self)@.cache[slot as int].1),
            ),
            keeps_handles(old(self)@, final(self)@),
    {
        proof {
            self.lemma_slot(slot as int);
            lemma_cache_view_update(self.tensors@, slot as int);
        }
        let t = &mut self.tensors[slot].1;
        let r = t.unmap_readonly();
        proof {
            lemma_with_slot(old(self)@, slot as int, self@.cache[slot as int].1);
        }
        r
    }

    /// Closes the read-write view of the cached handle in `slot`; returns
    /// whether the native unmap is owed (see [`Tensor::unmap_readwrite`]).
    pub fn unmap_readwrite_at(&mut self, slot: usize) -> (r: bool)
        requires
            old(self).wf(),
            slot < old(self)@.cache.len(),
        ensures
            final(self).wf(),
            r == old(self)@.cache[slot as int].1.writer,
            final(self)@ == with_slot(
                old(self)@,
                slot as int,
                after_unmap_readwrite(old(self)@.cache[slot as int].1),
            ),
            keeps_handles(old(self)@, final(self)@),
    {
        proof {
            self.lemma_slot(slot as int);
            lemma_cache_view_update(self.tensors@, slot as int);
        }
        let t = &mut self.tensors[slot].1;
        let r = t.unmap_readwrite();
        proof {
            lemma_with_slot(old(self)@, slot as int, self@.cache[slot as int].1);
        }
        r
    }

    proof fn lemma_slot(&self, slot: int)
        requires
            self.wf(),
            0 <= slot < self@.cache.len(),
        ensures
            self.tensors@[slot].1@ == self@.cache[slot].1,
            self.tensors@[slot].0 == self@.cache[slot].0,
            self.tensors@[slot].1.wf(),
            self.tensors@.len() == self@.cache.len(),
    {
        assert(state_wf(self@.cache[slot].1));
    }

    /// Ends the handle's use of the native session.  Returns whether the
    /// native release is owed: for an owned context the first time, never
    /// otherwise.
    pub fn release(&mut self) -> (r: bool)
        requires
            old(self).wf(),
        ensures
            final(self).wf(),
            r == (old(self)@.owned && !old(self)@.released),
            final(self)@ == (ContextState {
                released: old(self)@.released || old(self)@.owned,
                ..old(self)@
            }),
            keeps_handles(old(self)@, final(self)@),
    {
        if self.owned && !self.released {
            self.released = true;
            true
        } else {
            false
        }
    }
}

/// `Ok` exactly when `name` can be handed to the engine as a C string, that
/// is when none of its bytes is zero.
pub fn check_name(name: &str) -> (r: Result<(), Error>)
    ensures
        r is Ok <==> !name.spec_bytes().contains(0u8),
        r is Err ==> (r matches Err(Error::WrapperError(m)) && m@ == "name contains a nul byte"@),
{
    let bytes = name.as_bytes();
    let mut i: usize = 0;
    while i < bytes.len()
        invariant
            bytes@ == name.spec_bytes(),
            0 <= i <= bytes@.len(),
            forall|j: int| 0 <= j < i ==> bytes@[j] != 0u8,
        decreases bytes@.len() - i,
    {
        if bytes[i] == 0u8 {
            assert(bytes@[i as int] == 0u8);
            return Err(Error::wrapper("name contains a nul byte"));
        }
        i = i + 1;
    }
    assert(!name.spec_bytes().contains(0u8));
    Ok(())
}

/// The `i`-th entry of a model's list of tensor indices.
pub fn select_index(list: &Vec<u32>, i: usize) -> (r: Result<usize, Error>)
    ensures
        r is Ok <==> i < list@.len(),
        r matches Ok(index) ==> index == list@[i as int] as usize,
        r is Err ==> (r matches Err(Error::WrapperError(m)) && m@ == "index out of range"@),
{
    if i < list.len() {
        Ok(list[i] as usize)
    } else {
        Err(Error::wrapper("index out of range"))
    }
}

/// Replacing a cached handle by another well-formed borrowed handle to the
/// same buffer keeps the cache's invariant and its handles.
proof fn lemma_with_slot(s: ContextState, slot: int, t: TensorState)
    requires
        keys_distinct(s.cache),
        entries_borrowed(s.cache),
        0 <= slot < s.cache.len(),
        state_wf(t),
        !t.owned,
        t.ptr == s.cache[slot].1.ptr,
    ensures
        keys_distinct(with_slot(s, slot, t).cache),
        entries_borrowed(with_slot(s, slot, t).cache),
        keeps_handles(s, with_slot(s, slot, t)),
{
    let n = with_slot(s, slot, t);
    assert forall|j: int, k: int|
        0 <= j < n.cache.len() && 0 <= k < n.cache.len() && #[trigger] n.cache[j].0
            == #[trigger] n.cache[k].0 implies j == k by {
        assert(n.cache[j].0 == s.cache[j].0);
        assert(n.cache[k].0 == s.cache[k].0);
    }
}

/// Keeping the handles is transitive: it holds across any run of
/// operations that each keep them.
pub proof fn lemma_keeps_handles_trans(s1: ContextState, s2: ContextState, s3: ContextState)
    requires
        keeps_handles(s1, s2),
        keeps_handles(s2, s3),
    ensures
        keeps_handles(s1, s3),
{
    assert forall|k: int| 0 <= k < s1.cache.len() implies s3.cache[k].0 == (
    #[trigger] s1.cache[k]).0 && s3.cache[k].1.ptr == s1.cache[k].1.ptr by {
        assert(s2.cache[k].0 == s1.cache[k].0);
    }
}

/// Resolving the same index twice, with nothing in between but operations
/// that keep the handles already cached (every operation but loading and
/// unloading a model; see [`lemma_keeps_handles_trans`]), yields the same slot and so the same
/// native buffer: a write through one resolution is seen through the other.
pub proof fn lemma_cache_identity(
    s0: ContextState,
    s1: ContextState,
    s2: ContextState,
    s3: ContextState,
    index: usize,
    p1: usize,
    p2: usize,
    r1: Result<usize, Error>,
    r2: Result<usize, Error>,
)
    requires
        keys_distinct(s2.cache),
        tensor_index_post(s0, index, p1, r1, s1),
        keeps_handles(s1, s2),
        tensor_index_post(s2, index, p2, r2, s3),
        r1 is Ok,
        r2 is Ok,
    ensures
        r1 == r2,
        s3.cache[r2->Ok_0 as int].1.ptr == s1.cache[r1->Ok_0 as int].1.ptr,
{
    let slot = r1->Ok_0 as int;
    assert(s2.cache[slot].0 == s1.cache[slot].0);
    assert(s2.cache[slot].0 == index);
    assert(is_cached(s2, index));
    assert(s3 == s2);
    let slot2 = r2->Ok_0 as int;
    assert(s3.cache[slot2].0 == index);
}

/// After the model is unloaded the cache is empty and every resolution fails
/// until a model is loaded again.
pub proof fn lemma_unload_invalidates(
    s0: ContextState,
    index: usize,
    resolved: usize,
    r: Result<usize, Error>,
    s2: ContextState,
)
    requires
        tensor_index_post(unloaded(s0), index, resolved, r, s2),
    ensures
        unloaded(s0).cache.len() == 0,
        r is Err,
        s2 == unloaded(s0),
{
}

} // verus!
