use vstd::prelude::*;
use crate::engine::{borrowed_engine, Engine, EngineState};
use crate::error::Error;

verus! {

/// Element type of a tensor, as the engine numbers them.
#[derive(Debug, Clone, Copy, PartialEq, Eq, Structural)]
pub enum TensorType {
    RAW,
    STR,
    I8,
    U8,
    I16,
    U16,
    I32,
    U32,
    I64,
    U64,
    F16,
    F32,
    F64,
}

/// The engine's number for each element type.
pub open spec fn type_code(t: TensorType) -> u32 {
    match t {
        TensorType::RAW => 0,
        TensorType::STR => 1,
        TensorType::I8 => 2,
        TensorType::U8 => 3,
        TensorType::I16 => 4,
        TensorType::U16 => 5,
        TensorType::I32 => 6,
        TensorType::U32 => 7,
        TensorType::I64 => 8,
        TensorType::U64 => 9,
        TensorType::F16 => 10,
        TensorType::F32 => 11,
        TensorType::F64 => 12,
    }
}

/// The element type the engine numbers `v`, if any.
pub open spec fn type_of_code(v: u32) -> Option<TensorType> {
    if v == 0 {
        Some(TensorType::RAW)
    } else if v == 1 {
        Some(TensorType::STR)
    } else if v == 2 {
        Some(TensorType::I8)
    } else if v == 3 {
        Some(TensorType::U8)
    } else if v == 4 {
        Some(TensorType::I16)
    } else if v == 5 {
        Some(TensorType::U16)
    } else if v == 6 {
        Some(TensorType::I32)
    } else if v == 7 {
        Some(TensorType::U32)
    } else if v == 8 {
        Some(TensorType::I64)
    } else if v == 9 {
        Some(TensorType::U64)
    } else if v == 10 {
        Some(TensorType::F16)
    } else if v == 11 {
        Some(TensorType::F32)
    } else if v == 12 {
        Some(TensorType::F64)
    } else {
        None
    }
}

impl TensorType {
    /// The element type numbered `value`; `Err(())` for a number the engine
    /// does not use.
    pub fn try_from(value: u32) -> (r: Result<TensorType, ()>)
        ensures
            r is Ok <==> value <= 12,
            r matches Ok(t) ==> type_code(t) == value && type_of_code(value) == Some(t),
    {
        match value {
            0 => Ok(TensorType::RAW),
            1 => Ok(TensorType::STR),
            2 => Ok(TensorType::I8),
            3 => Ok(TensorType::U8),
            4 => Ok(TensorType::I16),
            5 => Ok(TensorType::U16),
            6 => Ok(TensorType::I32),
            7 => Ok(TensorType::U32),
            8 => Ok(TensorType::I64),
            9 => Ok(TensorType::U64),
            10 => Ok(TensorType::F16),
            11 => Ok(TensorType::F32),
            12 => Ok(TensorType::F64),
            _ => Err(()),
        }
    }

    /// The engine's number for this element type.
    pub fn code(&self) -> (r: u32)
        ensures
            r == type_code(*self),
            r <= 12,
    {
        match self {
            TensorType::RAW => 0,
            TensorType::STR => 1,
            TensorType::I8 => 2,
            TensorType::U8 => 3,
            TensorType::I16 => 4,
            TensorType::U16 => 5,
            TensorType::I32 => 6,
            TensorType::U32 => 7,
            TensorType::I64 => 8,
            TensorType::U64 => 9,
            TensorType::F16 => 10,
            TensorType::F32 => 11,
            TensorType::F64 => 12,
        }
    }
}

/// Numbering an element type and reading the number back gives the same type.
pub proof fn lemma_type_code_round_trip(t: TensorType)
    ensures
        type_of_code(type_code(t)) == Some(t),
{
}

/// What can be observed of a [`Tensor`] handle: the native address, whether
/// the handle owns the buffer, the engine handle it knows of, and the ledger
/// of native map, unmap and release calls that the handle has sanctioned.
pub ghost struct TensorState {
    pub ptr: usize,
    pub owned: bool,
    pub released: bool,
    /// Read-only views alive now.
    pub readers: nat,
    /// Whether a read-write view is alive now.
    pub writer: bool,
    pub maps: nat,
    pub unmaps: nat,
    pub releases: nat,
    pub engine: Option<EngineState>,
}

/// The state of a handle just made for the buffer at `ptr`.
pub open spec fn fresh_state(ptr: usize, owned: bool) -> TensorState {
    TensorState {
        ptr,
        owned,
        released: false,
        readers: 0,
        writer: false,
        maps: 0,
        unmaps: 0,
        releases: 0,
        engine: None,
    }
}

/// The number of views alive in `s`.
pub open spec fn live_views(s: TensorState) -> nat {
    s.readers + if s.writer {
        1nat
    } else {
        0nat
    }
}

/// The handle invariant, over its observable state: a non-null address,
/// never a writer beside a reader, one map for every unmap or live view, a
/// release only of an owned buffer and at most once, and a borrowed engine
/// handle if any.
pub open spec fn state_wf(s: TensorState) -> bool {
    &&& s.ptr != 0
    &&& !(s.writer && s.readers > 0)
    &&& s.readers <= usize::MAX
    &&& s.maps == s.unmaps + live_views(s)
    &&& s.releases == if s.released {
        1nat
    } else {
        0nat
    }
    &&& s.released ==> s.owned
    &&& s.engine matches Some(e) ==> e == borrowed_engine(e.ptr) && e.ptr != 0
}

/// Whether a native read-only map that returned `addr` opens a view in `s`.
pub open spec fn mapro_opens(s: TensorState, addr: usize) -> bool {
    addr != 0 && !s.writer && s.readers < usize::MAX
}

/// The state after recording a native read-only map that returned `addr`.
pub open spec fn after_mapro(s: TensorState, addr: usize) -> TensorState {
    if mapro_opens(s, addr) {
        TensorState { readers: s.readers + 1, maps: s.maps + 1, ..s }
    } else {
        s
    }
}

/// Whether a native read-write map that returned `addr` opens a view in `s`.
pub open spec fn maprw_opens(s: TensorState, addr: usize) -> bool {
    addr != 0 && live_views(s) == 0
}

/// The state after recording a native read-write map that returned `addr`.
pub open spec fn after_maprw(s: TensorState, addr: usize) -> TensorState {
    if maprw_opens(s, addr) {
        TensorState { writer: true, maps: s.maps + 1, ..s }
    } else {
        s
    }
}

/// The state after closing a read-only view, if one is alive.
pub open spec fn after_unmap_readonly(s: TensorState) -> TensorState {
    if s.readers > 0 {
        TensorState { readers: (s.readers - 1) as nat, unmaps: s.unmaps + 1, ..s }
    } else {
        s
    }
}

/// The state after closing the read-write view, if it is alive.
pub open spec fn after_unmap_readwrite(s: TensorState) -> TensorState {
    if s.writer {
        TensorState { writer: false, unmaps: s.unmaps + 1, ..s }
    } else {
        s
    }
}

/// A safe handle to one native tensor buffer, owned or borrowed.
///
/// An owned handle asks for the native release exactly once; a borrowed one
/// never does.  Views of the buffer follow the shared/exclusive discipline:
/// any number of read-only views, or exactly one read-write view.
pub struct Tensor {
    owned: bool,
    ptr: usize,
    released: bool,
    readers: usize,
    writer: bool,
    maps: Ghost<nat>,
    unmaps: Ghost<nat>,
    releases: Ghost<nat>,
    engine: Option<Engine>,
}

impl View for Tensor {
    type V = TensorState;

    closed spec fn view(&self) -> TensorState {
        TensorState {
            ptr: self.ptr,
            owned: self.owned,
            released: self.released,
            readers: self.readers as nat,
            writer: self.writer,
            maps: self.maps@,
            unmaps: self.unmaps@,
            releases: self.releases@,
            engine: match self.engine {
                Some(e) => Some(e@),
                None => None,
            },
        }
    }
}

impl Tensor {
    /// The handle's invariant (see [`state_wf`]).
    pub open spec fn wf(&self) -> bool {
        state_wf(self@)
    }

    fn make(ptr: usize, owned: bool) -> (r: Tensor)
        requires
            ptr != 0,
        ensures
            r.wf(),
            r@ == fresh_state(ptr, owned),
    {
        Tensor {
            owned,
            ptr,
            released: false,
            readers: 0,
            writer: false,
            maps: Ghost(0),
            unmaps: Ghost(0),
            releases: Ghost(0),
            engine: None,
        }
    }

    /// An owned handle for the buffer the engine's tensor initialisation
    /// returned at `ptr`; a null result is the operating-system failure
    /// `os_error`.
    pub fn new(ptr: usize, os_error: std::io::ErrorKind) -> (r: Result<Tensor, Error>)
        ensures
            ptr == 0 <==> r is Err,
            ptr == 0 ==> (r matches Err(Error::IoError(k)) && k == os_error),
            r matches Ok(t) ==> t.wf() && t@ == fresh_state(ptr, true),
    {
        if ptr == 0 {
            Err(Error::IoError(os_error))
        } else {
            Ok(Tensor::make(ptr, true))
        }
    }

    /// A handle for the native tensor at `ptr`, owning it or not.
    pub fn from_ptr(ptr: usize, owned: bool) -> (r: Result<Tensor, Error>)
        ensures
            ptr == 0 <==> r is Err,
            ptr == 0 ==> (r matches Err(Error::WrapperError(m)) && m@ == "ptr is null"@),
            r matches Ok(t) ==> t.wf() && t@ == fresh_state(ptr, owned),
    {
        if ptr == 0 {
            Err(Error::wrapper("ptr is null"))
        } else {
            Ok(Tensor::make(ptr, owned))
        }
    }

    /// The native address of the tensor.
    pub fn to_mut_ptr(&self) -> (r: usize)
        ensures
            r == self@.ptr,
    {
        self.ptr
    }

    /// Whether this handle owns the native buffer.
    pub fn is_owned(&self) -> (r: bool)
        ensures
            r == self@.owned,
    {
        self.owned
    }

    /// The address of the engine handle known so far, if any.
    pub fn cached_engine(&self) -> (r: Option<usize>)
        ensures
            self@.engine matches Some(e) ==> r == Some(e.ptr),
            self@.engine is None ==> r is None,
    {
        match &self.engine {
            Some(e) => Some(e.to_ptr()),
            None => None,
        }
    }

    /// The engine the tensor lives on.  A handle already known is kept;
    /// otherwise `resolved`, the engine the tensor reports, is remembered as
    /// a borrowed handle, a null one meaning there is none.
    pub fn engine(&mut self, resolved: usize) -> (r: Option<&Engine>)
        requires
            old(self).wf(),
        ensures
            final(self).wf(),
            old(self)@.engine is Some ==> final(self)@ == old(self)@,
            old(self)@.engine is None && resolved == 0 ==> final(self)@ == old(self)@,
            old(self)@.engine is None && resolved != 0 ==> final(self)@ == (TensorState {
                engine: Some(borrowed_engine(resolved)),
                ..old(self)@
            }),
            final(self)@.engine matches Some(e) ==> r matches Some(h) && h@ == e,
            final(self)@.engine is None ==> r is None,
    {
        if self.engine.is_none() && resolved != 0 {
            match Engine::wrap(resolved) {
                Ok(w) => {
                    self.engine = Some(w);
                },
                Err(_) => {},
            }
        }
        self.engine.as_ref()
    }

    /// Whether a read-only view may be opened now: no read-write view is alive
    /// (and the count of readers has room).
    pub fn can_mapro(&self) -> (r: Result<(), Error>)
        requires
            self.wf(),
        ensures
            r is Ok <==> (!self@.writer && self@.readers < usize::MAX),
            r matches Err(e) ==> e is WrapperError,
    {
        if self.writer {
            Err(Error::wrapper("tensor is mapped read-write"))
        } else if self.readers == usize::MAX {
            Err(Error::wrapper("too many read-only views"))
        } else {
            Ok(())
        }
    }

    /// Whether a read-write view may be opened now: no view is alive.
    pub fn can_maprw(&self) -> (r: Result<(), Error>)
        requires
            self.wf(),
        ensures
            r is Ok <==> live_views(self@) == 0,
            r matches Err(e) ==> e is WrapperError,
    {
        if self.writer || self.readers > 0 {
            Err(Error::wrapper("tensor is already mapped"))
        } else {
            Ok(())
        }
    }

    /// Records the outcome of a native read-only map that returned `addr`.
    /// A null address is a failed map and opens no view.
    pub fn mapro(&mut self, addr: usize) -> (r: Result<(), Error>)
        requires
            old(self).wf(),
        ensures
            final(self).wf(),
            r is Ok <==> mapro_opens(old(self)@, addr),
            r matches Err(e) ==> e is WrapperError,
            addr == 0 ==> (r matches Err(Error::WrapperError(m)) && m@ == "nn_tensor_mapro failed"@),
            final(self)@ == after_mapro(old(self)@, addr),
    {
        if addr == 0 {
            return Err(Error::wrapper("nn_tensor_mapro failed"));
        }
        match self.can_mapro() {
            Err(e) => Err(e),
            Ok(()) => {
                self.readers = self.readers + 1;
                self.maps = Ghost(self.maps@ + 1);
                Ok(())
            },
        }
    }

    /// Records the outcome of a native read-write map that returned `addr`.
    /// A null address is a failed map and opens no view.
    pub fn maprw(&mut self, addr: usize) -> (r: Result<(), Error>)
        requires
            old(self).wf(),
        ensures
            final(self).wf(),
            r is Ok <==> maprw_opens(old(self)@, addr),
            r matches Err(e) ==> e is WrapperError,
            addr == 0 ==> (r matches Err(Error::WrapperError(m)) && m@ == "nn_tensor_maprw failed"@),
            final(self)@ == after_maprw(old(self)@, addr),
    {
        if addr == 0 {
            return Err(Error::wrapper("nn_tensor_maprw failed"));
        }
        match self.can_maprw() {
            Err(e) => Err(e),
            Ok(()) => {
                self.writer = true;
                self.maps = Ghost(self.maps@ + 1);
                Ok(())
            },
        }
    }

    /// Closes one read-only view.  Returns whether the native unmap is owed,
    /// which is exactly when a read-only view was alive.
    pub fn unmap_readonly(&mut self) -> (r: bool)
        requires
            old(self).wf(),
        ensures
            final(self).wf(),
            r == (old(self)@.readers > 0),
            final(self)@ == after_unmap_readonly(old(self)@),
    {
        if self.readers > 0 {
            self.readers = self.readers - 1;
            self.unmaps = Ghost(self.unmaps@ + 1);
            true
        } else {
            false
        }
    }

    /// Closes the read-write view.  Returns whether the native unmap is owed,
    /// which is exactly when the read-write view was alive.
    pub fn unmap_readwrite(&mut self) -> (r: bool)
        requires
            old(self).wf(),
        ensures
            final(self).wf(),
            r == old(self)@.writer,
            final(self)@ == after_unmap_readwrite(old(self)@),
    {
        if self.writer {
            self.writer = false;
            self.unmaps = Ghost(self.unmaps@ + 1);
            true
        } else {
            false
        }
    }

    /// Ends the handle's use of the native buffer.  Returns whether the native
    /// release is owed: for an owned handle the first time, never otherwise.
    pub fn release(&mut self) -> (r: bool)
        requires
            old(self).wf(),
        ensures
            final(self).wf(),
            r == (old(self)@.owned && !old(self)@.released),
            final(self)@ == (TensorState {
                released: old(self)@.released || old(self)@.owned,
                releases: if r {
                    old(self)@.releases + 1
                } else {
                    old(self)@.releases
                },
                ..old(self)@
            }),
    {
        if self.owned && !self.released {
            self.released = true;
            self.releases = Ghost(self.releases@ + 1);
            true
        } else {
            false
        }
    }
}

/// A scale table of `n` entries suits a tensor of shape `shape` quantized
/// along `axis`: one global scale, or one per channel of that axis.
pub open spec fn scales_fit(n: int, shape: Seq<i32>, axis: int) -> bool {
    n == 1 || (0 <= axis < shape.len() && shape[axis] as int == n)
}

impl Tensor {
    /// `Ok` exactly when `shape` lists `n_dims` dimensions, as binding an
    /// external buffer requires.
    pub fn check_assign(n_dims: i32, shape: &[i32]) -> (r: Result<(), Error>)
        ensures
            r is Ok <==> shape@.len() == n_dims as int,
            r is Err ==> (r matches Err(Error::WrapperError(m)) && m@
                == "shape length should be equal to n_dims"@),
    {
        if n_dims < 0 || shape.len() != n_dims as usize {
            Err(Error::wrapper("shape length should be equal to n_dims"))
        } else {
            Ok(())
        }
    }

    /// `Ok` exactly when a table of `n_scales` scales may be installed on a
    /// tensor of shape `shape` whose channel axis is `axis`.
    pub fn check_scales(n_scales: usize, shape: &[i32], axis: i16) -> (r: Result<(), Error>)
        ensures
            r is Ok <==> scales_fit(n_scales as int, shape@, axis as int),
            r matches Err(e) ==> e is WrapperError,
    {
        if n_scales == 1 {
            return Ok(());
        }
        if axis >= 0 && (axis as usize) < shape.len() {
            let channels = shape[axis as usize];
            if channels >= 0 && channels as usize == n_scales {
                return Ok(());
            }
        }
        Err(
            Error::wrapper(
                "scales should either have length of 1 or equal to channel_dimension (axis)",
            ),
        )
    }
}

/// Every native map a handle has sanctioned is matched by an unmap or by a
/// view still alive; so once every view is dropped, maps and unmaps are equal
/// in number, and a read-write view never overlaps another view.
pub proof fn lemma_map_unmap_pairing(t: Tensor)
    requires
        t.wf(),
    ensures
        t@.maps == t@.unmaps + live_views(t@),
        live_views(t@) == 0 ==> t@.maps == t@.unmaps,
        t@.writer ==> t@.readers == 0,
{
}

/// A borrowed handle never releases the native buffer; an owned one releases
/// it at most once, and exactly once after its release.
pub proof fn lemma_release_exclusive(t: Tensor)
    requires
        t.wf(),
    ensures
        !t@.owned ==> t@.releases == 0,
        t@.releases <= 1,
        t@.released ==> t@.releases == 1,
{
}

} // verus!
