//! A contiguous, immutable region of `T` that was allocated either by this
//! program's allocator (a `Vec<T>`) or by a foreign allocator, and that reads
//! the same in both cases: as a slice.
//!
//! A foreign region is handed over as a `Vec<T>` handle together with an owner
//! value whose drop releases it. The buffer keeps that handle in a
//! `ManuallyDrop`, so that it is never released, grown or mutated through `Vec`;
//! only the owner is dropped. A native `Vec<T>` is released as usual.
use core::mem::ManuallyDrop;
use vstd::prelude::*;

verus! {

/// The region together with what releases it.
enum Storage<D, T> {
    /// Allocated by this program: dropping the `Vec` releases it.
    Native(Vec<T>),
    /// Allocated elsewhere: the handle is never dropped; dropping the owner
    /// releases the region.
    Foreign(ManuallyDrop<Vec<T>>, D),
}

/// A region that behaves as a `Vec<T>` when it was allocated by this program,
/// and as an immutable `[T]` kept alive by an owner `D` when it was not.
pub struct ForeignVec<D, T> {
    storage: Storage<D, T>,
}

impl<D, T> View for ForeignVec<D, T> {
    type V = Seq<T>;

    /// The elements of the region, in order.
    closed spec fn view(&self) -> Seq<T> {
        match self.storage {
            Storage::Native(v) => v@,
            Storage::Foreign(region, _) => region@@,
        }
    }
}

impl<D, T> ForeignVec<D, T> {
    /// Whether the region was allocated by this program.
    pub closed spec fn is_native(&self) -> bool {
        self.storage is Native
    }

    /// The value that keeps a foreign region alive, if the region is foreign.
    pub closed spec fn owner(&self) -> Option<D> {
        match self.storage {
            Storage::Native(_) => None,
            Storage::Foreign(_, owner) => Some(owner),
        }
    }

    /// Wraps a `Vec<T>`; the buffer owns its region and releases it when dropped.
    pub fn from_vec(data: Vec<T>) -> (r: Self)
        ensures
            r@ == data@,
            r.is_native(),
            r.owner() is None,
    {
        ForeignVec { storage: Storage::Native(data) }
    }

    /// Takes a region allocated elsewhere, as a `Vec<T>` handle, with the owner
    /// whose drop releases it. When the buffer is dropped, `owner` is dropped and
    /// `region` is not: a region that `owner` does not release is leaked.
    pub fn from_foreign(region: Vec<T>, owner: D) -> (r: Self)
        ensures
            r@ == region@,
            !r.is_native(),
            r.owner() == Some(owner),
    {
        ForeignVec { storage: Storage::Foreign(ManuallyDrop::new(region), owner) }
    }

    /// The region as a `Vec<T>` if it was allocated by this program, and `None`
    /// if it is foreign: a foreign region is never mutated.
    pub fn get_vec(&mut self) -> (r: Option<&mut Vec<T>>)
        ensures
            r is Some <==> old(self).is_native(),
            r matches Some(v) ==> (*v)@ == old(self)@ && final(self)@ == (*final(v))@,
            r is None ==> *final(self) == *old(self),
            final(self).is_native() == old(self).is_native(),
            final(self).owner() == old(self).owner(),
    {
        match &mut self.storage {
            Storage::Native(v) => Some(v),
            Storage::Foreign(_, _) => None,
        }
    }

    /// The elements, whatever their origin.
    pub fn as_slice(&self) -> (r: &[T])
        ensures
            r@ == self@,
    {
        match &self.storage {
            Storage::Native(v) => v.as_slice(),
            Storage::Foreign(region, _) => {
                let v: &Vec<T> = region;
                v.as_slice()
            },
        }
    }
}

/// Reads the region as `[T]`, in either mode.
impl<D, T> core::ops::Deref for ForeignVec<D, T> {
    type Target = [T];

    fn deref(&self) -> (r: &[T])
        ensures
            r@ == self@,
    {
        self.as_slice()
    }
}

/// The same as [`ForeignVec::from_vec`].
impl<D, T> From<Vec<T>> for ForeignVec<D, T> {
    fn from(data: Vec<T>) -> (r: Self)
        ensures
            r@ == data@,
            r.is_native(),
            r.owner() is None,
    {
        ForeignVec { storage: Storage::Native(data) }
    }
}

impl<D, T> vstd::std_specs::convert::FromSpecImpl<Vec<T>> for ForeignVec<D, T> {
    closed spec fn obeys_from_spec() -> bool {
        true
    }

    closed spec fn from_spec(data: Vec<T>) -> Self {
        ForeignVec { storage: Storage::Native(data) }
    }
}

/// `core::fmt::Formatter`, carried through to the slice's own `Debug`.
#[verifier::external_type_specification]
#[verifier::external_body]
pub struct ExFormatter<'a>(core::fmt::Formatter<'a>);

/// `core::fmt::Error`, handed back from the slice's own `Debug`.
#[verifier::external_type_specification]
#[verifier::external_body]
pub struct ExFmtError(core::fmt::Error);

/// Relies on `<[T] as core::fmt::Debug>::fmt`: writes the slice's rendering to `f`.
#[verifier::external_body]
fn debug_slice<T: core::fmt::Debug>(s: &[T], f: &mut core::fmt::Formatter<'_>) -> core::fmt::Result {
    core::fmt::Debug::fmt(s, f)
}

/// Renders the elements exactly as `[T]` does, whatever their origin.
impl<D, T: core::fmt::Debug> core::fmt::Debug for ForeignVec<D, T> {
    fn fmt(&self, f: &mut core::fmt::Formatter<'_>) -> core::fmt::Result {
        debug_slice(self.as_slice(), f)
    }
}

} // verus!
