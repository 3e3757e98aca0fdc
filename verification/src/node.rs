//! The node itself: a fixed-capacity buffer with a tracked valid prefix.
//!
//! Storage is a vector that holds exactly the valid prefix and whose full
//! capacity is allocated once, up front, so that the base address stays
//! stable for the lifetime of the node. Elements abandoned by a shrinking
//! operation (`commit`, `clear`, `set_len`) are destructed at that point;
//! keeping the storage fully owned this way is what lets the node guarantee
//! that no uninitialized slot is ever readable.

use vstd::prelude::*;
use vstd::string::StringSliceAdditionalSpecFns;

verus! {

/// Number of elements a `write_slice` call accepts: as many as offered,
/// bounded by the free space of a node of capacity `cap` holding `contents`.
pub open spec fn accepted<W>(cap: nat, contents: Seq<W>, input: Seq<W>) -> int {
    vstd::math::min(input.len() as int, cap - contents.len())
}

/// Contents after `write_slice(input)` on a node of capacity `cap` holding
/// `contents`: the accepted prefix of `input` lands after `contents`.
pub open spec fn slice_write<W>(cap: nat, contents: Seq<W>, input: Seq<W>) -> Seq<W>
    recommends
        contents.len() <= cap,
{
    contents + input.subrange(0, accepted(cap, contents, input))
}

/// Contents after `commit(shrink_to)`: a pure shrink, and a no-op for any
/// target at or beyond the current length.
pub open spec fn committed<W>(contents: Seq<W>, shrink_to: nat) -> Seq<W> {
    if shrink_to < contents.len() {
        contents.subrange(0, shrink_to as int)
    } else {
        contents
    }
}

/// `produced` cut down to at most `cap` elements.
pub open spec fn clamped<W>(cap: nat, produced: Seq<W>) -> Seq<W> {
    if produced.len() > cap {
        produced.subrange(0, cap as int)
    } else {
        produced
    }
}

/// Error of the formatted-text append: the text did not fit in the free
/// space, and nothing was appended.
#[derive(Clone, Copy, PartialEq, Eq, Debug)]
pub struct FmtError;

/// A fixed-capacity buffer whose valid prefix (the view `self@`) only ever
/// grows into storage that is known to be initialized, and shrinks on
/// demand. The capacity is fixed for the node's lifetime.
pub trait DMANode<T: Default>: View<V = Seq<T>> + Sized {
    /// Maximum number of elements the node can ever hold.
    spec fn capacity() -> nat;

    /// Creates a new, empty node.
    fn new() -> (r: Self)
        ensures
            r@ =~= Seq::<T>::empty(),
    ;

    /// Makes the whole storage valid by filling every slot past the current
    /// prefix with the element type's default value, and extends the prefix
    /// to the full capacity, so that the storage can be written in place and
    /// `commit` can then trim the prefix to what was actually produced.
    fn write(&mut self)
        ensures
            final(self)@.len() == Self::capacity(),
            final(self)@.subrange(0, old(self)@.len() as int) =~= old(self)@,
            forall|i: int|
                old(self)@.len() <= i < final(self)@.len() ==> call_ensures(
                    T::default,
                    (),
                    #[trigger] final(self)@[i],
                ),
    ;

    /// Shrinks the valid prefix to `shrink_to` elements; a target at or
    /// beyond the current length is ignored, so the prefix never grows past
    /// what is known to be initialized.
    fn commit(&mut self, shrink_to: usize)
        ensures
            final(self)@ =~= committed(old(self)@, shrink_to as nat),
    ;

    /// Copies as much of `buf` as fits into the free space, extending the
    /// valid prefix, and returns how many elements were copied. An input
    /// larger than the free space is silently truncated.
    fn write_slice(&mut self, buf: &[T]) -> (count: usize) where T: Copy
        ensures
            count == accepted(Self::capacity(), old(self)@, buf@),
            final(self)@ =~= slice_write(Self::capacity(), old(self)@, buf@),
    ;

    /// Empties the node.
    fn clear(&mut self)
        ensures
            final(self)@ =~= Seq::<T>::empty(),
    ;

    /// Length of the valid prefix.
    fn len(&self) -> (r: usize)
        ensures
            r == self@.len(),
            self@.len() <= Self::capacity(),
    ;

    /// Whether the valid prefix is empty.
    fn is_empty(&self) -> (r: bool)
        ensures
            r == (self@.len() == 0),
    ;

    /// Sets the length of the valid prefix directly. The caller must have
    /// ensured that the first `len` slots of the storage hold valid values;
    /// here that is exactly the slots of the current prefix, which is what
    /// the precondition demands.
    fn set_len(&mut self, len: usize)
        requires
            len <= old(self)@.len(),
        ensures
            final(self)@ =~= old(self)@.subrange(0, len as int),
    ;

    /// Base address of the storage, for handing to an external transfer
    /// mechanism. Purely observational; nothing is promised of the value.
    /// The address stays valid only while the node is neither moved nor
    /// dropped, and owner-side mutation must wait until an in-flight
    /// external write has finished.
    fn buffer_address_for_dma(&self) -> usize;

    /// The capacity, as a value.
    fn max_len(&self) -> (r: usize)
        ensures
            r == Self::capacity(),
    ;

    /// Number of free element slots left behind the valid prefix.
    fn free(&self) -> (r: usize)
        ensures
            r + self@.len() == Self::capacity(),
    {
        let cap: usize = self.max_len();
        let len: usize = self.len();
        cap - len
    }
}

/// A node of capacity `N` holding elements of type `W`.
///
/// The view `self@` is the valid prefix. Its length never exceeds `N`.
pub struct Node<const N: usize, W> {
    buf: Vec<W>,
}

impl<const N: usize, W> View for Node<N, W> {
    type V = Seq<W>;

    closed spec fn view(&self) -> Seq<W> {
        self.buf@
    }
}

impl<const N: usize, W> Node<N, W> {
    #[verifier::type_invariant]
    spec fn wf(&self) -> bool {
        self.buf@.len() <= N
    }

    /// Read view: the valid prefix, as a slice of length `self@.len()`.
    pub fn as_slice(&self) -> (r: &[W])
        ensures
            r@ =~= self@,
    {
        self.buf.as_slice()
    }

    /// Mutable view: overwrites the element at index `i` of the valid
    /// prefix. Indices at or beyond the prefix are not reachable.
    pub fn write_at(&mut self, i: usize, w: W)
        requires
            i < old(self)@.len(),
        ensures
            final(self)@ =~= old(self)@.update(i as int, w),
    {
        proof {
            use_type_invariant(&*self);
        }
        self.buf[i] = w;
    }
}

impl<const N: usize, W> Node<N, W> {
    /// Hands the whole storage and the current prefix length to `f`, which
    /// returns the storage it produced; the node keeps that, cut down to the
    /// capacity. This is the escape hatch for bulk writes that bypass
    /// `write`: the storage handed back is valid by construction, so the
    /// prefix extends exactly over what `f` produced.
    pub fn write_with<F: FnOnce(Vec<W>, usize) -> Vec<W>>(&mut self, f: F)
        requires
            forall|b: Vec<W>|
                b@ == old(self)@ ==> #[trigger] call_requires(
                    f,
                    (b, old(self)@.len() as usize),
                ),
        ensures
            exists|b: Vec<W>, produced: Vec<W>|
                b@ == old(self)@ && #[trigger] call_ensures(
                    f,
                    (b, old(self)@.len() as usize),
                    produced,
                ) && final(self)@ =~= clamped(N as nat, produced@),
    {
        proof {
            use_type_invariant(&*self);
        }
        let mut buf: Vec<W> = Vec::new();
        core::mem::swap(&mut buf, &mut self.buf);
        let ghost prev = buf;
        let len: usize = buf.len();
        proof {
            // Instantiates the precondition's quantifier at the storage
            // actually handed to `f`.
            assert(call_requires(f, (prev, old(self)@.len() as usize)));
        }
        let mut out = f(buf, len);
        let ghost produced = out;
        if out.len() > N {
            out.truncate(N);
        }
        self.buf = out;
        proof {
            // `prev` and `produced` witness the postcondition's quantifier.
            assert(prev@ == old(self)@ && call_ensures(
                f,
                (prev, old(self)@.len() as usize),
                produced,
            ) && self@ =~= clamped(N as nat, produced@));
        }
    }
}

impl<const N: usize> Node<N, u8> {
    /// Formatted-text append for byte nodes: appends the UTF-8 bytes of `s`
    /// if they all fit in the free space, and appends nothing otherwise.
    pub fn write_str(&mut self, s: &str) -> (r: Result<(), FmtError>)
        ensures
            r is Ok <==> old(self)@.len() + s.spec_bytes().len() <= N,
            r is Ok ==> final(self)@ =~= old(self)@ + s.spec_bytes(),
            r is Err ==> final(self)@ =~= old(self)@,
    {
        let bytes = s.as_bytes();
        let free: usize = self.free();
        if bytes.len() > free {
            Err(FmtError)
        } else {
            self.write_slice(bytes);
            Ok(())
        }
    }
}

/// Relies on `<[W]>::as_ptr`: returns the slice's base address as an
/// integer. Nothing is assumed about the value, which depends on where the
/// allocator placed the storage.
#[verifier::external_body]
fn storage_address<W>(s: &[W]) -> usize {
    s.as_ptr() as usize
}

impl<const N: usize, W: Default> DMANode<W> for Node<N, W> {
    open spec fn capacity() -> nat {
        N as nat
    }

    fn new() -> (r: Self) {
        // The full capacity is allocated here, once, so that later growth of
        // the valid prefix never relocates the storage.
        Node { buf: Vec::with_capacity(N) }
    }

    fn write(&mut self) {
        proof {
            use_type_invariant(&*self);
        }
        let ghost orig = self@;
        let mut buf: Vec<W> = Vec::new();
        core::mem::swap(&mut buf, &mut self.buf);
        while buf.len() < N
            invariant
                orig.len() <= buf@.len() <= N,
                buf@.subrange(0, orig.len() as int) =~= orig,
                forall|i: int|
                    orig.len() <= i < buf@.len() ==> call_ensures(
                        W::default,
                        (),
                        #[trigger] buf@[i],
                    ),
            decreases N - buf@.len(),
        {
            buf.push(W::default());
        }
        self.buf = buf;
    }

    fn commit(&mut self, shrink_to: usize) {
        proof {
            use_type_invariant(&*self);
        }
        if shrink_to < self.buf.len() {
            let mut buf: Vec<W> = Vec::new();
            core::mem::swap(&mut buf, &mut self.buf);
            buf.truncate(shrink_to);
            self.buf = buf;
        }
    }

    fn write_slice(&mut self, buf: &[W]) -> (count: usize) where W: Copy {
        proof {
            use_type_invariant(&*self);
        }
        let ghost orig = self@;
        let mut dst: Vec<W> = Vec::new();
        core::mem::swap(&mut dst, &mut self.buf);
        let free: usize = N - dst.len();
        let count: usize = if buf.len() < free {
            buf.len()
        } else {
            free
        };
        let mut i: usize = 0;
        while i < count
            invariant
                i <= count,
                count <= buf@.len(),
                orig.len() + count <= N,
                dst@ =~= orig + buf@.subrange(0, i as int),
            decreases count - i,
        {
            dst.push(buf[i]);
            i += 1;
        }
        self.buf = dst;
        count
    }

    fn clear(&mut self) {
        // Abandoned elements are destructed here rather than left in place:
        // the storage keeps its allocation, so the address is unaffected.
        let mut buf: Vec<W> = Vec::new();
        core::mem::swap(&mut buf, &mut self.buf);
        buf.clear();
        self.buf = buf;
    }

    fn len(&self) -> (r: usize) {
        proof {
            use_type_invariant(&*self);
        }
        self.buf.len()
    }

    fn is_empty(&self) -> (r: bool) {
        self.buf.len() == 0
    }

    fn set_len(&mut self, len: usize) {
        proof {
            use_type_invariant(&*self);
        }
        let mut buf: Vec<W> = Vec::new();
        core::mem::swap(&mut buf, &mut self.buf);
        buf.truncate(len);
        self.buf = buf;
    }

    fn buffer_address_for_dma(&self) -> usize {
        storage_address(self.buf.as_slice())
    }

    fn max_len(&self) -> (r: usize) {
        N
    }
}

} // verus!
