//! A handle on emptied storage that records the element layout as numbers
//! and checks it when the storage is given a type again.
//!
//! Nothing here touches memory. The handle and the values around it describe
//! a buffer by its address, its capacity and the layout of its elements. The
//! caller that owns the memory asks the allocator for what a [`Request`]
//! names, gives back what a [`Block`] names, and builds vectors from what a
//! [`RawParts`] holds.
//!
//! A handle is used once: [`EmptyVec::typed`] and [`EmptyVec::release`] both
//! consume it, and nothing copies it or changes its capacity.

use crate::layout::{can_hold, element_layout, fits, layout_of, lemma_block_layout, max_bytes};
use crate::uninit_slice::EqSizeAlign;
use core::marker::PhantomData;
use vstd::arithmetic::power2::is_pow2;
use vstd::layout::{align_of, size_of, valid_layout};
use vstd::prelude::*;

verus! {

/// A handle on the storage of an emptied vector, without the element type.
pub struct EmptyVec {
    capacity: usize,
    address: usize,
    align: usize,
    size: usize,
}

/// The address, length and capacity of a vector of `T`, as plain numbers.
pub struct RawParts<T> {
    address: usize,
    length: usize,
    capacity: usize,
    element: PhantomData<T>,
}

/// A request for memory that has not been answered yet.
pub struct Request {
    capacity: usize,
    align: usize,
    size: usize,
}

/// The result of asking for a handle of a given capacity.
pub enum Reservation {
    /// No memory is needed: the handle is complete.
    Ready(EmptyVec),
    /// The allocator has to supply memory first.
    Pending(Request),
}

/// A piece of memory as the allocator knows it.
#[derive(Clone, Copy, Debug, PartialEq, Eq, Structural)]
pub struct Block {
    pub address: usize,
    pub bytes: usize,
    pub align: usize,
}

/// Conversion of a collection into the handle on its emptied storage.
pub trait Clear {
    type Empty;

    fn clear(self) -> Self::Empty;
}

/// What an [`EmptyVec`] stands for: a buffer of `capacity` elements of
/// `size` bytes each, aligned to `align`, that starts at `address` and holds
/// no element.
pub struct Handle {
    pub address: nat,
    pub capacity: nat,
    pub size: nat,
    pub align: nat,
}

/// What a [`RawParts`] stands for: the three numbers that make up a vector,
/// apart from its element type.
pub struct Parts {
    pub address: nat,
    pub length: nat,
    pub capacity: nat,
}

/// What a [`Request`] asks for: room for `capacity` elements of `size`
/// bytes each, aligned to `align`.
pub struct Demand {
    pub size: nat,
    pub align: nat,
    pub capacity: nat,
}

/// What a [`Reservation`] stands for.
pub enum Plan {
    Ready(Handle),
    Pending(Demand),
}

impl Handle {
    /// The invariant of a handle: a possible element layout, a capacity
    /// that fits in one object, and an address that is not null and is
    /// aligned for the elements.
    pub open spec fn wf(self) -> bool {
        &&& element_layout(self.size, self.align)
        &&& fits(self.size, self.capacity)
        &&& self.capacity <= usize::MAX
        &&& 0 < self.address <= usize::MAX
        &&& self.address % self.align == 0
    }

    /// Whether memory from the allocator stands behind the handle. Without
    /// capacity, or with elements that take no room, the address is only a
    /// placeholder.
    pub open spec fn owns_memory(self) -> bool {
        self.size != 0 && self.capacity != 0
    }

    /// The number of bytes behind the handle.
    pub open spec fn bytes(self) -> nat {
        self.capacity * self.size
    }

    /// The block that goes back to the allocator when the handle is given
    /// up, if there is one.
    pub open spec fn allocation(self) -> Option<Block> {
        if self.owns_memory() {
            Some(
                Block {
                    address: self.address as usize,
                    bytes: self.bytes() as usize,
                    align: self.align as usize,
                },
            )
        } else {
            None
        }
    }

    /// Whether the handle may become a buffer of elements with this layout.
    pub open spec fn accepts(self, size: nat, align: nat) -> bool {
        self.size == size && self.align == align
    }

    /// The parts of the empty vector that the handle becomes: its address,
    /// no element, its capacity.
    pub open spec fn typed(self) -> Parts {
        Parts { address: self.address, length: 0, capacity: self.capacity }
    }

    /// The handle that needs no memory. Its address is the alignment
    /// itself; its capacity is the largest there is where the elements take
    /// no room, and zero otherwise.
    pub open spec fn dangling(size: nat, align: nat) -> Handle {
        Handle {
            address: align,
            capacity: if size == 0 {
                max_bytes()
            } else {
                0
            },
            size,
            align,
        }
    }
}

impl Parts {
    /// What holds of the parts of every vector whose elements have the
    /// given layout: the address is not null and is aligned, the length is
    /// within the capacity, and the capacity fits in one object.
    pub open spec fn wf(self, size: nat, align: nat) -> bool {
        &&& element_layout(size, align)
        &&& 0 < self.address <= usize::MAX
        &&& self.address % align == 0
        &&& self.length <= self.capacity <= usize::MAX
        &&& fits(size, self.capacity)
    }

    /// The handle on the storage of these parts, once the elements are
    /// gone: same address, same capacity, and the layout they were made
    /// for.
    pub open spec fn erased(self, size: nat, align: nat) -> Handle {
        Handle { address: self.address, capacity: self.capacity, size, align }
    }
}

impl Demand {
    /// The invariant of a request: a possible element layout and a number
    /// of bytes that is positive and fits in one object.
    pub open spec fn wf(self) -> bool {
        &&& element_layout(self.size, self.align)
        &&& self.align <= usize::MAX
        &&& self.size != 0
        &&& self.capacity != 0
        &&& fits(self.size, self.capacity)
    }

    /// The number of bytes asked for.
    pub open spec fn bytes(self) -> nat {
        self.capacity * self.size
    }

    /// Whether the allocator may answer with this address.
    pub open spec fn admits(self, address: nat) -> bool {
        address != 0 && address % self.align == 0
    }

    /// The handle on the memory that the allocator gave at `address`.
    pub open spec fn granted(self, address: nat) -> Handle {
        Handle { address, capacity: self.capacity, size: self.size, align: self.align }
    }
}

/// What has to happen before a buffer of `capacity` elements of the given
/// layout exists: nothing, where no memory is needed, or else a request to
/// the allocator.
pub open spec fn plan(size: nat, align: nat, capacity: nat) -> Plan {
    if size == 0 || capacity == 0 {
        Plan::Ready(Handle::dangling(size, align))
    } else {
        Plan::Pending(Demand { size, align, capacity })
    }
}

impl View for EmptyVec {
    type V = Handle;

    closed spec fn view(&self) -> Handle {
        Handle {
            address: self.address as nat,
            capacity: self.capacity as nat,
            size: self.size as nat,
            align: self.align as nat,
        }
    }
}

impl<T> View for RawParts<T> {
    type V = Parts;

    closed spec fn view(&self) -> Parts {
        Parts {
            address: self.address as nat,
            length: self.length as nat,
            capacity: self.capacity as nat,
        }
    }
}

impl View for Request {
    type V = Demand;

    closed spec fn view(&self) -> Demand {
        Demand { size: self.size as nat, align: self.align as nat, capacity: self.capacity as nat }
    }
}

impl View for Reservation {
    type V = Plan;

    open spec fn view(&self) -> Plan {
        match self {
            Reservation::Ready(handle) => Plan::Ready(handle@),
            Reservation::Pending(request) => Plan::Pending(request@),
        }
    }
}

/// A power of two is positive.
proof fn lemma_align_positive(align: nat)
    requires
        is_pow2(align as int),
    ensures
        align > 0,
{
    reveal(is_pow2);
}

impl EmptyVec {
    #[verifier::type_invariant]
    spec fn inv(self) -> bool {
        self@.wf()
    }

    /// The handle that needs no memory, for elements of the given layout.
    fn dangling(size: usize, align: usize) -> (handle: Self)
        requires
            element_layout(size as nat, align as nat),
        ensures
            handle@ == Handle::dangling(size as nat, align as nat),
            handle@.wf(),
            !handle@.owns_memory(),
    {
        proof {
            lemma_align_positive(align as nat);
            assert(max_bytes() * 0 == 0);
            assert(0 * (size as nat) == 0);
        }
        let capacity: usize = if size == 0 {
            isize::MAX as usize
        } else {
            0
        };
        EmptyVec { capacity, address: align, align, size }
    }

    /// A handle for elements of type `T` that owns no memory.
    pub fn new<T>() -> (handle: Self)
        ensures
            handle@ == Handle::dangling(size_of::<T>(), align_of::<T>()),
            plan(size_of::<T>(), align_of::<T>(), 0) == Plan::Ready(handle@),
            handle@.wf(),
            !handle@.owns_memory(),
    {
        let (size, align): (usize, usize) = layout_of::<T>();
        Self::dangling(size, align)
    }

    /// Prepares a handle for `capacity` elements of type `T`.
    ///
    /// Elements that take no room need no memory, whatever the capacity
    /// asked for: the handle is ready and reports the largest capacity
    /// there is. A capacity of zero needs no memory either. In both cases
    /// the address is the alignment of `T`, which is not null and is never
    /// read through. Otherwise the result is the request to place with the
    /// allocator.
    pub fn with_capacity<T>(capacity: usize) -> (reservation: Reservation)
        requires
            fits(size_of::<T>(), capacity as nat),
        ensures
            reservation@ == plan(size_of::<T>(), align_of::<T>(), capacity as nat),
            reservation is Ready <==> size_of::<T>() == 0 || capacity == 0,
            match reservation {
                Reservation::Ready(handle) => handle@.wf() && !handle@.owns_memory(),
                Reservation::Pending(request) => request@.wf(),
            },
    {
        let (size, align): (usize, usize) = layout_of::<T>();
        if size == 0 || capacity == 0 {
            Reservation::Ready(Self::dangling(size, align))
        } else {
            Reservation::Pending(Request { capacity, align, size })
        }
    }

    /// Whether the handle was made for elements laid out as `T` is.
    pub fn accepts<T>(&self) -> (ok: bool)
        ensures
            ok == self@.accepts(size_of::<T>(), align_of::<T>()),
    {
        let (size, align): (usize, usize) = layout_of::<T>();
        self.size == size && self.align == align
    }

    /// Turns the handle into the parts of an empty vector of `T` on the
    /// same storage: same address, same capacity, no element.
    pub fn typed<T>(self) -> (parts: RawParts<T>)
        requires
            self@.accepts(size_of::<T>(), align_of::<T>()),
        ensures
            parts@ == self@.typed(),
            parts@.length == 0,
            parts@.wf(size_of::<T>(), align_of::<T>()),
    {
        proof {
            use_type_invariant(&self);
        }
        RawParts { address: self.address, length: 0, capacity: self.capacity, element: PhantomData }
    }

    /// Gives the handle up. The result is the block to hand back to the
    /// allocator, with the size and the alignment that it was asked for
    /// with; a handle that owns no memory leaves nothing to hand back.
    pub fn release(self) -> (freed: Option<Block>)
        ensures
            freed == self@.allocation(),
            freed matches Some(block) ==> block.bytes > 0 && valid_layout(block.bytes, block.align),
    {
        proof {
            use_type_invariant(&self);
            lemma_block_layout(self@.size, self@.align, self@.capacity);
            assert(self@.owns_memory() ==> self@.capacity * self@.size > 0) by (nonlinear_arith);
        }
        if self.size != 0 && self.capacity != 0 {
            Some(
                Block {
                    address: self.address,
                    bytes: self.capacity * self.size,
                    align: self.align,
                },
            )
        } else {
            None
        }
    }
}

impl<T> RawParts<T> {
    #[verifier::type_invariant]
    spec fn inv(self) -> bool {
        self@.wf(size_of::<T>(), align_of::<T>())
    }

    /// Takes three numbers as the parts of a vector of `T`, if a vector
    /// can have them.
    pub fn new(address: usize, length: usize, capacity: usize) -> (parts: Option<Self>)
        ensures
            parts is Some <==> (Parts {
                address: address as nat,
                length: length as nat,
                capacity: capacity as nat,
            }).wf(size_of::<T>(), align_of::<T>()),
            parts matches Some(p) ==> p@ == (Parts {
                address: address as nat,
                length: length as nat,
                capacity: capacity as nat,
            }),
    {
        let (_, align): (usize, usize) = layout_of::<T>();
        proof {
            lemma_align_positive(align as nat);
        }
        if address != 0 && address % align == 0 && length <= capacity && can_hold::<T>(capacity) {
            Some(RawParts { address, length, capacity, element: PhantomData })
        } else {
            None
        }
    }

    /// Where the storage starts.
    pub fn address(&self) -> (address: usize)
        ensures
            address == self@.address,
    {
        self.address
    }

    /// How many elements the vector holds.
    pub fn len(&self) -> (length: usize)
        ensures
            length == self@.length,
    {
        self.length
    }

    /// How many elements the storage has room for.
    pub fn capacity(&self) -> (capacity: usize)
        ensures
            capacity == self@.capacity,
    {
        self.capacity
    }
}

impl<T> Clear for RawParts<T> {
    type Empty = EmptyVec;

    /// The handle on the storage of the vector, once its elements are gone.
    /// It keeps the address and the capacity, and records the layout of
    /// `T`. The length plays no part: the handle stands for the storage
    /// alone, and whoever owns the elements drops them first.
    fn clear(self) -> (handle: EmptyVec)
        ensures
            handle@ == self@.erased(size_of::<T>(), align_of::<T>()),
            handle@.wf(),
    {
        proof {
            use_type_invariant(&self);
        }
        let (size, align): (usize, usize) = layout_of::<T>();
        EmptyVec { capacity: self.capacity, address: self.address, align, size }
    }
}

impl Request {
    #[verifier::type_invariant]
    spec fn inv(self) -> bool {
        self@.wf()
    }

    /// The number of bytes to ask the allocator for. Together with the
    /// alignment it is a layout that the allocator accepts.
    pub fn bytes(&self) -> (bytes: usize)
        ensures
            bytes == self@.bytes(),
            bytes > 0,
            valid_layout(bytes, self@.align as usize),
    {
        proof {
            use_type_invariant(self);
            lemma_block_layout(self@.size, self@.align, self@.capacity);
            assert(self@.capacity * self@.size > 0) by (nonlinear_arith)
                requires
                    self@.capacity > 0,
                    self@.size > 0,
            ;
        }
        self.capacity * self.size
    }

    /// The alignment to ask the allocator for.
    pub fn align(&self) -> (align: usize)
        ensures
            align == self@.align,
    {
        self.align
    }

    /// Completes the handle with the address that the allocator gave.
    ///
    /// An address that is null or not aligned as asked is no answer to the
    /// request, and no handle comes of it.
    pub fn fulfil(self, address: usize) -> (handle: Option<EmptyVec>)
        ensures
            handle is Some <==> self@.admits(address as nat),
            handle matches Some(h) ==> h@ == self@.granted(address as nat) && h@.wf()
                && h@.owns_memory(),
    {
        proof {
            use_type_invariant(&self);
            lemma_align_positive(self@.align);
        }
        if address != 0 && address % self.align == 0 {
            Some(
                EmptyVec {
                    capacity: self.capacity,
                    address,
                    align: self.align,
                    size: self.size,
                },
            )
        } else {
            None
        }
    }
}

/// Round trip: the storage of a vector of `T`, erased and then typed as `T`
/// again, is accepted and comes back at the same address with the same
/// capacity.
pub proof fn lemma_round_trip<T>(parts: Parts)
    requires
        parts.wf(size_of::<T>(), align_of::<T>()),
    ensures
        ({
            let handle = parts.erased(size_of::<T>(), align_of::<T>());
            &&& handle.wf()
            &&& handle.accepts(size_of::<T>(), align_of::<T>())
            &&& handle.typed().address == parts.address
            &&& handle.typed().capacity == parts.capacity
            &&& handle.typed().wf(size_of::<T>(), align_of::<T>())
        }),
{
}

/// Reuse across types: where `U` has the size and the alignment of `T`, the
/// storage of a vector of `T` is accepted for `U` and serves it at the same
/// address with the same capacity.
pub proof fn lemma_cross_type<T, U>(parts: Parts)
    requires
        parts.wf(size_of::<T>(), align_of::<T>()),
        size_of::<U>() == size_of::<T>(),
        align_of::<U>() == align_of::<T>(),
    ensures
        ({
            let handle = parts.erased(size_of::<T>(), align_of::<T>());
            &&& handle.accepts(size_of::<U>(), align_of::<U>())
            &&& handle.typed().address == parts.address
            &&& handle.typed().capacity == parts.capacity
            &&& handle.typed().wf(size_of::<U>(), align_of::<U>())
        }),
{
}

/// A pair of types that is declared interchangeable passes the check of
/// the handle: storage erased from `T` is accepted for `U`.
pub proof fn lemma_declared_pair_is_accepted<T, U: EqSizeAlign<T>>(parts: Parts)
    requires
        parts.wf(size_of::<T>(), align_of::<T>()),
    ensures
        parts.erased(size_of::<T>(), align_of::<T>()).accepts(size_of::<U>(), align_of::<U>()),
{
    U::same_layout();
}

/// Elements that take no room never need memory: every capacity fits, the
/// handle is ready at once, and it reports the largest capacity there is,
/// which is at least any capacity that one object could have.
pub proof fn lemma_zero_sized(align: nat, capacity: nat)
    ensures
        fits(0, capacity),
        plan(0, align, capacity) == Plan::Ready(Handle::dangling(0, align)),
        !Handle::dangling(0, align).owns_memory(),
        Handle::dangling(0, align).allocation() is None,
        Handle::dangling(0, align).capacity == max_bytes(),
        capacity <= max_bytes() ==> Handle::dangling(0, align).capacity >= capacity,
{
    assert(capacity * 0 == 0);
}

/// A handle without capacity needs no memory: it is ready at once, and its
/// address is the alignment, which is not null and is aligned.
pub proof fn lemma_no_capacity(size: nat, align: nat)
    requires
        element_layout(size, align),
        size != 0,
        align <= usize::MAX,
    ensures
        plan(size, align, 0) == Plan::Ready(Handle::dangling(size, align)),
        Handle::dangling(size, align).wf(),
        Handle::dangling(size, align).capacity == 0,
        Handle::dangling(size, align).address != 0,
        Handle::dangling(size, align).address % align == 0,
        Handle::dangling(size, align).allocation() is None,
{
    lemma_align_positive(align);
    assert(0 * size == 0);
}

/// What is released is what was acquired: the handle that answers a
/// request gives back a block at the address that the allocator gave, of
/// the size and the alignment that the request named.
pub proof fn lemma_release_matches_request(demand: Demand, address: nat)
    requires
        demand.wf(),
        demand.admits(address),
        address <= usize::MAX,
    ensures
        demand.granted(address).wf(),
        demand.bytes() <= usize::MAX,
        demand.granted(address).allocation() == Some(
            Block {
                address: address as usize,
                bytes: demand.bytes() as usize,
                align: demand.align as usize,
            },
        ),
{
    lemma_block_layout(demand.size, demand.align, demand.capacity);
    assert(demand.capacity <= demand.capacity * demand.size) by (nonlinear_arith)
        requires
            demand.size >= 1,
    ;
}

/// Typing a handle and erasing the result again, through any type with the
/// layout on record, leaves the handle as it was. So the block that is
/// released in the end has the size and the alignment of the block that
/// was acquired, whatever types the storage served in between.
pub proof fn lemma_release_survives_retyping(handle: Handle, size: nat, align: nat)
    requires
        handle.wf(),
        handle.accepts(size, align),
    ensures
        handle.typed().wf(size, align),
        handle.typed().erased(size, align) == handle,
        handle.typed().erased(size, align).allocation() == handle.allocation(),
{
}

} // verus!
