//! Byte buffers that libavif fills, such as encoded AVIF files.

use vstd::prelude::*;

use core::cmp::Ordering;
use vstd::std_specs::cmp::{PartialEqSpec, PartialEqSpecImpl, PartialOrdSpec, PartialOrdSpecImpl};


verus! {

/// How two byte strings compare in lexicographic order.
#[derive(Debug, Clone, Copy, PartialEq, Eq, Structural)]
pub enum ByteOrder {
    Less,
    Equal,
    Greater,
}

/// The lexicographic order of `a` and `b`, as slices of bytes compare: the
/// first differing byte decides, and a proper prefix comes first.
pub open spec fn byte_order(a: Seq<u8>, b: Seq<u8>) -> ByteOrder
    decreases a.len(),
{
    if a.len() == 0 {
        if b.len() == 0 {
            ByteOrder::Equal
        } else {
            ByteOrder::Less
        }
    } else if b.len() == 0 {
        ByteOrder::Greater
    } else if a[0] < b[0] {
        ByteOrder::Less
    } else if a[0] > b[0] {
        ByteOrder::Greater
    } else {
        byte_order(a.drop_first(), b.drop_first())
    }
}

/// Byte strings compare equal exactly when they are the same.
pub proof fn lemma_byte_order_equal(a: Seq<u8>, b: Seq<u8>)
    ensures
        (byte_order(a, b) == ByteOrder::Equal) <==> a == b,
    decreases a.len(),
{
    if a.len() == 0 && b.len() == 0 {
        assert(a =~= b);
    }
    if a.len() > 0 && b.len() > 0 && a[0] == b[0] {
        lemma_byte_order_equal(a.drop_first(), b.drop_first());
        if a.drop_first() == b.drop_first() {
            assert(a =~= seq![a[0]] + a.drop_first());
            assert(b =~= seq![b[0]] + b.drop_first());
        }
        if a == b {
            assert(a.drop_first() =~= b.drop_first());
        }
    }
}

/// Swapping the byte strings swaps "before" and "after".
pub proof fn lemma_byte_order_antisymmetric(a: Seq<u8>, b: Seq<u8>)
    ensures
        (byte_order(a, b) == ByteOrder::Less) <==> (byte_order(b, a) == ByteOrder::Greater),
        (byte_order(a, b) == ByteOrder::Equal) <==> (byte_order(b, a) == ByteOrder::Equal),
    decreases a.len(),
{
    if a.len() > 0 && b.len() > 0 && a[0] == b[0] {
        lemma_byte_order_antisymmetric(a.drop_first(), b.drop_first());
    }
}

/// The order of byte strings is transitive.
pub proof fn lemma_byte_order_transitive(a: Seq<u8>, b: Seq<u8>, c: Seq<u8>)
    requires
        byte_order(a, b) == ByteOrder::Less,
        byte_order(b, c) == ByteOrder::Less,
    ensures
        byte_order(a, c) == ByteOrder::Less,
    decreases a.len(),
{
    if a.len() > 0 && b.len() > 0 && c.len() > 0 && a[0] == b[0] && b[0] == c[0] {
        lemma_byte_order_transitive(a.drop_first(), b.drop_first(), c.drop_first());
    }
}

/// The first differing byte decides the order by its unsigned value, and a
/// proper prefix comes first: if `a` and `b` agree before index `i`, then
/// `a` comes first when `a[i] < b[i]` or when `a` ends at `i` and `b` does
/// not, and `a` comes after when `a[i] > b[i]`.
pub proof fn lemma_byte_order_first_difference(a: Seq<u8>, b: Seq<u8>, i: int)
    requires
        0 <= i <= a.len(),
        i <= b.len(),
        forall|k: int| 0 <= k < i ==> a[k] == b[k],
    ensures
        i < a.len() && i < b.len() && a[i] < b[i] ==> byte_order(a, b) == ByteOrder::Less,
        i < a.len() && i < b.len() && a[i] > b[i] ==> byte_order(a, b) == ByteOrder::Greater,
        i == a.len() && i < b.len() ==> byte_order(a, b) == ByteOrder::Less,
        i == b.len() && i < a.len() ==> byte_order(a, b) == ByteOrder::Greater,
    decreases i,
{
    if i > 0 {
        assert(a[0] == b[0]);
        let (a1, b1) = (a.drop_first(), b.drop_first());
        assert forall|k: int| 0 <= k < i - 1 implies a1[k] == b1[k] by {
            assert(a[k + 1] == b[k + 1]);
        }
        lemma_byte_order_first_difference(a1, b1, i - 1);
    }
}

/// Single bytes order by their unsigned values.
pub proof fn lemma_byte_order_single(x: u8, y: u8)
    ensures
        (byte_order(seq![x], seq![y]) == ByteOrder::Less) <==> x < y,
        (byte_order(seq![x], seq![y]) == ByteOrder::Greater) <==> x > y,
{
    lemma_byte_order_first_difference(seq![x], seq![y], 0);
    if x == y {
        lemma_byte_order_equal(seq![x], seq![y]);
    }
}

/// The lexicographic order of `a` and `b`.
pub fn compare_bytes(a: &[u8], b: &[u8]) -> (r: ByteOrder)
    ensures
        r == byte_order(a@, b@),
{
    let mut i: usize = 0;
    assert(a@.skip(0) =~= a@ && b@.skip(0) =~= b@);
    while i < a.len() && i < b.len()
        invariant
            i <= a@.len(),
            i <= b@.len(),
            byte_order(a@, b@) == byte_order(a@.skip(i as int), b@.skip(i as int)),
        decreases a@.len() - i,
    {
        let ghost (sa, sb) = (a@.skip(i as int), b@.skip(i as int));
        assert(sa[0] == a@[i as int] && sb[0] == b@[i as int]);
        if a[i] < b[i] {
            return ByteOrder::Less;
        }
        if a[i] > b[i] {
            return ByteOrder::Greater;
        }
        assert(sa.drop_first() =~= a@.skip(i + 1));
        assert(sb.drop_first() =~= b@.skip(i + 1));
        i = i + 1;
    }
    if i < b.len() {
        ByteOrder::Less
    } else if i < a.len() {
        ByteOrder::Greater
    } else {
        ByteOrder::Equal
    }
}

/// Whether `a` and `b` hold the same bytes.
pub fn same_bytes(a: &[u8], b: &[u8]) -> (r: bool)
    ensures
        r == (a@ == b@),
{
    if a.len() != b.len() {
        return false;
    }
    let mut i: usize = 0;
    while i < a.len()
        invariant
            a@.len() == b@.len(),
            i <= a@.len(),
            forall|k: int| 0 <= k < i ==> a@[k] == b@[k],
        decreases a@.len() - i,
    {
        if a[i] != b[i] {
            return false;
        }
        i = i + 1;
    }
    assert(a@ =~= b@);
    true
}

/// An owned byte buffer populated by libavif (e.g. encoded AVIF bytes).
///
/// Buffers compare, order and hash by their bytes, as byte slices do.
#[derive(Debug, Hash, Ord)]
pub struct Data {
    bytes: Vec<u8>,
}

impl View for Data {
    type V = Seq<u8>;

    /// The bytes held.
    closed spec fn view(&self) -> Seq<u8> {
        self.bytes@
    }
}

impl Data {
    /// Takes over the bytes of a buffer that libavif filled.
    pub(crate) fn from_bytes(bytes: Vec<u8>) -> (d: Self)
        ensures
            d@ == bytes@,
    {
        Data { bytes }
    }

    /// The bytes held.
    pub fn as_slice(&self) -> (s: &[u8])
        ensures
            s@ == self@,
    {
        self.bytes.as_slice()
    }

    /// The bytes held, for changing them in place.
    pub fn as_mut_slice(&mut self) -> (s: &mut [u8])
        ensures
            s@ == old(self)@,
            final(self)@ == final(s)@,
    {
        self.bytes.as_mut_slice()
    }

    /// Whether two buffers hold the same bytes.
    pub fn same_as(&self, other: &Self) -> (r: bool)
        ensures
            r == (self@ == other@),
    {
        same_bytes(self.as_slice(), other.as_slice())
    }

    /// How two buffers compare in lexicographic order of their bytes.
    pub fn order(&self, other: &Self) -> (r: ByteOrder)
        ensures
            r == byte_order(self@, other@),
    {
        compare_bytes(self.as_slice(), other.as_slice())
    }
}

impl AsRef<[u8]> for Data {
    fn as_ref(&self) -> (s: &[u8])
        ensures
            s@ == self@,
    {
        self.as_slice()
    }
}

impl AsMut<[u8]> for Data {
    fn as_mut(&mut self) -> (s: &mut [u8])
        ensures
            s@ == old(self)@,
            final(self)@ == final(s)@,
    {
        self.as_mut_slice()
    }
}

/// The bytes of a slice.
pub open spec fn slice_bytes(s: &[u8]) -> Seq<u8> {
    s@
}

/// The bytes a buffer holds.
pub open spec fn data_bytes(d: &Data) -> Seq<u8> {
    d@
}

impl core::borrow::Borrow<[u8]> for Data {
    fn borrow(&self) -> (s: &[u8])
        ensures
            slice_bytes(s) == data_bytes(self),
    {
        self.as_slice()
    }
}

impl core::borrow::BorrowMut<[u8]> for Data {
    fn borrow_mut(&mut self) -> (s: &mut [u8])
        ensures
            slice_bytes(s) == data_bytes(old(self)),
            data_bytes(final(self)) == slice_bytes(final(s)),
    {
        self.as_mut_slice()
    }
}

impl core::ops::DerefMut for Data {
    fn deref_mut(&mut self) -> (s: &mut [u8])
        ensures
            s@ == old(self)@,
            final(self)@ == final(s)@,
    {
        self.as_mut_slice()
    }
}

impl core::ops::Deref for Data {
    type Target = [u8];

    fn deref(&self) -> (s: &[u8])
        ensures
            s@ == self@,
    {
        self.as_slice()
    }
}

impl PartialEq for Data {
    fn eq(&self, other: &Self) -> (r: bool) {
        self.same_as(other)
    }
}

impl PartialEqSpecImpl for Data {
    open spec fn obeys_eq_spec() -> bool {
        true
    }

    open spec fn eq_spec(&self, other: &Self) -> bool {
        self@ == other@
    }
}

impl Eq for Data {
}

/// The `Ordering` that stands for a byte order.
pub open spec fn ordering_of(o: ByteOrder) -> Ordering {
    match o {
        ByteOrder::Less => Ordering::Less,
        ByteOrder::Equal => Ordering::Equal,
        ByteOrder::Greater => Ordering::Greater,
    }
}

impl PartialOrd for Data {
    fn partial_cmp(&self, other: &Self) -> (r: Option<Ordering>) {
        let o = self.order(other);
        match o {
            ByteOrder::Less => Some(Ordering::Less),
            ByteOrder::Equal => Some(Ordering::Equal),
            ByteOrder::Greater => Some(Ordering::Greater),
        }
    }
}

/// Buffers compare as equal exactly when they are equal, and swapping them
/// reverses their order.
pub proof fn lemma_data_order(a: &Data, b: &Data)
    ensures
        (PartialOrdSpec::partial_cmp_spec(a, b) == Some(Ordering::Equal))
            == PartialEqSpec::eq_spec(a, b),
        (PartialOrdSpec::partial_cmp_spec(a, b) == Some(Ordering::Less))
            == (PartialOrdSpec::partial_cmp_spec(b, a) == Some(Ordering::Greater)),
{
    lemma_byte_order_equal(a@, b@);
    lemma_byte_order_antisymmetric(a@, b@);
}

impl PartialOrdSpecImpl for Data {
    open spec fn obeys_partial_cmp_spec() -> bool {
        true
    }

    open spec fn partial_cmp_spec(&self, other: &Self) -> Option<Ordering> {
        Some(ordering_of(byte_order(self@, other@)))
    }
}

} // verus!
