//! Dense n-dimensional arrays as the store sees them: an element type, a shape, and the elements
//! in logical order (the rightmost index varies fastest).

use vstd::prelude::*;

verus! {

/// The element types a dataset or an attribute can have.
#[derive(Debug, Clone, Copy, PartialEq, Eq, Structural)]
pub enum Datatype {
    /// Signed integer of one byte.
    Int8,
    /// Signed integer of two bytes.
    Int16,
    /// Signed integer of four bytes.
    Int32,
    /// Signed integer of eight bytes.
    Int64,
    /// Unsigned integer of one byte.
    UInt8,
    /// Unsigned integer of two bytes.
    UInt16,
    /// Unsigned integer of four bytes.
    UInt32,
    /// Unsigned integer of eight bytes.
    UInt64,
    /// IEEE 754 binary32.
    Float32,
    /// IEEE 754 binary64.
    Float64,
    /// Anything else a store may hold (strings, compounds, enumerations, ...).
    Other,
}

impl Datatype {
    /// Whether the two are one type.
    pub fn same(self, other: Datatype) -> (same: bool)
        ensures
            same == (self == other),
    {
        match (self, other) {
            (Datatype::Int8, Datatype::Int8) => true,
            (Datatype::Int16, Datatype::Int16) => true,
            (Datatype::Int32, Datatype::Int32) => true,
            (Datatype::Int64, Datatype::Int64) => true,
            (Datatype::UInt8, Datatype::UInt8) => true,
            (Datatype::UInt16, Datatype::UInt16) => true,
            (Datatype::UInt32, Datatype::UInt32) => true,
            (Datatype::UInt64, Datatype::UInt64) => true,
            (Datatype::Float32, Datatype::Float32) => true,
            (Datatype::Float64, Datatype::Float64) => true,
            (Datatype::Other, Datatype::Other) => true,
            _ => false,
        }
    }
}

/// What one axis contributes to a product of extents.
pub open spec fn extent(size: usize, skip_empty: bool) -> nat {
    if skip_empty && size == 0 {
        1
    } else {
        size as nat
    }
}

/// The product of the extents of `shape`; with `skip_empty`, of those that are not zero.
pub open spec fn extents_product(shape: Seq<usize>, skip_empty: bool) -> nat
    decreases shape.len(),
{
    if shape.len() == 0 {
        1
    } else {
        extents_product(shape.drop_last(), skip_empty) * extent(shape.last(), skip_empty)
    }
}

/// The number of elements of an array of the given shape.
pub open spec fn volume(shape: Seq<usize>) -> nat {
    extents_product(shape, false)
}

/// The product of the axis lengths that are not zero.
pub open spec fn nonzero_volume(shape: Seq<usize>) -> nat {
    extents_product(shape, true)
}

/// A shape and a number of elements that an array can have: the elements fill the shape, and
/// the axis lengths that are not zero multiply to no more than `isize::MAX`.
pub open spec fn fits(shape: Seq<usize>, len: nat) -> bool {
    nonzero_volume(shape) <= isize::MAX && volume(shape) == len
}

/// `index` names an element of an array of the given shape.
pub open spec fn in_bounds(shape: Seq<usize>, index: Seq<int>) -> bool {
    &&& index.len() == shape.len()
    &&& forall|axis: int| 0 <= axis < shape.len() ==> 0 <= #[trigger] index[axis] < shape[axis]
}

/// The position, in logical order, of the element at `index`.
pub open spec fn offset(shape: Seq<usize>, index: Seq<int>) -> int
    decreases shape.len(),
{
    if shape.len() == 0 {
        0
    } else {
        offset(shape.drop_last(), index.drop_last()) * shape.last() + index.last()
    }
}

/// The index of the element at `position` in logical order.
pub open spec fn unravel(shape: Seq<usize>, position: int) -> Seq<int>
    decreases shape.len(),
{
    if shape.len() == 0 {
        Seq::empty()
    } else {
        unravel(shape.drop_last(), position / (shape.last() as int)).push(
            position % (shape.last() as int),
        )
    }
}

/// Every element has a position before the number of elements.
pub proof fn offset_in_range(shape: Seq<usize>, index: Seq<int>)
    requires
        in_bounds(shape, index),
    ensures
        0 <= offset(shape, index) < volume(shape),
    decreases shape.len(),
{
    if shape.len() > 0 {
        let rest = shape.drop_last();
        let head = index.drop_last();
        assert(in_bounds(rest, head)) by {
            assert forall|axis: int| 0 <= axis < rest.len() implies 0 <= #[trigger] head[axis]
                < rest[axis] by {
                assert(head[axis] == index[axis]);
            }
        }
        offset_in_range(rest, head);
        let last = shape.last() as int;
        let inner = offset(rest, head);
        let count = volume(rest) as int;
        assert(0 <= index[shape.len() - 1] < last);
        assert(0 <= inner * last && inner * last + last <= count * last) by (nonlinear_arith)
            requires
                0 <= inner < count,
                0 < last,
        ;
    }
}

/// Every position before the number of elements is that of exactly the element `unravel` names.
pub proof fn unravel_inverts_offset(shape: Seq<usize>, position: int)
    requires
        0 <= position < volume(shape),
    ensures
        in_bounds(shape, unravel(shape, position)),
        offset(shape, unravel(shape, position)) == position,
    decreases shape.len(),
{
    if shape.len() > 0 {
        let rest = shape.drop_last();
        let last = shape.last() as int;
        let count = volume(rest) as int;
        assert(0 < last && 0 <= position / last < count && 0 <= position % last < last && position
            == (position / last) * last + position % last) by (nonlinear_arith)
            requires
                0 <= position < count * last,
                0 <= last,
                0 <= count,
        ;
        unravel_inverts_offset(rest, position / last);
        let head = unravel(rest, position / last);
        let index = unravel(shape, position);
        assert(index.drop_last() =~= head);
        assert forall|axis: int| 0 <= axis < shape.len() implies 0 <= #[trigger] index[axis]
            < shape[axis] by {
            if axis < rest.len() {
                assert(index[axis] == head[axis]);
            }
        }
    }
}

/// Two elements at one position are one element.
pub proof fn offset_injective(shape: Seq<usize>, a: Seq<int>, b: Seq<int>)
    requires
        in_bounds(shape, a),
        in_bounds(shape, b),
        offset(shape, a) == offset(shape, b),
    ensures
        a == b,
    decreases shape.len(),
{
    if shape.len() > 0 {
        let rest = shape.drop_last();
        let last = shape.last() as int;
        let (ha, hb) = (a.drop_last(), b.drop_last());
        assert(in_bounds(rest, ha)) by {
            assert forall|axis: int| 0 <= axis < rest.len() implies 0 <= #[trigger] ha[axis]
                < rest[axis] by {
                assert(ha[axis] == a[axis]);
            }
        }
        assert(in_bounds(rest, hb)) by {
            assert forall|axis: int| 0 <= axis < rest.len() implies 0 <= #[trigger] hb[axis]
                < rest[axis] by {
                assert(hb[axis] == b[axis]);
            }
        }
        let (oa, ob) = (offset(rest, ha), offset(rest, hb));
        let (la, lb) = (a.last(), b.last());
        assert(0 <= a[shape.len() - 1] < last && 0 <= b[shape.len() - 1] < last);
        assert(oa == ob && la == lb) by (nonlinear_arith)
            requires
                oa * last + la == ob * last + lb,
                0 <= la < last,
                0 <= lb < last,
        ;
        offset_injective(rest, ha, hb);
        assert(a =~= ha.push(la));
        assert(b =~= hb.push(lb));
    } else {
        assert(a =~= b);
    }
}

/// The product of the extents of two shapes joined is the product of their products.
pub proof fn extents_product_of_joined(front: Seq<usize>, back: Seq<usize>, skip_empty: bool)
    ensures
        extents_product(front + back, skip_empty) == extents_product(front, skip_empty)
            * extents_product(back, skip_empty),
    decreases back.len(),
{
    let f = extents_product(front, skip_empty);
    if back.len() == 0 {
        assert(front + back =~= front);
        assert(f * 1 == f) by (nonlinear_arith);
    } else {
        let joined = front + back;
        assert(joined.drop_last() =~= front + back.drop_last());
        assert(joined.last() == back.last());
        extents_product_of_joined(front, back.drop_last(), skip_empty);
        let b = extents_product(back.drop_last(), skip_empty);
        let e = extent(back.last(), skip_empty);
        assert(extents_product(joined, skip_empty) == (f * b) * e);
        assert((f * b) * e == f * (b * e)) by (nonlinear_arith);
    }
}

/// Reversing the axes keeps the product of the extents.
pub proof fn extents_product_of_reversed(shape: Seq<usize>, skip_empty: bool)
    ensures
        extents_product(shape.reverse(), skip_empty) == extents_product(shape, skip_empty),
    decreases shape.len(),
{
    if shape.len() > 0 {
        let rest = shape.drop_last();
        let tip = seq![shape.last()];
        assert(shape.reverse() =~= tip + rest.reverse());
        extents_product_of_joined(tip, rest.reverse(), skip_empty);
        extents_product_of_reversed(rest, skip_empty);
        let r = extents_product(rest, skip_empty);
        let e = extent(shape.last(), skip_empty);
        assert(extents_product(tip, skip_empty) == e) by {
            assert(tip.drop_last() =~= Seq::<usize>::empty());
            assert(extents_product(tip.drop_last(), skip_empty) == 1);
            assert(tip.last() == shape.last());
            assert(1 * e == e) by (nonlinear_arith);
        }
        assert(e * r == r * e) by (nonlinear_arith);
    } else {
        assert(shape.reverse() =~= shape);
    }
}

/// An index within a shape, reversed, is within the reversed shape.
pub proof fn in_bounds_reversed(shape: Seq<usize>, index: Seq<int>)
    requires
        in_bounds(shape, index),
    ensures
        in_bounds(shape.reverse(), index.reverse()),
{
    let (rs, ri) = (shape.reverse(), index.reverse());
    assert forall|axis: int| 0 <= axis < rs.len() implies 0 <= #[trigger] ri[axis] < rs[axis] by {
        assert(ri[axis] == index[shape.len() - 1 - axis]);
        assert(rs[axis] == shape[shape.len() - 1 - axis]);
    }
}

/// The product of the extents that are not zero is at least one.
pub proof fn nonzero_volume_positive(shape: Seq<usize>)
    ensures
        nonzero_volume(shape) >= 1,
    decreases shape.len(),
{
    if shape.len() > 0 {
        nonzero_volume_positive(shape.drop_last());
        let r = nonzero_volume(shape.drop_last());
        let e = extent(shape.last(), true);
        assert(r * e >= 1) by (nonlinear_arith)
            requires
                r >= 1,
                e >= 1,
        ;
    }
}

/// The product of the extents that are not zero does not shrink as axes are added.
pub proof fn nonzero_volume_of_prefix(shape: Seq<usize>, axes: int)
    requires
        0 <= axes <= shape.len(),
    ensures
        nonzero_volume(shape.take(axes)) <= nonzero_volume(shape),
{
    let (front, back) = (shape.take(axes), shape.skip(axes));
    assert(shape =~= front + back);
    extents_product_of_joined(front, back, true);
    nonzero_volume_positive(back);
    let (f, b) = (nonzero_volume(front), nonzero_volume(back));
    assert(f <= f * b) by (nonlinear_arith)
        requires
            b >= 1,
            f >= 0,
    ;
}

/// An array as a mathematical value.
pub struct ArrayView {
    /// The type of the elements.
    pub datatype: Datatype,
    /// The length of each axis.
    pub shape: Seq<usize>,
    /// The elements in logical order, each as the bit pattern of its value.
    pub elements: Seq<u64>,
}

impl ArrayView {
    /// The elements fill the shape.
    pub open spec fn well_formed(self) -> bool {
        fits(self.shape, self.elements.len())
    }

    /// The number of axes.
    pub open spec fn ndim(self) -> nat {
        self.shape.len()
    }

    /// The element at `index`.
    pub open spec fn at(self, index: Seq<int>) -> u64 {
        self.elements[offset(self.shape, index)]
    }

    /// The array with the order of its axes reversed: its element at an index is the element
    /// of `self` at the reversed index.
    pub open spec fn reversed(self) -> ArrayView {
        ArrayView {
            datatype: self.datatype,
            shape: self.shape.reverse(),
            elements: Seq::new(
                self.elements.len(),
                |position: int| self.at(unravel(self.shape.reverse(), position).reverse()),
            ),
        }
    }

    /// The array as it is handed to or taken from the store under a transposition policy.
    pub open spec fn transposed_if(self, transpose: bool) -> ArrayView {
        if transpose {
            self.reversed()
        } else {
            self
        }
    }
}

/// Reversing the axes gives an array that the shape still fits.
pub proof fn reversed_well_formed(a: ArrayView)
    requires
        a.well_formed(),
    ensures
        a.reversed().well_formed(),
{
    extents_product_of_reversed(a.shape, true);
    extents_product_of_reversed(a.shape, false);
}

/// The element of the reversed array at a reversed index is the element at the index.
pub proof fn reversed_at(a: ArrayView, index: Seq<int>)
    requires
        a.well_formed(),
        in_bounds(a.shape, index),
    ensures
        in_bounds(a.reversed().shape, index.reverse()),
        a.reversed().at(index.reverse()) == a.at(index),
{
    let back = a.shape.reverse();
    in_bounds_reversed(a.shape, index);
    offset_in_range(back, index.reverse());
    extents_product_of_reversed(a.shape, false);
    let position = offset(back, index.reverse());
    unravel_inverts_offset(back, position);
    offset_injective(back, unravel(back, position), index.reverse());
    assert(index.reverse().reverse() =~= index);
}

/// Reversing the axes twice gives the array back.
pub proof fn reversed_twice(a: ArrayView)
    requires
        a.well_formed(),
    ensures
        a.reversed().reversed() == a,
{
    let once = a.reversed();
    let twice = once.reversed();
    reversed_well_formed(a);
    assert(a.shape.reverse().reverse() =~= a.shape);
    assert forall|position: int| 0 <= position < a.elements.len() implies twice.elements[position]
        == a.elements[position] by {
        unravel_inverts_offset(a.shape, position);
        let index = unravel(a.shape, position);
        reversed_at(a, index);
        assert(index.reverse().reverse() =~= index);
        assert(twice.elements[position] == once.at(unravel(a.shape, position).reverse()));
    }
    assert(twice.elements =~= a.elements);
}

/// Calls ndarray's `ArrayBase::reversed_axes` on the array of the given shape and elements, and
/// hands back the shape of the result and its elements as `ArrayBase::iter` visits them.
///
/// Not proved: that the result has the axes in reverse order, as many elements as before, and,
/// at each reversed index, the element that the argument has at the index.
#[verifier::external_body]
fn reversed_axes_parts(shape: &Vec<usize>, elements: Vec<u64>) -> (out: (Vec<usize>, Vec<u64>))
    requires
        fits(shape@, elements@.len()),
    ensures
        out.0@ == shape@.reverse(),
        out.1@.len() == elements@.len(),
        forall|index: Seq<int>|
            in_bounds(shape@, index) ==> out.1@[offset(shape@.reverse(), index.reverse())]
                == elements@[#[trigger] offset(shape@, index)],
{
    let array = ndarray::ArrayD::from_shape_vec(ndarray::IxDyn(shape), elements).unwrap();
    let reversed = array.reversed_axes();
    (reversed.shape().to_vec(), reversed.iter().copied().collect())
}

/// Tells the element type of an array, which a store has to know before it creates a dataset.
pub trait ArrayType {
    /// The type of the elements.
    spec fn ty(&self) -> Datatype;

    /// The type of the elements.
    fn element_type(&self) -> (ty: Datatype)
        ensures
            ty == self.ty(),
    ;
}

/// A dense array held in memory.
#[derive(Debug, PartialEq, Eq)]
pub struct NdArray {
    datatype: Datatype,
    shape: Vec<usize>,
    elements: Vec<u64>,
}

impl View for NdArray {
    type V = ArrayView;

    closed spec fn view(&self) -> ArrayView {
        ArrayView { datatype: self.datatype, shape: self.shape@, elements: self.elements@ }
    }
}

impl NdArray {
    /// The elements fill the shape.
    #[verifier::type_invariant]
    pub open spec fn well_formed(self) -> bool {
        self@.well_formed()
    }

    /// The array of the given shape whose elements, in logical order, are `elements`; none if
    /// the elements do not fill the shape, or if the axis lengths that are not zero multiply to
    /// more than `isize::MAX`.
    pub fn from_shape_vec(datatype: Datatype, shape: Vec<usize>, elements: Vec<u64>) -> (made:
        Option<NdArray>)
        ensures
            made is Some <==> fits(shape@, elements@.len()),
            made matches Some(array) ==> array@ == (ArrayView {
                datatype,
                shape: shape@,
                elements: elements@,
            }),
    {
        let mut nonzero: usize = 1;
        let mut empty = false;
        let mut axis: usize = 0;
        while axis < shape.len()
            invariant
                axis <= shape.len(),
                nonzero == nonzero_volume(shape@.take(axis as int)),
                nonzero <= isize::MAX,
                volume(shape@.take(axis as int)) == if empty {
                    0
                } else {
                    nonzero as nat
                },
            decreases shape.len() - axis,
        {
            let size = shape[axis];
            proof {
                let longer = shape@.take(axis + 1);
                let filled = volume(shape@.take(axis as int));
                assert(longer.drop_last() =~= shape@.take(axis as int));
                assert(longer.last() == size);
                assert(volume(longer) == filled * (size as nat));
                assert(nonzero_volume(longer) == (nonzero as nat) * extent(size, true));
                nonzero_volume_of_prefix(shape@, axis + 1);
                assert(filled == 0 || size == 0 ==> filled * (size as nat) == 0)
                    by (nonlinear_arith);
                assert((nonzero as nat) * 1 == nonzero) by (nonlinear_arith);
            }
            if size == 0 {
                empty = true;
            } else {
                match nonzero.checked_mul(size) {
                    None => {
                        return None;
                    },
                    Some(product) => {
                        if product > isize::MAX as usize {
                            return None;
                        }
                        nonzero = product;
                    },
                }
            }
            axis += 1;
        }
        assert(shape@.take(axis as int) =~= shape@);
        let total = if empty {
            0
        } else {
            nonzero
        };
        if total != elements.len() {
            return None;
        }
        Some(NdArray { datatype, shape, elements })
    }

    /// The type of the elements.
    pub fn datatype(&self) -> (datatype: Datatype)
        ensures
            datatype == self@.datatype,
    {
        self.datatype
    }

    /// The length of each axis.
    pub fn shape(&self) -> (shape: &Vec<usize>)
        ensures
            shape@ == self@.shape,
    {
        &self.shape
    }

    /// The number of axes.
    pub fn ndim(&self) -> (ndim: usize)
        ensures
            ndim == self@.ndim(),
    {
        self.shape.len()
    }

    /// The elements in logical order.
    pub fn elements(&self) -> (elements: &Vec<u64>)
        ensures
            elements@ == self@.elements,
    {
        &self.elements
    }

    /// Transposes the array by reversing its axes.
    pub fn reversed_axes(self) -> (reversed: NdArray)
        ensures
            reversed@ == self@.reversed(),
    {
        proof {
            use_type_invariant(&self);
        }
        let ghost a = self@;
        let NdArray { datatype, shape, elements } = self;
        let (shape, elements) = reversed_axes_parts(&shape, elements);
        proof {
            let back = a.shape.reverse();
            reversed_well_formed(a);
            assert forall|position: int| 0 <= position < elements@.len() implies elements@[position]
                == a.reversed().elements[position] by {
                extents_product_of_reversed(a.shape, false);
                unravel_inverts_offset(back, position);
                let index = unravel(back, position).reverse();
                in_bounds_reversed(back, unravel(back, position));
                assert(back.reverse() =~= a.shape);
                assert(index.reverse() =~= unravel(back, position));
                assert(elements@[offset(back, index.reverse())] == a.elements[offset(
                    a.shape,
                    index,
                )]);
            }
            assert(elements@ =~= a.reversed().elements);
        }
        NdArray { datatype, shape, elements }
    }

    /// A transposed copy of the array.
    pub fn t(&self) -> (reversed: NdArray)
        ensures
            reversed@ == self@.reversed(),
    {
        self.clone().reversed_axes()
    }

    /// The array as it is handed to or taken from the store under a transposition policy:
    /// with its axes reversed if `transpose` is set, unchanged otherwise.
    pub fn transposed_if(self, transpose: bool) -> (array: NdArray)
        ensures
            array@ == self@.transposed_if(transpose),
    {
        if transpose {
            self.reversed_axes()
        } else {
            self
        }
    }
}

impl Clone for NdArray {
    fn clone(&self) -> (copy: Self)
        ensures
            copy@ == self@,
    {
        proof {
            use_type_invariant(self);
        }
        let shape = self.shape.clone();
        let elements = self.elements.clone();
        assert(shape@ =~= self.shape@);
        assert(elements@ =~= self.elements@);
        NdArray { datatype: self.datatype, shape, elements }
    }
}

impl ArrayType for NdArray {
    open spec fn ty(&self) -> Datatype {
        self@.datatype
    }

    fn element_type(&self) -> (ty: Datatype) {
        self.datatype
    }
}

} // verus!
