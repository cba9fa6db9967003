//! Tabling: applying a function to every pair of elements or rows of two arrays
use vstd::prelude::*;

use crate::primitive::Primitive;
use crate::primitive::impl_prim::ImplPrimitive;
use crate::value::{lemma_product_concat, product, Array, Value};

verus! {

/// The most bytes that an array may take
pub const MAX_ARRAY_BYTES: u128 = 4294967296;

/// An array would take more memory than is allowed
#[derive(Debug, Clone, Copy, PartialEq, Eq, Structural)]
pub struct SizeError;

/// Whether an array of elements of a size and of a shape fits in the allowed memory, and its
/// element count in a `usize`
pub open spec fn size_fits(elem_size: nat, sizes: Seq<usize>) -> bool {
    product(sizes) * elem_size <= MAX_ARRAY_BYTES && product(sizes) <= usize::MAX
}

/// An empty shape has one element
pub proof fn lemma_product_empty(s: Seq<usize>)
    requires
        s.len() == 0,
    ensures
        product(s) == 1,
{
}

/// A zero size makes the product zero
proof fn lemma_product_zero(s: Seq<usize>, i: int)
    requires
        0 <= i < s.len(),
        s[i] == 0,
    ensures
        product(s) == 0,
    decreases s.len(),
{
    if i < s.len() - 1 {
        lemma_product_zero(s.drop_last(), i);
        assert(0 * (s.last() as nat) == 0) by (nonlinear_arith);
    } else {
        let p = product(s.drop_last());
        assert(p * 0 == 0) by (nonlinear_arith);
    }
}

/// Adding a size multiplies the product by it
proof fn lemma_product_push(s: Seq<usize>, x: usize)
    ensures
        product(s.push(x)) == product(s) * x,
{
    assert(s.push(x).drop_last() =~= s);
}

/// The product of one, two or three sizes
proof fn lemma_product_small(x: usize, y: usize, z: usize)
    ensures
        product(seq![x]) == x,
        product(seq![x, y]) == x * y,
        product(seq![x, y, z]) == x * y * z,
{
    let e = Seq::<usize>::empty();
    lemma_product_push(e, x);
    lemma_product_push(e.push(x), y);
    lemma_product_push(e.push(x).push(y), z);
    assert(seq![x] =~= e.push(x));
    assert(seq![x, y] =~= e.push(x).push(y));
    assert(seq![x, y, z] =~= e.push(x).push(y).push(z));
    assert(1 * (x as nat) == x);
}

/// Where no size is zero, a prefix has no greater product than the whole
proof fn lemma_product_prefix(s: Seq<usize>, i: int)
    requires
        0 <= i <= s.len(),
        forall|k: int| 0 <= k < s.len() ==> s[k] >= 1,
    ensures
        product(s.take(i)) <= product(s),
    decreases s.len(),
{
    if i < s.len() {
        assert(s.drop_last().take(i) =~= s.take(i));
        lemma_product_prefix(s.drop_last(), i);
        let p = product(s.drop_last());
        let l = s.last() as nat;
        assert(p <= p * l) by (nonlinear_arith)
            requires
                l >= 1,
        ;
    } else {
        assert(s.take(i) =~= s);
    }
}

/// Check that an array of elements of a size and of a shape is not too large, and count its
/// elements
pub fn validate_size(elem_size: usize, sizes: &Vec<usize>) -> (r: Result<usize, SizeError>)
    requires
        elem_size >= 1,
    ensures
        match r {
            Ok(n) => size_fits(elem_size as nat, sizes@) && n == product(sizes@),
            Err(_) => !size_fits(elem_size as nat, sizes@),
        },
{
    let mut i: usize = 0;
    while i < sizes.len()
        invariant
            i <= sizes@.len(),
            forall|k: int| 0 <= k < i ==> sizes@[k] >= 1,
        decreases sizes@.len() - i,
    {
        if sizes[i] == 0 {
            proof {
                lemma_product_zero(sizes@, i as int);
            }
            return Ok(0);
        }
        i += 1;
    }
    let mut p: u128 = 1;
    let mut i: usize = 0;
    assert(sizes@.take(0) =~= Seq::<usize>::empty());
    if elem_size as u128 > MAX_ARRAY_BYTES {
        proof {
            lemma_product_prefix(sizes@, 0);
            let q = product(sizes@);
            assert(q * elem_size >= elem_size) by (nonlinear_arith)
                requires
                    q >= 1,
            ;
        }
        return Err(SizeError);
    }
    while i < sizes.len()
        invariant
            i <= sizes@.len(),
            forall|k: int| 0 <= k < sizes@.len() ==> sizes@[k] >= 1,
            p == product(sizes@.take(i as int)),
            p <= MAX_ARRAY_BYTES,
            p * elem_size <= MAX_ARRAY_BYTES,
            elem_size >= 1,
        decreases sizes@.len() - i,
    {
        assert(sizes@.take(i + 1).drop_last() =~= sizes@.take(i as int));
        let size = sizes[i] as u128;
        assert(p * size <= MAX_ARRAY_BYTES * 0x1_0000_0000_0000_0000) by (nonlinear_arith)
            requires
                p <= MAX_ARRAY_BYTES,
                size < 0x1_0000_0000_0000_0000,
        ;
        let next = p * size;
        if next > MAX_ARRAY_BYTES {
            proof {
                lemma_product_prefix(sizes@, i + 1);
                assert(product(sizes@) * elem_size >= product(sizes@)) by (nonlinear_arith)
                    requires
                        elem_size >= 1,
                ;
            }
            return Err(SizeError);
        }
        assert(next * elem_size <= MAX_ARRAY_BYTES * 0x1_0000_0000_0000_0000) by (nonlinear_arith)
            requires
                next <= MAX_ARRAY_BYTES,
                elem_size < 0x1_0000_0000_0000_0000,
        ;
        if next * (elem_size as u128) > MAX_ARRAY_BYTES {
            proof {
                lemma_product_prefix(sizes@, i + 1);
                let q = product(sizes@);
                assert(q * elem_size >= next * elem_size) by (nonlinear_arith)
                    requires
                        q >= next,
                ;
            }
            return Err(SizeError);
        }
        p = next;
        i += 1;
    }
    assert(sizes@.take(sizes@.len() as int) =~= sizes@);
    assert(p * elem_size >= p) by (nonlinear_arith)
        requires
            elem_size >= 1,
    ;
    if p > usize::MAX as u128 {
        return Err(SizeError);
    }
    Ok(p as usize)
}

/// In row-major order an earlier place comes before a later one
proof fn lemma_row_major_before(i: int, j: int, k: int, l: int, n: int)
    requires
        0 <= i,
        0 <= j < n,
        0 <= k,
        0 <= l,
        i < k || (i == k && j < l),
    ensures
        i * n + j < k * n + l,
{
    if i < k {
        assert(i * n + j < (i + 1) * n) by (nonlinear_arith)
            requires
                j < n,
        ;
        assert((i + 1) * n <= k * n) by (nonlinear_arith)
            requires
                i + 1 <= k,
                n > 0,
        ;
    }
}

/// The next row-major place after the end of a row
proof fn lemma_next_row(i: int, n: int)
    ensures
        i * n + n == (i + 1) * n,
{
    assert(i * n + n == (i + 1) * n) by (nonlinear_arith);
}

/// Apply a function to every pair of elements of two arrays: the result's shape is the first
/// shape followed by the second, and its element for the `i`-th element of the first array and
/// the `j`-th of the second stands at `i * (second length) + j`
pub fn fast_table_list<T: Copy, U, F: Fn(T, T) -> U>(a: Array<T>, b: Array<T>, f: F) -> (r: Result<
    Array<U>,
    SizeError,
>)
    requires
        forall|x: T, y: T| f.requires((x, y)),
        vstd::layout::size_of::<U>() >= 1,
    ensures
        match r {
            Ok(t) => {
                &&& size_fits(
                    vstd::layout::size_of::<U>(),
                    seq![a.data@.len() as usize, b.data@.len() as usize],
                )
                &&& t.shape@ == a.shape@ + b.shape@
                &&& t.data@.len() == a.data@.len() * b.data@.len()
                &&& forall|i: int, j: int|
                    #![trigger a.data@[i], b.data@[j]]
                    0 <= i < a.data@.len() && 0 <= j < b.data@.len() ==> f.ensures(
                        (a.data@[i], b.data@[j]),
                        t.data@[i * b.data@.len() + j],
                    )
                &&& (a.spec_wf() && b.spec_wf() ==> t.spec_wf())
            },
            Err(_) => !size_fits(
                vstd::layout::size_of::<U>(),
                seq![a.data@.len() as usize, b.data@.len() as usize],
            ),
        },
{
    let na = a.data.len();
    let nb = b.data.len();
    let mut sizes: Vec<usize> = Vec::new();
    sizes.push(na);
    sizes.push(nb);
    assert(sizes@ =~= seq![na, nb]);
    let elem_size = core::mem::size_of::<U>();
    let count = validate_size(elem_size, &sizes)?;
    proof {
        lemma_product_small(na, nb, 0);
    }
    let mut data: Vec<U> = Vec::new();
    let mut i: usize = 0;
    while i < na
        invariant
            na == a.data@.len(),
            nb == b.data@.len(),
            count == na * nb,
            i <= na,
            data@.len() == i * nb,
            forall|x: T, y: T| f.requires((x, y)),
            forall|k: int, l: int|
                #![trigger a.data@[k], b.data@[l]]
                0 <= k < i && 0 <= l < nb ==> f.ensures(
                    (a.data@[k], b.data@[l]),
                    data@[k * nb + l],
                ),
        decreases na - i,
    {
        let x = a.data[i];
        let mut j: usize = 0;
        while j < nb
            invariant
                na == a.data@.len(),
                nb == b.data@.len(),
                i < na,
                j <= nb,
                x == a.data@[i as int],
                data@.len() == i * nb + j,
                forall|x: T, y: T| f.requires((x, y)),
                forall|k: int, l: int|
                    #![trigger a.data@[k], b.data@[l]]
                    (0 <= k < i && 0 <= l < nb) || (k == i && 0 <= l < j) ==> f.ensures(
                        (a.data@[k], b.data@[l]),
                        data@[k * nb + l],
                    ),
            decreases nb - j,
        {
            let y = b.data[j];
            let v = f(x, y);
            let ghost before = data@;
            data.push(v);
            proof {
                assert forall|k: int, l: int|
                    #![trigger a.data@[k], b.data@[l]]
                    (0 <= k < i && 0 <= l < nb) || (k == i && 0 <= l < j + 1) implies f.ensures(
                        (a.data@[k], b.data@[l]),
                        data@[k * nb + l],
                    ) by {
                    if k == i && l == j {
                        assert(data@[k * nb + l] == v);
                    } else {
                        lemma_row_major_before(k, l, i as int, j as int, nb as int);
                        assert(data@[k * nb + l] == before[k * nb + l]);
                    }
                }
            }
            j += 1;
        }
        proof {
            lemma_next_row(i as int, nb as int);
        }
        i += 1;
    }
    let mut shape = a.shape;
    let mut k: usize = 0;
    let ghost a_shape = shape@;
    while k < b.shape.len()
        invariant
            k <= b.shape@.len(),
            shape@ == a_shape + b.shape@.take(k as int),
        decreases b.shape@.len() - k,
    {
        shape.push(b.shape[k]);
        k += 1;
        assert(shape@ =~= a_shape + b.shape@.take(k as int));
    }
    assert(b.shape@.take(b.shape@.len() as int) =~= b.shape@);
    proof {
        lemma_product_concat(a.shape@, b.shape@);
    }
    Ok(Array { shape, data })
}

/// Whether a pair of elements stands at a place: in their order, or reversed where flipped
pub open spec fn couple_at<T>(data: Seq<T>, p: int, x: T, y: T, flipped: bool) -> bool {
    &&& 0 <= p
    &&& p + 1 < data.len()
    &&& if flipped {
        data[p] == y && data[p + 1] == x
    } else {
        data[p] == x && data[p + 1] == y
    }
}

/// What pairing every element of one array with every element of another gives: the pairs
/// where they fit in the allowed memory, the pair for the `i`-th element of the first array and
/// the `j`-th of the second at `2 * (i * (second length) + j)`, reversed where flipped; else an
/// error
pub open spec fn join_or_couple_result<T>(
    a: Array<T>,
    b: Array<T>,
    flipped: bool,
    r: Result<Array<T>, SizeError>,
) -> bool {
    match r {
        Ok(t) => {
            &&& size_fits(
                vstd::layout::size_of::<T>(),
                seq![a.data@.len() as usize, b.data@.len() as usize, 2],
            )
            &&& t.shape@ == a.shape@ + b.shape@ + seq![2usize]
            &&& t.data@.len() == 2 * (a.data@.len() * b.data@.len())
            &&& forall|i: int, j: int|
                #![trigger a.data@[i], b.data@[j]]
                0 <= i < a.data@.len() && 0 <= j < b.data@.len() ==> couple_at(
                    t.data@,
                    2 * (i * b.data@.len() + j),
                    a.data@[i],
                    b.data@[j],
                    flipped,
                )
            &&& (a.spec_wf() && b.spec_wf() ==> t.spec_wf())
        },
        Err(_) => !size_fits(
            vstd::layout::size_of::<T>(),
            seq![a.data@.len() as usize, b.data@.len() as usize, 2],
        ),
    }
}

/// Pair every element of one array with every element of another: the result's shape is the
/// first shape, then the second, then 2; the pair for the `i`-th element of the first array and
/// the `j`-th of the second stands at `2 * (i * (second length) + j)`, in the order of the
/// arrays, or reversed where the function was flipped
pub fn fast_table_list_join_or_couple<T: Copy>(a: Array<T>, b: Array<T>, flipped: bool) -> (r:
    Result<Array<T>, SizeError>)
    requires
        vstd::layout::size_of::<T>() >= 1,
    ensures
        join_or_couple_result(a, b, flipped, r),
{
    let na = a.data.len();
    let nb = b.data.len();
    let mut sizes: Vec<usize> = Vec::new();
    sizes.push(na);
    sizes.push(nb);
    sizes.push(2);
    assert(sizes@ =~= seq![na, nb, 2usize]);
    let elem_size = core::mem::size_of::<T>();
    let count = validate_size(elem_size, &sizes)?;
    proof {
        lemma_product_small(na, nb, 2);
    }
    let mut data: Vec<T> = Vec::new();
    let mut i: usize = 0;
    while i < na
        invariant
            na == a.data@.len(),
            nb == b.data@.len(),
            count == na * nb * 2,
            i <= na,
            data@.len() == 2 * (i * nb),
            forall|k: int, l: int|
                #![trigger a.data@[k], b.data@[l]]
                0 <= k < i && 0 <= l < nb ==> couple_at(data@, 2 * (k * nb + l), a.data@[k], b.data@[l], flipped),
        decreases na - i,
    {
        let x = a.data[i];
        let mut j: usize = 0;
        while j < nb
            invariant
                na == a.data@.len(),
                nb == b.data@.len(),
                count == na * nb * 2,
                i < na,
                j <= nb,
                x == a.data@[i as int],
                data@.len() == 2 * (i * nb + j),
                forall|k: int, l: int|
                    #![trigger a.data@[k], b.data@[l]]
                    (0 <= k < i && 0 <= l < nb) || (k == i && 0 <= l < j) ==> couple_at(data@, 2 * (k * nb + l), a.data@[k], b.data@[l], flipped),
            decreases nb - j,
        {
            proof {
                lemma_row_major_before(i as int, j as int, na as int, 0, nb as int);
                assert(2 * (i * nb + j) + 2 <= 2 * (na * nb)) by (nonlinear_arith)
                    requires
                        i * nb + j < na * nb,
                ;
            }
            let y = b.data[j];
            let ghost before = data@;
            if flipped {
                data.push(y);
                data.push(x);
            } else {
                data.push(x);
                data.push(y);
            }
            proof {
                assert forall|k: int, l: int|
                    #![trigger a.data@[k], b.data@[l]]
                    (0 <= k < i && 0 <= l < nb) || (k == i && 0 <= l < j + 1) implies couple_at(data@, 2 * (k * nb + l), a.data@[k], b.data@[l], flipped) by {
                    if !(k == i && l == j) {
                        lemma_row_major_before(k, l, i as int, j as int, nb as int);
                        let p = 2 * (k * nb + l);
                        assert(couple_at(before, p, a.data@[k], b.data@[l], flipped));
                        assert(p + 1 < before.len()) by (nonlinear_arith)
                            requires
                                k * nb + l < i * nb + j,
                                p == 2 * (k * nb + l),
                                before.len() == 2 * (i * nb + j),
                        ;
                        assert(data@[p] == before[p]);
                        assert(data@[p + 1] == before[p + 1]);
                    } else {
                        assert(data@.len() == before.len() + 2);
                    }
                }
            }
            j += 1;
        }
        proof {
            lemma_next_row(i as int, nb as int);
        }
        i += 1;
    }
    let mut shape = a.shape;
    let mut k: usize = 0;
    let ghost a_shape = shape@;
    while k < b.shape.len()
        invariant
            k <= b.shape@.len(),
            shape@ == a_shape + b.shape@.take(k as int),
        decreases b.shape@.len() - k,
    {
        shape.push(b.shape[k]);
        k += 1;
        assert(shape@ =~= a_shape + b.shape@.take(k as int));
    }
    assert(b.shape@.take(b.shape@.len() as int) =~= b.shape@);
    shape.push(2);
    assert(shape@ =~= a_shape + b.shape@ + seq![2usize]);
    proof {
        lemma_product_concat(a.shape@, b.shape@);
        lemma_product_concat(a.shape@ + b.shape@, seq![2usize]);
        lemma_product_small(2, 0, 0);
        let pa = product(a.shape@);
        let pb = product(b.shape@);
        assert(pa * pb * 2 == 2 * (pa * pb)) by (nonlinear_arith);
        assert(na * nb * 2 == 2 * (na * nb)) by (nonlinear_arith);
    }
    Ok(Array { shape, data })
}


/// A tabling operation on two bytes that gives a byte
#[derive(Debug, Clone, Copy, PartialEq, Eq, Structural)]
pub enum ByteOp {
    /// 1 where the bytes are equal
    Eq,
    /// 1 where the bytes differ
    Ne,
    /// 1 where the second byte is less than the first
    OtherLt,
    /// 1 where the second byte is greater than the first
    OtherGt,
    /// 1 where the second byte is at most the first
    OtherLe,
    /// 1 where the second byte is at least the first
    OtherGe,
    /// The smaller byte
    Min,
    /// The larger byte
    Max,
}

/// A tabling operation on two bytes that gives a number
#[derive(Debug, Clone, Copy, PartialEq, Eq, Structural)]
pub enum NumOp {
    /// The sum
    Add,
    /// The second minus the first
    Sub,
    /// The product
    Mul,
    /// The second divided by the first
    Div,
    /// The second modulo the first
    Modulus,
    /// The angle of the point given by the two
    Atan,
}

/// How two lists of bytes are tabled with a primitive
#[derive(Debug, Clone, Copy, PartialEq, Eq, Structural)]
pub enum ByteTablePlan {
    /// Each pair of bytes gives a byte
    Byte(ByteOp),
    /// Each pair of bytes gives a number
    Num(NumOp),
    /// Each pair of bytes is joined or coupled, reversed where flipped
    JoinOrCouple(bool),
    /// The function is run on each pair
    Generic,
}

/// The byte that an operation gives for two bytes
pub open spec fn spec_byte_op(op: ByteOp, x: u8, y: u8) -> u8 {
    match op {
        ByteOp::Eq => if x == y { 1 } else { 0 },
        ByteOp::Ne => if x != y { 1 } else { 0 },
        ByteOp::OtherLt => if y < x { 1 } else { 0 },
        ByteOp::OtherGt => if y > x { 1 } else { 0 },
        ByteOp::OtherLe => if y <= x { 1 } else { 0 },
        ByteOp::OtherGe => if y >= x { 1 } else { 0 },
        ByteOp::Min => if x <= y { x } else { y },
        ByteOp::Max => if x >= y { x } else { y },
    }
}

/// Apply a byte operation to two bytes
pub fn byte_op(op: ByteOp, x: u8, y: u8) -> (r: u8)
    ensures
        r == spec_byte_op(op, x, y),
{
    match op {
        ByteOp::Eq => if x == y { 1 } else { 0 },
        ByteOp::Ne => if x != y { 1 } else { 0 },
        ByteOp::OtherLt => if y < x { 1 } else { 0 },
        ByteOp::OtherGt => if y > x { 1 } else { 0 },
        ByteOp::OtherLe => if y <= x { 1 } else { 0 },
        ByteOp::OtherGe => if y >= x { 1 } else { 0 },
        ByteOp::Min => if x <= y { x } else { y },
        ByteOp::Max => if x >= y { x } else { y },
    }
}

/// How two lists of bytes are tabled with a primitive, possibly flipped: comparisons, `min` and
/// `max` give bytes; arithmetic gives numbers; `join` and `couple` pair the bytes; the
/// comparisons and arithmetic that are not symmetric are only fast when not flipped; anything
/// else runs the function on each pair
pub open spec fn spec_byte_table_plan(prim: Primitive, flipped: bool) -> ByteTablePlan {
    match prim {
        Primitive::Eq => ByteTablePlan::Byte(ByteOp::Eq),
        Primitive::Ne => ByteTablePlan::Byte(ByteOp::Ne),
        Primitive::Lt if !flipped => ByteTablePlan::Byte(ByteOp::OtherLt),
        Primitive::Gt if !flipped => ByteTablePlan::Byte(ByteOp::OtherGt),
        Primitive::Le if !flipped => ByteTablePlan::Byte(ByteOp::OtherLe),
        Primitive::Ge if !flipped => ByteTablePlan::Byte(ByteOp::OtherGe),
        Primitive::Add => ByteTablePlan::Num(NumOp::Add),
        Primitive::Sub if !flipped => ByteTablePlan::Num(NumOp::Sub),
        Primitive::Mul => ByteTablePlan::Num(NumOp::Mul),
        Primitive::Div if !flipped => ByteTablePlan::Num(NumOp::Div),
        Primitive::Modulus if !flipped => ByteTablePlan::Num(NumOp::Modulus),
        Primitive::Atan if !flipped => ByteTablePlan::Num(NumOp::Atan),
        Primitive::Min => ByteTablePlan::Byte(ByteOp::Min),
        Primitive::Max => ByteTablePlan::Byte(ByteOp::Max),
        Primitive::Join | Primitive::Couple => ByteTablePlan::JoinOrCouple(flipped),
        _ => ByteTablePlan::Generic,
    }
}

/// Decide how two lists of bytes are tabled with a primitive
pub fn byte_table_plan(prim: Primitive, flipped: bool) -> (r: ByteTablePlan)
    ensures
        r == spec_byte_table_plan(prim, flipped),
{
    match prim {
        Primitive::Eq => ByteTablePlan::Byte(ByteOp::Eq),
        Primitive::Ne => ByteTablePlan::Byte(ByteOp::Ne),
        Primitive::Lt if !flipped => ByteTablePlan::Byte(ByteOp::OtherLt),
        Primitive::Gt if !flipped => ByteTablePlan::Byte(ByteOp::OtherGt),
        Primitive::Le if !flipped => ByteTablePlan::Byte(ByteOp::OtherLe),
        Primitive::Ge if !flipped => ByteTablePlan::Byte(ByteOp::OtherGe),
        Primitive::Add => ByteTablePlan::Num(NumOp::Add),
        Primitive::Sub if !flipped => ByteTablePlan::Num(NumOp::Sub),
        Primitive::Mul => ByteTablePlan::Num(NumOp::Mul),
        Primitive::Div if !flipped => ByteTablePlan::Num(NumOp::Div),
        Primitive::Modulus if !flipped => ByteTablePlan::Num(NumOp::Modulus),
        Primitive::Atan if !flipped => ByteTablePlan::Num(NumOp::Atan),
        Primitive::Min => ByteTablePlan::Byte(ByteOp::Min),
        Primitive::Max => ByteTablePlan::Byte(ByteOp::Max),
        Primitive::Join | Primitive::Couple => ByteTablePlan::JoinOrCouple(flipped),
        _ => ByteTablePlan::Generic,
    }
}

/// What tabling two lists of bytes with a byte operation gives: the table where it fits in the
/// allowed memory, the result for the `i`-th byte of the first and the `j`-th byte of the
/// second standing at `i * (second length) + j`; else an error
pub open spec fn table_bytes_result(
    op: ByteOp,
    xs: Array<u8>,
    ys: Array<u8>,
    r: Result<Array<u8>, SizeError>,
) -> bool {
    match r {
        Ok(t) => {
            &&& size_fits(1, seq![xs.data@.len() as usize, ys.data@.len() as usize])
            &&& t.shape@ == xs.shape@ + ys.shape@
            &&& t.data@.len() == xs.data@.len() * ys.data@.len()
            &&& forall|i: int, j: int|
                #![trigger xs.data@[i], ys.data@[j]]
                0 <= i < xs.data@.len() && 0 <= j < ys.data@.len() ==> t.data@[i * ys.data@.len()
                    + j] == spec_byte_op(op, xs.data@[i], ys.data@[j])
            &&& (xs.spec_wf() && ys.spec_wf() ==> t.spec_wf())
        },
        Err(_) => !size_fits(1, seq![xs.data@.len() as usize, ys.data@.len() as usize]),
    }
}

/// Table two lists of bytes with a byte operation: the result for the `i`-th byte of the first
/// and the `j`-th byte of the second stands at `i * (second length) + j`
pub fn table_bytes(op: ByteOp, xs: Array<u8>, ys: Array<u8>) -> (r: Result<Array<u8>, SizeError>)
    ensures
        table_bytes_result(op, xs, ys, r),
{
    proof {
        broadcast use vstd::layout::layout_of_primitives;
        assert(vstd::layout::size_of::<u8>() == 1);
    }
    let f = move|x: u8, y: u8| -> (v: u8)
        ensures
            v == spec_byte_op(op, x, y),
        { byte_op(op, x, y) };
    fast_table_list(xs, ys, f)
}

/// The shape of the result of tabling two arrays: their row counts, without the axis of an
/// argument that is a scalar, then the shape of a row of the collected results
pub open spec fn spec_table_shape(
    x_rows: usize,
    y_rows: usize,
    x_scalar: bool,
    y_scalar: bool,
    collected: Seq<usize>,
) -> Seq<usize> {
    (if x_scalar {
        seq![]
    } else {
        seq![x_rows]
    }) + (if y_scalar {
        seq![]
    } else {
        seq![y_rows]
    }) + collected.skip(1)
}

/// The shape of the result of tabling two arrays, given the shape of the collected results
pub fn table_shape(
    x_rows: usize,
    y_rows: usize,
    x_scalar: bool,
    y_scalar: bool,
    collected: &Vec<usize>,
) -> (r: Vec<usize>)
    requires
        collected@.len() >= 1,
    ensures
        r@ == spec_table_shape(x_rows, y_rows, x_scalar, y_scalar, collected@),
{
    let mut shape: Vec<usize> = Vec::new();
    shape.push(x_rows);
    shape.push(y_rows);
    if y_scalar {
        shape.remove(1);
    }
    if x_scalar {
        shape.remove(0);
    }
    let ghost head = shape@;
    assert(head =~= (if x_scalar {
        seq![]
    } else {
        seq![x_rows]
    }) + (if y_scalar {
        seq![]
    } else {
        seq![y_rows]
    }));
    let mut k: usize = 1;
    while k < collected.len()
        invariant
            1 <= k <= collected@.len(),
            shape@ == head + collected@.subrange(1, k as int),
        decreases collected@.len() - k,
    {
        shape.push(collected[k]);
        k += 1;
        assert(shape@ =~= head + collected@.subrange(1, k as int));
    }
    assert(collected@.subrange(1, collected@.len() as int) =~= collected@.skip(1));
    shape
}

/// What running a function on every pair of rows of two arrays gives: the outputs for the
/// `i`-th row of the first and the `j`-th row of the second at `i * (second row count) + j`,
/// or an error that the function gave on some pair
pub open spec fn table_rows_result<R, O, E, F: Fn(&R, &R) -> Result<O, E>>(
    x_rows: Seq<R>,
    y_rows: Seq<R>,
    f: F,
    r: Result<Vec<O>, E>,
) -> bool {
    match r {
        Ok(outs) => {
            &&& outs@.len() == x_rows.len() * y_rows.len()
            &&& forall|i: int, j: int|
                #![trigger x_rows[i], y_rows[j]]
                0 <= i < x_rows.len() && 0 <= j < y_rows.len() ==> f.ensures(
                    (&x_rows[i], &y_rows[j]),
                    Ok(outs@[i * y_rows.len() + j]),
                )
        },
        Err(e) => exists|i: int, j: int, outs: Seq<O>|
            #![trigger rows_before(x_rows, y_rows, f, i, j, outs)]
            0 <= i < x_rows.len() && 0 <= j < y_rows.len() && rows_before(x_rows, y_rows, f, i, j, outs)
                && f.ensures((&x_rows[i], &y_rows[j]), Err(e)),
    }
}

/// Whether some outputs are what a function gives for every pair of rows that comes before the
/// pair of the `i`-th and `j`-th rows, the rows of the first array in the outer loop
pub open spec fn rows_before<R, O, E, F: Fn(&R, &R) -> Result<O, E>>(
    x_rows: Seq<R>,
    y_rows: Seq<R>,
    f: F,
    i: int,
    j: int,
    outs: Seq<O>,
) -> bool {
    &&& outs.len() == i * y_rows.len() + j
    &&& forall|k: int, l: int|
        #![trigger x_rows[k], y_rows[l]]
        (0 <= k < i && 0 <= l < y_rows.len()) || (k == i && 0 <= l < j) ==> f.ensures(
            (&x_rows[k], &y_rows[l]),
            Ok(outs[k * y_rows.len() + l]),
        )
}

/// Run a function on every pair of rows of two arrays, the rows of the first in the outer loop,
/// and collect what it gives: the outputs for the `i`-th row of the first and the `j`-th row of
/// the second stand at `i * (second row count) + j`. The first failure of the function, in
/// that order, is the result.
pub fn table_rows<R, O, E, F: Fn(&R, &R) -> Result<O, E>>(x_rows: &Vec<R>, y_rows: &Vec<R>, f: F) -> (r:
    Result<Vec<O>, E>)
    requires
        forall|x: &R, y: &R| f.requires((x, y)),
    ensures
        table_rows_result(x_rows@, y_rows@, f, r),
{
    let nx = x_rows.len();
    let ny = y_rows.len();
    let mut outs: Vec<O> = Vec::new();
    let mut i: usize = 0;
    while i < nx
        invariant
            nx == x_rows@.len(),
            ny == y_rows@.len(),
            i <= nx,
            outs@.len() == i * ny,
            forall|x: &R, y: &R| f.requires((x, y)),
            forall|k: int, l: int|
                #![trigger x_rows@[k], y_rows@[l]]
                0 <= k < i && 0 <= l < ny ==> f.ensures(
                    (&x_rows@[k], &y_rows@[l]),
                    Ok(outs@[k * ny + l]),
                ),
        decreases nx - i,
    {
        let mut j: usize = 0;
        while j < ny
            invariant
                nx == x_rows@.len(),
                ny == y_rows@.len(),
                i < nx,
                j <= ny,
                outs@.len() == i * ny + j,
                forall|x: &R, y: &R| f.requires((x, y)),
                forall|k: int, l: int|
                    #![trigger x_rows@[k], y_rows@[l]]
                    (0 <= k < i && 0 <= l < ny) || (k == i && 0 <= l < j) ==> f.ensures(
                        (&x_rows@[k], &y_rows@[l]),
                        Ok(outs@[k * ny + l]),
                    ),
            decreases ny - j,
        {
            let res = f(&x_rows[i], &y_rows[j]);
            match res {
                Ok(out) => {
                    let ghost before = outs@;
                    outs.push(out);
                    proof {
                        assert forall|k: int, l: int|
                            #![trigger x_rows@[k], y_rows@[l]]
                            (0 <= k < i && 0 <= l < ny) || (k == i && 0 <= l < j + 1) implies f.ensures(
                                (&x_rows@[k], &y_rows@[l]),
                                Ok(outs@[k * ny + l]),
                            ) by {
                            if !(k == i && l == j) {
                                lemma_row_major_before(k, l, i as int, j as int, ny as int);
                                assert(outs@[k * ny + l] == before[k * ny + l]);
                            }
                        }
                    }
                },
                Err(e) => {
                    assert(f.ensures((&x_rows@[i as int], &y_rows@[j as int]), Err(e)));
                    assert(rows_before(x_rows@, y_rows@, f, i as int, j as int, outs@));
                    return Err(e);
                },
            }
            j += 1;
        }
        proof {
            lemma_next_row(i as int, ny as int);
        }
        i += 1;
    }
    Ok(outs)
}


/// The number of axes of a value
pub open spec fn spec_rank(v: &Value) -> nat {
    match *v {
        Value::Num(a) => a.shape@.len(),
        Value::Byte(a) => a.shape@.len(),
        Value::Char(a) => a.shape@.len(),
        Value::Box(a) => a.shape@.len(),
    }
}

/// Get the number of axes of a value
pub fn rank(v: &Value) -> (r: usize)
    ensures
        r == spec_rank(v),
{
    match v {
        Value::Num(a) => a.shape.len(),
        Value::Byte(a) => a.shape.len(),
        Value::Char(a) => a.shape.len(),
        Value::Box(a) => a.shape.len(),
    }
}

/// How a function is tabled
#[derive(Debug, Clone, Copy, PartialEq, Eq, Structural)]
pub enum TablePlan {
    /// A function without arguments is run once
    Exec,
    /// A function of one argument is run on each row
    Rows,
    /// Two lists are tabled element by element
    List,
    /// Multiplying and summing numbers is a matrix product
    MatrixMul,
    /// The function is run on each pair of rows
    Generic,
}

/// Whether a value holds numbers or bytes
pub open spec fn is_numeric(v: &Value) -> bool {
    *v is Num || *v is Byte
}

/// How a function of a number of arguments is tabled over two values: a function that
/// multiplies and then sums is a matrix product where both values are numeric
pub open spec fn spec_table_plan(args: usize, xs: &Value, ys: &Value, mul_reduce_add: bool) -> TablePlan {
    if args == 0 {
        TablePlan::Exec
    } else if args == 1 {
        TablePlan::Rows
    } else if args == 2 && spec_rank(xs) <= 1 && spec_rank(ys) <= 1 {
        TablePlan::List
    } else if mul_reduce_add && is_numeric(xs) && is_numeric(ys) {
        TablePlan::MatrixMul
    } else {
        TablePlan::Generic
    }
}

/// Decide how the table modifier runs a function of a number of arguments over the two values
/// on top of the stack, given whether the function multiplies and then sums
pub fn table(args: usize, xs: &Value, ys: &Value, mul_reduce_add: bool) -> (r: TablePlan)
    ensures
        r == spec_table_plan(args, xs, ys, mul_reduce_add),
{
    if args == 0 {
        TablePlan::Exec
    } else if args == 1 {
        TablePlan::Rows
    } else if args == 2 && rank(xs) <= 1 && rank(ys) <= 1 {
        TablePlan::List
    } else if mul_reduce_add && (matches!(xs, Value::Num(_)) || matches!(xs, Value::Byte(_)))
        && (matches!(ys, Value::Num(_)) || matches!(ys, Value::Byte(_))) {
        TablePlan::MatrixMul
    } else {
        TablePlan::Generic
    }
}

/// How two lists are tabled
#[derive(Debug, Clone, Copy, PartialEq, Eq, Structural)]
pub enum ListPlan {
    /// The function is run on each pair
    Generic,
    /// The first list is made numbers, then the function is run on each pair
    GenericNumXs,
    /// The second list is made numbers, then the function is run on each pair
    GenericNumYs,
    /// Two lists of bytes are tabled as the primitive says
    Bytes(ByteTablePlan),
    /// Boxed elements are joined or coupled, reversed where flipped
    CoupleBoxes(bool),
    /// Characters are joined or coupled, reversed where flipped
    CoupleChars(bool),
    /// Each pair gives a random number
    RandomNums,
}

/// Whether a primitive joins or couples
pub open spec fn is_join_or_couple(p: Primitive) -> bool {
    p is Join || p is Couple
}

/// How two lists are tabled with a function that may be a primitive, possibly flipped, or a
/// primitive of the implementation: numbers with numbers run the function; bytes with bytes go
/// by the primitive; numbers with bytes make the bytes numbers; joining or coupling boxes or
/// characters pairs them; a random replacement gives random numbers; anything else runs the
/// function
pub open spec fn spec_list_plan(
    prim: Option<(Primitive, bool)>,
    impl_prim: Option<(ImplPrimitive, bool)>,
    xs: &Value,
    ys: &Value,
) -> ListPlan {
    if prim is Some && *xs is Num && *ys is Num {
        ListPlan::Generic
    } else if prim is Some && *xs is Byte && *ys is Byte {
        ListPlan::Bytes(spec_byte_table_plan(prim.unwrap().0, prim.unwrap().1))
    } else if prim is Some && *xs is Num && *ys is Byte {
        ListPlan::GenericNumYs
    } else if prim is Some && *xs is Byte && *ys is Num {
        ListPlan::GenericNumXs
    } else if prim is Some && is_join_or_couple(prim.unwrap().0) && (*xs is Box || *ys is Box) {
        ListPlan::CoupleBoxes(prim.unwrap().1)
    } else if prim is Some && is_join_or_couple(prim.unwrap().0) && *xs is Char && *ys is Char {
        ListPlan::CoupleChars(prim.unwrap().1)
    } else if impl_prim matches Some((ImplPrimitive::ReplaceRand2, _)) {
        ListPlan::RandomNums
    } else {
        ListPlan::Generic
    }
}

/// Decide how the table modifier runs a function of two arguments over two lists, given the
/// primitive it is, possibly flipped, if any, and the implementation primitive it is,
/// possibly flipped, if any
pub fn table_list(
    prim: Option<(Primitive, bool)>,
    impl_prim: Option<(ImplPrimitive, bool)>,
    xs: &Value,
    ys: &Value,
) -> (r: ListPlan)
    ensures
        r == spec_list_plan(prim, impl_prim, xs, ys),
{
    match prim {
        Some((p, flipped)) => match (xs, ys) {
            (Value::Num(_), Value::Num(_)) => return ListPlan::Generic,
            (Value::Byte(_), Value::Byte(_)) => return ListPlan::Bytes(byte_table_plan(p, flipped)),
            (Value::Num(_), Value::Byte(_)) => return ListPlan::GenericNumYs,
            (Value::Byte(_), Value::Num(_)) => return ListPlan::GenericNumXs,
            _ => {
                let joins = matches!(p, Primitive::Join) || matches!(p, Primitive::Couple);
                if joins && (matches!(xs, Value::Box(_)) || matches!(ys, Value::Box(_))) {
                    return ListPlan::CoupleBoxes(flipped);
                }
                if joins && matches!(xs, Value::Char(_)) && matches!(ys, Value::Char(_)) {
                    return ListPlan::CoupleChars(flipped);
                }
            },
        },
        None => {},
    }
    match impl_prim {
        Some((ImplPrimitive::ReplaceRand2, _)) => ListPlan::RandomNums,
        _ => ListPlan::Generic,
    }
}


/// The product of the counts from a position on
pub open spec fn suffix_product(counts: Seq<usize>, k: int) -> nat
    decreases counts.len() - k,
{
    if k < 0 || k >= counts.len() {
        1
    } else {
        counts[k] as nat * suffix_product(counts, k + 1)
    }
}

/// The row of the `k`-th of some arguments in the `i`-th of all combinations of their rows,
/// the last argument's row changing fastest
pub open spec fn cross_index(counts: Seq<usize>, i: int, k: int) -> int {
    (i / suffix_product(counts, k + 1) as int) % (counts[k] as int)
}

/// Where the product from a position on is not zero, no count from there on is zero and the
/// product from any later position is not zero either
proof fn lemma_suffix_positive(counts: Seq<usize>, k: int, m: int)
    requires
        0 <= k <= m,
        suffix_product(counts, k) > 0,
    ensures
        m < counts.len() ==> counts[m] > 0,
        suffix_product(counts, m) > 0,
    decreases m - k,
{
    if k < m && k < counts.len() {
        let c = counts[k] as nat;
        let rest = suffix_product(counts, k + 1);
        assert(c > 0 && rest > 0) by (nonlinear_arith)
            requires
                c * rest > 0,
        ;
        lemma_suffix_positive(counts, k + 1, m);
    } else if k < m {
        assert(suffix_product(counts, k + 1) == 1);
        lemma_suffix_positive(counts, k + 1, m);
    } else if m < counts.len() {
        let c = counts[m] as nat;
        let rest = suffix_product(counts, m + 1);
        assert(c > 0) by (nonlinear_arith)
            requires
                c * rest > 0,
        ;
    }
}

/// The rows that the arguments after the first three take in the `i`-th of all combinations
/// of their rows, as a table of many arguments walks them: the last argument's row changes
/// fastest
pub fn cross_row_indices(counts: &Vec<usize>, i: usize) -> (r: Vec<usize>)
    requires
        i < suffix_product(counts@, 0),
    ensures
        r@.len() == counts@.len(),
        forall|k: int| 0 <= k < counts@.len() ==> r@[k] == cross_index(counts@, i as int, k),
{
    let n = counts.len();
    let mut r: Vec<usize> = Vec::new();
    let mut fill: usize = 0;
    while fill < n
        invariant
            fill <= n,
            r@.len() == fill,
        decreases n - fill,
    {
        r.push(0);
        fill += 1;
    }
    let mut cur = i;
    let mut t = n;
    proof {
        assert(suffix_product(counts@, n as int) == 1);
        assert(i as int / 1 == i);
    }
    while t > 0
        invariant
            n == counts@.len(),
            t <= n,
            r@.len() == n,
            i < suffix_product(counts@, 0),
            cur as int == i as int / suffix_product(counts@, t as int) as int,
            forall|k: int| t <= k < n ==> r@[k] == cross_index(counts@, i as int, k),
        decreases t,
    {
        let m = t - 1;
        proof {
            lemma_suffix_positive(counts@, 0, m as int);
            lemma_suffix_positive(counts@, 0, t as int);
        }
        let c = counts[m];
        let j = cur % c;
        r.set(m, j);
        proof {
            let sp = suffix_product(counts@, t as int) as int;
            vstd::arithmetic::div_mod::lemma_div_denominator(i as int, sp, c as int);
            assert(suffix_product(counts@, m as int) == c as nat * suffix_product(counts@, t as int));
            assert(sp * (c as int) == (c as int) * sp) by (nonlinear_arith);
        }
        cur = cur / c;
        t = m;
    }
    r
}

/// The shape of the result of tabling many arguments: their row counts, then the shape of a
/// row of the collected results
pub open spec fn spec_cross_shape(row_counts: Seq<usize>, collected: Seq<usize>) -> Seq<usize> {
    row_counts + collected.skip(1)
}

/// The shape of the result of tabling many arguments, given their row counts and the shape of
/// the collected results
pub fn cross_shape(row_counts: &Vec<usize>, collected: &Vec<usize>) -> (r: Vec<usize>)
    requires
        collected@.len() >= 1,
    ensures
        r@ == spec_cross_shape(row_counts@, collected@),
{
    let mut shape: Vec<usize> = Vec::new();
    let mut k: usize = 0;
    while k < row_counts.len()
        invariant
            k <= row_counts@.len(),
            shape@ == row_counts@.take(k as int),
        decreases row_counts@.len() - k,
    {
        shape.push(row_counts[k]);
        k += 1;
        assert(shape@ =~= row_counts@.take(k as int));
    }
    assert(row_counts@.take(row_counts@.len() as int) =~= row_counts@);
    let mut m: usize = 1;
    while m < collected.len()
        invariant
            1 <= m <= collected@.len(),
            shape@ == row_counts@ + collected@.subrange(1, m as int),
        decreases collected@.len() - m,
    {
        shape.push(collected[m]);
        m += 1;
        assert(shape@ =~= row_counts@ + collected@.subrange(1, m as int));
    }
    assert(collected@.subrange(1, collected@.len() as int) =~= collected@.skip(1));
    shape
}


/// The number that the rows of the arguments from a position on stand for, each row weighed by
/// the product of the counts after it
pub open spec fn weighted_rows(counts: Seq<usize>, i: int, t: int) -> int
    decreases counts.len() - t,
{
    if t < 0 || t >= counts.len() {
        0
    } else {
        cross_index(counts, i, t) * suffix_product(counts, t + 1) as int + weighted_rows(
            counts,
            i,
            t + 1,
        )
    }
}

/// The rows from a position on give the remainder by the product of the counts there
proof fn lemma_weighted_rows_mod(counts: Seq<usize>, i: int, t: int)
    requires
        0 <= i,
        0 <= t <= counts.len(),
        suffix_product(counts, t) > 0,
    ensures
        i % (suffix_product(counts, t) as int) == weighted_rows(counts, i, t),
    decreases counts.len() - t,
{
    if t == counts.len() {
        assert(i % 1 == 0);
    } else {
        lemma_suffix_positive(counts, t, t);
        lemma_suffix_positive(counts, t, t + 1);
        lemma_weighted_rows_mod(counts, i, t + 1);
        let sp = suffix_product(counts, t + 1) as int;
        let c = counts[t] as int;
        vstd::arithmetic::div_mod::lemma_breakdown(i, sp, c);
        assert(sp * c == c * sp) by (nonlinear_arith);
        assert(sp * ((i / sp) % c) == ((i / sp) % c) * sp) by (nonlinear_arith);
    }
}

/// Each combination of rows stands for its own number: the rows of the `i`-th combination,
/// each weighed by the product of the counts after it, add up to `i`, so no two combinations
/// take the same rows
pub proof fn lemma_cross_rows_decompose(counts: Seq<usize>, i: int)
    requires
        0 <= i < suffix_product(counts, 0),
    ensures
        weighted_rows(counts, i, 0) == i,
{
    lemma_weighted_rows_mod(counts, i, 0);
    vstd::arithmetic::div_mod::lemma_small_mod(i as nat, suffix_product(counts, 0));
}


/// Why reducing a table failed
#[derive(Debug)]
pub enum ReduceTableError<E> {
    /// There was no row to start from
    Empty,
    /// A function failed
    Func(E),
}

impl<E> ReduceTableError<E> {
    /// The message of the failure, where it is the library's own: an empty array cannot be
    /// reduced; a failed function brings its own error
    pub fn message(&self) -> (r: Option<&'static str>)
        ensures
            match self {
                ReduceTableError::Empty => r matches Some(m) && m@ == "Cannot reduce empty array"@,
                ReduceTableError::Func(_) => r is None,
            },
    {
        match self {
            ReduceTableError::Empty => Some("Cannot reduce empty array"),
            ReduceTableError::Func(_) => None,
        }
    }
}

/// How reducing a table ends where it does not fail
#[derive(Debug)]
pub enum ReducedTable<R> {
    /// The table was reduced row by row to a value
    Value(R),
    /// A fill value is set: the whole table is made with the tabled function first, and then
    /// reduced with the reducing function, the fill value standing in where rows are missing
    TableThenReduce,
}

/// Whether some values are what a function gives for a row and each of some other rows, in order
pub open spec fn rows_with<R, E, G: Fn(&R, &R) -> Result<R, E>>(g: G, x: &R, ys: Seq<R>, rs: Seq<R>) -> bool {
    rs.len() == ys.len() && forall|j: int| 0 <= j < ys.len() ==> g.ensures((x, &ys[j]), Ok(#[trigger] rs[j]))
}

/// Whether running a function on a row and each of some other rows, in order, fails with an
/// error: the function gives values for the rows before one, and the error for that one
pub open spec fn rows_with_fail<R, E, G: Fn(&R, &R) -> Result<R, E>>(g: G, x: &R, ys: Seq<R>, e: E) -> bool {
    exists|j: int, rs: Seq<R>|
        #![trigger rs.len(), g.ensures((x, &ys[j]), Err(e))]
        0 <= j < ys.len() && rs.len() == j && (forall|l: int|
            0 <= l < j ==> g.ensures((x, &ys[l]), Ok(#[trigger] rs[l]))) && g.ensures(
            (x, &ys[j]),
            Err(e),
        )
}

/// Run a function on a row and each of some other rows, in order; the first failure is the result
fn rows_with_exec<R, E, G: Fn(&R, &R) -> Result<R, E>>(g: &G, x: &R, ys: &Vec<R>) -> (r: Result<Vec<R>, E>)
    requires
        forall|a: &R, b: &R| g.requires((a, b)),
    ensures
        match r {
            Ok(rs) => rows_with(*g, x, ys@, rs@),
            Err(e) => rows_with_fail(*g, x, ys@, e),
        },
{
    let mut rs: Vec<R> = Vec::new();
    let mut j: usize = 0;
    while j < ys.len()
        invariant
            j <= ys@.len(),
            rs@.len() == j,
            forall|a: &R, b: &R| g.requires((a, b)),
            forall|k: int| 0 <= k < j ==> g.ensures((x, &ys@[k]), Ok(#[trigger] rs@[k])),
        decreases ys@.len() - j,
    {
        match g(x, &ys[j]) {
            Ok(v) => {
                rs.push(v);
            },
            Err(e) => {
                assert(rs@.len() == j);
                assert(g.ensures((x, &ys@[j as int]), Err(e)));
                return Err(e);
            },
        }
        j += 1;
    }
    Ok(rs)
}

/// Whether some values are the first `k` steps of reducing a table: for each of the first `k`
/// rows, the results of that row with each other row and what collecting them gave; the first
/// reduced value is the collected results of the first row, and each next one is the reducing
/// function on the one before and the collected results of the next row
pub open spec fn reduce_steps_upto<
    R,
    E,
    F: Fn(&R, &R) -> Result<R, E>,
    G: Fn(&R, &R) -> Result<R, E>,
    H: Fn(Vec<R>) -> Result<R, E>,
>(
    f: F,
    g: G,
    collect: H,
    xs: Seq<R>,
    ys: Seq<R>,
    accs: Seq<R>,
    rows: Seq<Vec<R>>,
    collected: Seq<R>,
    k: int,
) -> bool {
    &&& 0 <= k <= xs.len()
    &&& accs.len() == k
    &&& rows.len() == k
    &&& collected.len() == k
    &&& forall|m: int|
        0 <= m < k ==> rows_with(g, &xs[m], ys, (#[trigger] rows[m])@) && collect.ensures(
            (rows[m],),
            Ok(collected[m]),
        )
    &&& k > 0 ==> accs[0] == collected[0]
    &&& forall|m: int|
        1 <= m < k ==> f.ensures((&accs[m - 1], &collected[m]), Ok(#[trigger] accs[m]))
}

/// Whether some values are what reducing a table gives step by step, for every row
pub open spec fn reduce_steps<
    R,
    E,
    F: Fn(&R, &R) -> Result<R, E>,
    G: Fn(&R, &R) -> Result<R, E>,
    H: Fn(Vec<R>) -> Result<R, E>,
>(
    f: F,
    g: G,
    collect: H,
    xs: Seq<R>,
    ys: Seq<R>,
    accs: Seq<R>,
    rows: Seq<Vec<R>>,
    collected: Seq<R>,
) -> bool {
    &&& xs.len() > 0
    &&& reduce_steps_upto(f, g, collect, xs, ys, accs, rows, collected, xs.len() as int)
}

/// Whether the step of reducing a table at row `k`, after the steps before it, fails with an
/// error: running the tabling function on that row and some other row fails; or collecting
/// its results fails; or, past the first row, the reducing function fails on what was reduced
/// so far and those collected results
pub open spec fn reduce_step_fails<
    R,
    E,
    F: Fn(&R, &R) -> Result<R, E>,
    G: Fn(&R, &R) -> Result<R, E>,
    H: Fn(Vec<R>) -> Result<R, E>,
>(f: F, g: G, collect: H, xs: Seq<R>, ys: Seq<R>, accs: Seq<R>, k: int, e: E) -> bool {
    ||| rows_with_fail(g, &xs[k], ys, e)
    ||| exists|rs: Vec<R>| #[trigger] rows_with(g, &xs[k], ys, rs@) && collect.ensures((rs,), Err(e))
    ||| exists|rs: Vec<R>, c: R|
        #![trigger rows_with(g, &xs[k], ys, rs@), collect.ensures((rs,), Ok(c))]
        k >= 1 && rows_with(g, &xs[k], ys, rs@) && collect.ensures((rs,), Ok(c)) && f.ensures(
            (&accs[k - 1], &c),
            Err(e),
        )
}

/// Whether reducing a table fails with an error: the steps up to some row succeed, and the
/// step at that row fails with the error, at the first call that fails in the order the
/// steps make them
pub open spec fn reduce_fails<
    R,
    E,
    F: Fn(&R, &R) -> Result<R, E>,
    G: Fn(&R, &R) -> Result<R, E>,
    H: Fn(Vec<R>) -> Result<R, E>,
>(f: F, g: G, collect: H, xs: Seq<R>, ys: Seq<R>, e: E) -> bool {
    exists|accs: Seq<R>, rows: Seq<Vec<R>>, collected: Seq<R>, k: int|
        #![trigger reduce_steps_upto(f, g, collect, xs, ys, accs, rows, collected, k)]
        0 <= k < xs.len() && reduce_steps_upto(f, g, collect, xs, ys, accs, rows, collected, k)
            && reduce_step_fails(f, g, collect, xs, ys, accs, k, e)
}

/// Reduce a table. Where a fill value is set, the whole table is made and then reduced (the
/// caller does that with the fill). Otherwise: run a function on the first row and each other
/// row and collect the results; then for each next row, do the same and combine what was
/// reduced so far with those results by a second function. Without a fill value an empty first
/// array cannot be reduced; the first failure of a function is the result.
pub fn reduce_table<
    R,
    E,
    F: Fn(&R, &R) -> Result<R, E>,
    G: Fn(&R, &R) -> Result<R, E>,
    H: Fn(Vec<R>) -> Result<R, E>,
>(xs: &Vec<R>, ys: &Vec<R>, fill_set: bool, f: F, g: G, collect: H) -> (r: Result<
    ReducedTable<R>,
    ReduceTableError<E>,
>)
    requires
        forall|a: &R, b: &R| f.requires((a, b)),
        forall|a: &R, b: &R| g.requires((a, b)),
        forall|rows: Vec<R>| collect.requires((rows,)),
    ensures
        fill_set ==> r matches Ok(ReducedTable::TableThenReduce),
        !fill_set ==> (xs@.len() == 0 <==> r matches Err(ReduceTableError::Empty)),
        !fill_set ==> !(r matches Ok(ReducedTable::TableThenReduce)),
        r matches Ok(ReducedTable::Value(v)) ==> exists|accs: Seq<R>, rows: Seq<Vec<R>>, collected: Seq<R>|
            reduce_steps(f, g, collect, xs@, ys@, accs, rows, collected) && v == accs.last(),
        r matches Err(ReduceTableError::Func(e)) ==> reduce_fails(f, g, collect, xs@, ys@, e),
{
    if fill_set {
        return Ok(ReducedTable::TableThenReduce);
    }
    if xs.len() == 0 {
        return Err(ReduceTableError::Empty);
    }
    let ghost empty_accs: Seq<R> = seq![];
    let ghost empty_rows: Seq<Vec<R>> = seq![];
    assert(reduce_steps_upto(f, g, collect, xs@, ys@, empty_accs, empty_rows, empty_accs, 0));
    let first_rows = match rows_with_exec(&g, &xs[0], ys) {
        Ok(rs) => rs,
        Err(e) => {
            assert(reduce_step_fails(f, g, collect, xs@, ys@, empty_accs, 0, e));
            return Err(ReduceTableError::Func(e));
        },
    };
    let ghost first_ghost = first_rows;
    let mut acc = match collect(first_rows) {
        Ok(c) => c,
        Err(e) => {
            assert(rows_with(g, &xs@[0], ys@, first_ghost@));
            assert(reduce_step_fails(f, g, collect, xs@, ys@, empty_accs, 0, e));
            return Err(ReduceTableError::Func(e));
        },
    };
    let ghost mut accs: Seq<R> = seq![acc];
    let ghost mut rows_seq: Seq<Vec<R>> = seq![first_ghost];
    let ghost mut collected: Seq<R> = seq![acc];
    let mut i: usize = 1;
    while i < xs.len()
        invariant
            !fill_set,
            1 <= i <= xs@.len(),
            acc == accs.last(),
            forall|a: &R, b: &R| f.requires((a, b)),
            forall|a: &R, b: &R| g.requires((a, b)),
            forall|rows: Vec<R>| collect.requires((rows,)),
            reduce_steps_upto(f, g, collect, xs@, ys@, accs, rows_seq, collected, i as int),
        decreases xs@.len() - i,
    {
        let rows = match rows_with_exec(&g, &xs[i], ys) {
            Ok(rs) => rs,
            Err(e) => {
                assert(reduce_step_fails(f, g, collect, xs@, ys@, accs, i as int, e));
                return Err(ReduceTableError::Func(e));
            },
        };
        let ghost rows_ghost = rows;
        let c = match collect(rows) {
            Ok(c) => c,
            Err(e) => {
                assert(rows_with(g, &xs@[i as int], ys@, rows_ghost@));
                assert(reduce_step_fails(f, g, collect, xs@, ys@, accs, i as int, e));
                return Err(ReduceTableError::Func(e));
            },
        };
        let next = match f(&acc, &c) {
            Ok(v) => v,
            Err(e) => {
                assert(rows_with(g, &xs@[i as int], ys@, rows_ghost@));
                assert(collect.ensures((rows_ghost,), Ok(c)));
                assert(accs[i - 1] == acc);
                assert(reduce_step_fails(f, g, collect, xs@, ys@, accs, i as int, e));
                return Err(ReduceTableError::Func(e));
            },
        };
        proof {
            let old_accs = accs;
            let old_rows = rows_seq;
            let old_collected = collected;
            accs = accs.push(next);
            rows_seq = rows_seq.push(rows_ghost);
            collected = collected.push(c);
            assert forall|k: int| 0 <= k < i + 1 implies rows_with(
                g,
                &xs@[k],
                ys@,
                (#[trigger] rows_seq[k])@,
            ) && collect.ensures((rows_seq[k],), Ok(collected[k])) by {
                if k < i {
                    assert(rows_seq[k] == old_rows[k]);
                    assert(collected[k] == old_collected[k]);
                }
            }
            assert forall|k: int| 1 <= k < i + 1 implies f.ensures(
                (&accs[k - 1], &collected[k]),
                Ok(#[trigger] accs[k]),
            ) by {
                if k < i {
                    assert(accs[k] == old_accs[k]);
                    assert(accs[k - 1] == old_accs[k - 1]);
                    assert(collected[k] == old_collected[k]);
                } else {
                    assert(accs[k - 1] == old_accs.last());
                }
            }
            assert(reduce_steps_upto(f, g, collect, xs@, ys@, accs, rows_seq, collected, i + 1));
        }
        acc = next;
        i += 1;
    }
    assert(reduce_steps(f, g, collect, xs@, ys@, accs, rows_seq, collected));
    Ok(ReducedTable::Value(acc))
}

} // verus!
