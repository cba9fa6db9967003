//! Laws of tabling: the fast paths for lists of bytes make the table that running the tabled
//! function on every pair makes, and how a function is tabled goes by its number of arguments
use vstd::prelude::*;

use crate::primitive::Primitive;
use crate::table::{
    couple_at, is_numeric, rows_before, join_or_couple_result, size_fits, spec_byte_op, spec_byte_table_plan,
    spec_cross_shape, spec_rank, spec_table_plan, spec_table_shape, table_bytes_result,
    table_rows_result, ByteOp, ByteTablePlan, SizeError, TablePlan,
};
use crate::value::{Array, Value};

verus! {

/// A place below `n * m` is the row-major place of one pair of indices
proof fn lemma_row_major_place(k: int, n: int, m: int)
    requires
        0 <= k < n * m,
        0 <= n,
        0 <= m,
    ensures
        0 < m,
        0 <= k / m < n,
        0 <= k % m < m,
        k == (k / m) * m + k % m,
{
    if m == 0 {
        assert(n * m == 0) by (nonlinear_arith)
            requires
                m == 0,
        ;
    }
    vstd::arithmetic::div_mod::lemma_fundamental_div_mod(k, m);
    vstd::arithmetic::div_mod::lemma_mod_pos_bound(k, m);
    vstd::arithmetic::div_mod::lemma_div_pos_is_pos(k, m);
    let q = k / m;
    assert(q * m == m * q) by (nonlinear_arith);
    if q >= n {
        assert(q * m >= n * m) by (nonlinear_arith)
            requires
                q >= n,
                m > 0,
        ;
    }
}

/// Where the function tabled over two lists of bytes is a primitive for which the fast path
/// chose a byte operation, and the function gives on every pair of bytes what that operation
/// gives, the fast path and running the function on every pair agree: running the function
/// never fails, the fast path succeeds exactly where the table fits in the allowed memory, and
/// then the two tables hold the same bytes
pub proof fn lemma_fast_byte_table_agrees<E, F: Fn(&u8, &u8) -> Result<u8, E>>(
    prim: Primitive,
    flipped: bool,
    op: ByteOp,
    f: F,
    xs: Array<u8>,
    ys: Array<u8>,
    fast: Result<Array<u8>, SizeError>,
    rows: Result<Vec<u8>, E>,
)
    requires
        spec_byte_table_plan(prim, flipped) == ByteTablePlan::Byte(op),
        forall|x: &u8, y: &u8, r: Result<u8, E>|
            #[trigger] f.ensures((x, y), r) ==> r == Ok::<u8, E>(spec_byte_op(op, *x, *y)),
        table_bytes_result(op, xs, ys, fast),
        table_rows_result(xs.data@, ys.data@, f, rows),
    ensures
        rows is Ok,
        fast is Ok <==> size_fits(1, seq![xs.data@.len() as usize, ys.data@.len() as usize]),
        fast matches Ok(t) ==> t.data@ == rows->Ok_0@,
{
    let n = xs.data@.len() as int;
    let m = ys.data@.len() as int;
    if let Err(e) = rows {
        let (i, j, outs) = choose|i: int, j: int, outs: Seq<u8>|
            0 <= i < n && 0 <= j < m && rows_before(xs.data@, ys.data@, f, i, j, outs)
                && f.ensures((&xs.data@[i], &ys.data@[j]), Err(e));
        assert(f.ensures((&xs.data@[i], &ys.data@[j]), Err(e)));
    }
    if let Ok(t) = fast {
        let outs = rows->Ok_0@;
        assert forall|k: int| 0 <= k < t.data@.len() implies t.data@[k] == outs[k] by {
            lemma_row_major_place(k, n, m);
            let i = k / m;
            let j = k % m;
            assert(xs.data@[i] == xs.data@[i] && ys.data@[j] == ys.data@[j]);
            assert(f.ensures((&xs.data@[i], &ys.data@[j]), Ok(outs[i * m + j])));
        }
        assert(t.data@ =~= outs);
    }
}

/// The elements of pairs laid end to end
pub open spec fn flatten_pairs<T>(pairs: Seq<Vec<T>>) -> Seq<T> {
    Seq::new(2 * pairs.len(), |p: int| pairs[p / 2]@[p % 2])
}

/// Where the function tabled over two lists is `join` or `couple`, possibly flipped, so that it
/// gives for each pair of elements the two elements in their order (reversed where flipped),
/// the fast path and running the function on every pair agree: running the function never
/// fails, the fast path succeeds exactly where the table fits in the allowed memory, and then
/// its elements are the pairs that running the function gives, laid end to end
pub proof fn lemma_fast_couple_table_agrees<T, E, F: Fn(&T, &T) -> Result<Vec<T>, E>>(
    prim: Primitive,
    flipped: bool,
    f: F,
    xs: Array<T>,
    ys: Array<T>,
    fast: Result<Array<T>, SizeError>,
    rows: Result<Vec<Vec<T>>, E>,
)
    requires
        prim is Join || prim is Couple,
        forall|x: &T, y: &T, r: Result<Vec<T>, E>|
            #[trigger] f.ensures((x, y), r) ==> (r matches Ok(v) && v@ == if flipped {
                seq![*y, *x]
            } else {
                seq![*x, *y]
            }),
        join_or_couple_result(xs, ys, flipped, fast),
        table_rows_result(xs.data@, ys.data@, f, rows),
    ensures
        spec_byte_table_plan(prim, flipped) == ByteTablePlan::JoinOrCouple(flipped),
        rows is Ok,
        fast is Ok <==> size_fits(
            vstd::layout::size_of::<T>(),
            seq![xs.data@.len() as usize, ys.data@.len() as usize, 2],
        ),
        fast matches Ok(t) ==> t.data@ == flatten_pairs(rows->Ok_0@),
{
    let n = xs.data@.len() as int;
    let m = ys.data@.len() as int;
    if let Err(e) = rows {
        let (i, j, outs) = choose|i: int, j: int, outs: Seq<Vec<T>>|
            0 <= i < n && 0 <= j < m && rows_before(xs.data@, ys.data@, f, i, j, outs)
                && f.ensures((&xs.data@[i], &ys.data@[j]), Err(e));
        assert(f.ensures((&xs.data@[i], &ys.data@[j]), Err(e)));
    }
    if let Ok(t) = fast {
        let outs = rows->Ok_0@;
        let flat = flatten_pairs(outs);
        assert forall|p: int| 0 <= p < t.data@.len() implies t.data@[p] == flat[p] by {
            let k = p / 2;
            assert(0 <= k < n * m);
            lemma_row_major_place(k, n, m);
            let i = k / m;
            let j = k % m;
            assert(xs.data@[i] == xs.data@[i] && ys.data@[j] == ys.data@[j]);
            assert(couple_at(t.data@, 2 * (i * m + j), xs.data@[i], ys.data@[j], flipped));
            assert(f.ensures((&xs.data@[i], &ys.data@[j]), Ok(outs[i * m + j])));
        }
        assert(t.data@ =~= flat);
    }
}

/// How a function is tabled goes by its number of arguments: without arguments it is run once,
/// with one it runs on each row, and with more it is tabled over the values: two lists of rank
/// at most one element by element, a function that multiplies and then sums numbers as a
/// matrix product, and anything else pair by pair
pub proof fn lemma_table_plan(args: usize, xs: &Value, ys: &Value, mul_reduce_add: bool)
    ensures
        (spec_table_plan(args, xs, ys, mul_reduce_add) == TablePlan::Exec) <==> args == 0,
        (spec_table_plan(args, xs, ys, mul_reduce_add) == TablePlan::Rows) <==> args == 1,
        (spec_table_plan(args, xs, ys, mul_reduce_add) == TablePlan::List) <==> (args == 2
            && spec_rank(xs) <= 1 && spec_rank(ys) <= 1),
        (spec_table_plan(args, xs, ys, mul_reduce_add) == TablePlan::MatrixMul) <==> (args >= 2
            && !(args == 2 && spec_rank(xs) <= 1 && spec_rank(ys) <= 1) && mul_reduce_add
            && is_numeric(xs) && is_numeric(ys)),
        (spec_table_plan(args, xs, ys, mul_reduce_add) == TablePlan::Generic) <==> (args >= 2
            && !(args == 2 && spec_rank(xs) <= 1 && spec_rank(ys) <= 1) && !(mul_reduce_add
            && is_numeric(xs) && is_numeric(ys))),
{
}

/// A table of a function of two or more arguments has the arguments' row counts as its
/// leading axes, the first argument's first (for two arguments, where neither is a scalar),
/// followed by the shape of a row of what the function gives
pub proof fn lemma_table_leading_axes(
    x_rows: usize,
    y_rows: usize,
    row_counts: Seq<usize>,
    collected: Seq<usize>,
)
    ensures
        spec_table_shape(x_rows, y_rows, false, false, collected).take(2) == seq![x_rows, y_rows],
        spec_table_shape(x_rows, y_rows, false, false, collected).skip(2) == collected.skip(1),
        spec_cross_shape(row_counts, collected).take(row_counts.len() as int) == row_counts,
        spec_cross_shape(row_counts, collected).skip(row_counts.len() as int) == collected.skip(1),
{
    assert(spec_table_shape(x_rows, y_rows, false, false, collected).take(2) =~= seq![
        x_rows,
        y_rows,
    ]);
    assert(spec_table_shape(x_rows, y_rows, false, false, collected).skip(2) =~= collected.skip(
        1,
    ));
    assert(spec_cross_shape(row_counts, collected).take(row_counts.len() as int) =~= row_counts);
    assert(spec_cross_shape(row_counts, collected).skip(row_counts.len() as int)
        =~= collected.skip(1));
}


/// The fast table of two byte lists for a primitive gives, for each pair of bytes `x` from the
/// first list and `y` from the second, what the primitive means for them: `=` and `≠` give 1
/// where the bytes are equal or differ, `<`, `>`, `≤` and `≥` compare the second byte with the
/// first, and `↧` and `↥` give the smaller or larger byte; comparisons give only 0 or 1
pub proof fn lemma_byte_table_meaning(prim: Primitive, flipped: bool, x: u8, y: u8)
    ensures
        spec_byte_table_plan(prim, flipped) matches ByteTablePlan::Byte(op) ==> {
            let v = spec_byte_op(op, x, y);
            &&& (prim is Eq ==> (v == 1 <==> x == y) && (v == 0 <==> x != y))
            &&& (prim is Ne ==> (v == 1 <==> x != y) && (v == 0 <==> x == y))
            &&& (prim is Lt ==> !flipped && (v == 1 <==> y < x) && (v == 0 <==> y >= x))
            &&& (prim is Gt ==> !flipped && (v == 1 <==> y > x) && (v == 0 <==> y <= x))
            &&& (prim is Le ==> !flipped && (v == 1 <==> y <= x) && (v == 0 <==> y > x))
            &&& (prim is Ge ==> !flipped && (v == 1 <==> y >= x) && (v == 0 <==> y < x))
            &&& (prim is Min ==> v <= x && v <= y && (v == x || v == y))
            &&& (prim is Max ==> v >= x && v >= y && (v == x || v == y))
            &&& (prim is Eq || prim is Ne || prim is Lt || prim is Gt || prim is Le || prim is Ge
                || prim is Min || prim is Max)
        },
{
}

} // verus!
