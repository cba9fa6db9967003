//! Arrays and values
use vstd::prelude::*;

verus! {

/// A number, held by the bits of its IEEE 754 binary64 encoding
#[derive(Debug, Clone, Copy, PartialEq, Eq, Structural)]
pub struct Num(pub u64);

/// A multidimensional array: its shape and its elements in row-major order
#[derive(Debug, Clone)]
pub struct Array<T> {
    /// The length of each axis
    pub shape: Vec<usize>,
    /// The elements, row after row
    pub data: Vec<T>,
}

/// The product of some sizes: the number of elements of an array of that shape
pub open spec fn product(sizes: Seq<usize>) -> nat
    decreases sizes.len(),
{
    if sizes.len() == 0 {
        1
    } else {
        product(sizes.drop_last()) * sizes.last() as nat
    }
}

/// The product of two shapes laid end to end is the product of their products
pub proof fn lemma_product_concat(a: Seq<usize>, b: Seq<usize>)
    ensures
        product(a + b) == product(a) * product(b),
    decreases b.len(),
{
    if b.len() == 0 {
        assert(a + b =~= a);
        assert(product(b) == 1);
        assert(product(a) * 1 == product(a));
    } else {
        assert((a + b).drop_last() =~= a + b.drop_last());
        lemma_product_concat(a, b.drop_last());
        let pa = product(a);
        let pb = product(b.drop_last());
        let l = b.last() as nat;
        assert((a + b).last() == b.last());
        assert(product(a + b) == product(a + b.drop_last()) * l);
        assert(product(b) == pb * l);
        assert(pa * pb * l == pa * (pb * l)) by (nonlinear_arith);
    }
}

impl<T> Array<T> {
    /// Whether the array holds as many elements as its shape says
    pub open spec fn spec_wf(&self) -> bool {
        self.data@.len() == product(self.shape@)
    }
}

/// A value in a box
#[derive(Debug)]
pub struct Boxed(pub Box<Value>);

impl Clone for Boxed {
    fn clone(&self) -> (r: Self)
        ensures
            same_value(*self.0, *r.0),
    {
        Boxed(Box::new(copy_value(&self.0)))
    }
}

/// A Uiua value
#[derive(Debug)]
pub enum Value {
    /// An array of numbers
    Num(Array<Num>),
    /// An array of bytes
    Byte(Array<u8>),
    /// An array of characters
    Char(Array<char>),
    /// An array of boxed values
    Box(Array<Boxed>),
}

impl Clone for Value {
    fn clone(&self) -> (r: Self)
        ensures
            same_value(*self, r),
    {
        copy_value(self)
    }
}

/// Whether two values hold the same: the same kind of array, the same shape and the same
/// elements, boxed values compared in turn
pub open spec fn same_value(a: Value, b: Value) -> bool
    decreases a,
{
    match a {
        Value::Num(x) => b matches Value::Num(y) && x.shape@ == y.shape@ && x.data@ == y.data@,
        Value::Byte(x) => b matches Value::Byte(y) && x.shape@ == y.shape@ && x.data@ == y.data@,
        Value::Char(x) => b matches Value::Char(y) && x.shape@ == y.shape@ && x.data@ == y.data@,
        Value::Box(x) => b matches Value::Box(y) && x.shape@ == y.shape@ && x.data@.len()
            == y.data@.len() && forall|i: int|
            0 <= i < x.data@.len() ==> same_value(*x.data@[i].0, *y.data@[i].0),
    }
}

/// A copy of a list of numbers
fn copy_nums(v: &Vec<Num>) -> (r: Vec<Num>)
    ensures
        r@ == v@,
{
    let mut r: Vec<Num> = Vec::new();
    let mut i: usize = 0;
    while i < v.len()
        invariant
            i <= v@.len(),
            r@ == v@.take(i as int),
        decreases v@.len() - i,
    {
        r.push(v[i]);
        i += 1;
        assert(r@ =~= v@.take(i as int));
    }
    assert(v@.take(v@.len() as int) =~= v@);
    r
}

/// A copy of a value, the boxed values within it copied in turn
fn copy_value(v: &Value) -> (r: Value)
    ensures
        same_value(*v, r),
    decreases v,
{
    match v {
        Value::Num(a) => {
            let shape = a.shape.clone();
            assert(shape@ =~= a.shape@);
            Value::Num(Array { shape, data: copy_nums(&a.data) })
        },
        Value::Byte(a) => {
            let shape = a.shape.clone();
            let data = a.data.clone();
            assert(shape@ =~= a.shape@);
            assert(data@ =~= a.data@);
            Value::Byte(Array { shape, data })
        },
        Value::Char(a) => {
            let shape = a.shape.clone();
            let data = a.data.clone();
            assert(shape@ =~= a.shape@);
            assert(data@ =~= a.data@);
            Value::Char(Array { shape, data })
        },
        Value::Box(a) => {
            let mut data: Vec<Boxed> = Vec::new();
            let mut i: usize = 0;
            while i < a.data.len()
                invariant
                    i <= a.data.len(),
                    *v == Value::Box(*a),
                    data@.len() == i,
                    forall|k: int| 0 <= k < i ==> same_value(*a.data@[k].0, *#[trigger] data@[k].0),
                decreases a.data.len() - i,
            {
                proof {
                    assert(decreases_to!(*v => v->Box_0));
                    assert(decreases_to!(a.data => a.data@));
                    assert(decreases_to!(a.data@ => a.data@[i as int]));
                }
                data.push(Boxed(Box::new(copy_value(&a.data[i].0))));
                i += 1;
            }
            let shape = a.shape.clone();
            assert(shape@ =~= a.shape@);
            Value::Box(Array { shape, data })
        },
    }
}

} // verus!
