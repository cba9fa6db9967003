use uiua::primitive::Primitive;
use uiua::primitive::impl_prim::ImplPrimitive;
use uiua::table::{
    byte_table_plan, cross_row_indices, reduce_table, ReduceTableError, ReducedTable, cross_shape, fast_table_list, fast_table_list_join_or_couple, table_list, table_bytes,
    table, table_rows, table_shape, validate_size, ByteOp, ByteTablePlan, ListPlan, NumOp,
    SizeError, TablePlan,
};
use uiua::value::{Array, Boxed, Num, Value};

fn bytes(data: Vec<u8>) -> Array<u8> {
    Array { shape: vec![data.len()], data }
}

#[test]
fn table_equality_of_bytes() {
    let t = table_bytes(ByteOp::Eq, bytes(vec![1, 2, 3]), bytes(vec![2, 3])).unwrap();
    assert_eq!(t.shape, vec![3, 2]);
    assert_eq!(t.data, vec![0, 0, 1, 0, 0, 1]);
}

#[test]
fn table_comparisons_look_at_the_other_byte() {
    let t = table_bytes(ByteOp::OtherLt, bytes(vec![1, 2, 3]), bytes(vec![2])).unwrap();
    assert_eq!(t.data, vec![0, 0, 1]);
    let t = table_bytes(ByteOp::OtherGe, bytes(vec![1, 2, 3]), bytes(vec![2])).unwrap();
    assert_eq!(t.data, vec![1, 1, 0]);
    let t = table_bytes(ByteOp::Max, bytes(vec![1, 5]), bytes(vec![3])).unwrap();
    assert_eq!(t.data, vec![3, 5]);
    let t = table_bytes(ByteOp::Min, bytes(vec![1, 5]), bytes(vec![3])).unwrap();
    assert_eq!(t.data, vec![1, 3]);
}

#[test]
fn table_with_a_function() {
    let t = fast_table_list(bytes(vec![1, 2]), bytes(vec![10, 20, 30]), |x: u8, y: u8| x as u32 * y as u32)
        .unwrap();
    assert_eq!(t.shape, vec![2, 3]);
    assert_eq!(t.data, vec![10, 20, 30, 20, 40, 60]);
}

#[test]
fn couple_pairs_in_order_or_flipped() {
    let t = fast_table_list_join_or_couple(bytes(vec![1, 2]), bytes(vec![3]), false).unwrap();
    assert_eq!(t.shape, vec![2, 1, 2]);
    assert_eq!(t.data, vec![1, 3, 2, 3]);
    let t = fast_table_list_join_or_couple(bytes(vec![1, 2]), bytes(vec![3]), true).unwrap();
    assert_eq!(t.data, vec![3, 1, 3, 2]);
    let chars = Array { shape: vec![2], data: vec!['a', 'b'] };
    let more = Array { shape: vec![1], data: vec!['c'] };
    let t = fast_table_list_join_or_couple(chars, more, false).unwrap();
    assert_eq!(t.data, vec!['a', 'c', 'b', 'c']);
}

#[test]
fn sizes_are_validated() {
    assert_eq!(validate_size(1, &vec![2, 3]), Ok(6));
    assert_eq!(validate_size(8, &vec![0, usize::MAX]), Ok(0));
    assert_eq!(validate_size(1, &vec![65536, 65537]), Err(SizeError));
    assert_eq!(validate_size(1, &vec![65536, 65536]), Ok(4294967296));
    assert_eq!(validate_size(2, &vec![65536, 65536]), Err(SizeError));
}

#[test]
fn plans_for_tabling_bytes() {
    assert_eq!(byte_table_plan(Primitive::Lt, false), ByteTablePlan::Byte(ByteOp::OtherLt));
    assert_eq!(byte_table_plan(Primitive::Lt, true), ByteTablePlan::Generic);
    assert_eq!(byte_table_plan(Primitive::Eq, true), ByteTablePlan::Byte(ByteOp::Eq));
    assert_eq!(byte_table_plan(Primitive::Add, true), ByteTablePlan::Num(NumOp::Add));
    assert_eq!(byte_table_plan(Primitive::Div, true), ByteTablePlan::Generic);
    assert_eq!(byte_table_plan(Primitive::Join, true), ByteTablePlan::JoinOrCouple(true));
    assert_eq!(byte_table_plan(Primitive::Couple, false), ByteTablePlan::JoinOrCouple(false));
    assert_eq!(byte_table_plan(Primitive::Reverse, false), ByteTablePlan::Generic);
}

#[test]
fn shapes_of_tabled_results() {
    assert_eq!(table_shape(3, 4, false, false, &vec![12, 5]), vec![3, 4, 5]);
    assert_eq!(table_shape(3, 4, false, true, &vec![12, 5]), vec![3, 5]);
    assert_eq!(table_shape(3, 4, true, true, &vec![12]), Vec::<usize>::new());
}

#[test]
fn rows_are_tabled_in_order() {
    let xs = vec![1, 2];
    let ys = vec![10, 20, 30];
    let r: Result<Vec<i32>, ()> = table_rows(&xs, &ys, |x: &i32, y: &i32| Ok(x * 100 + y));
    assert_eq!(r, Ok(vec![110, 120, 130, 210, 220, 230]));
    let r: Result<Vec<i32>, i32> =
        table_rows(&xs, &ys, |x: &i32, y: &i32| if *y == 20 { Err(*x) } else { Ok(0) });
    assert_eq!(r, Err(1));
}

fn num_list(n: usize) -> Value {
    Value::Num(Array { shape: vec![n], data: vec![Num(0); n] })
}

fn byte_matrix() -> Value {
    Value::Byte(Array { shape: vec![2, 2], data: vec![1, 2, 3, 4] })
}

#[test]
fn plans_for_tabling_functions() {
    assert_eq!(table(0, &num_list(2), &num_list(2), false), TablePlan::Exec);
    assert_eq!(table(1, &num_list(2), &num_list(2), false), TablePlan::Rows);
    assert_eq!(table(2, &num_list(2), &num_list(3), true), TablePlan::List);
    assert_eq!(table(2, &byte_matrix(), &num_list(3), true), TablePlan::MatrixMul);
    assert_eq!(table(2, &byte_matrix(), &num_list(3), false), TablePlan::Generic);
    assert_eq!(table(3, &num_list(2), &num_list(2), false), TablePlan::Generic);
}

#[test]
fn plans_for_tabling_lists() {
    let bytes = || Value::Byte(Array { shape: vec![2], data: vec![1, 2] });
    let chars = || Value::Char(Array { shape: vec![1], data: vec!['a'] });
    let boxes = || Value::Box(Array { shape: vec![1], data: vec![Boxed(Box::new(bytes()))] });
    assert_eq!(table_list(Some((Primitive::Add, false)), None, &num_list(2), &num_list(2)), ListPlan::Generic);
    assert_eq!(
        table_list(Some((Primitive::Eq, false)), None, &bytes(), &bytes()),
        ListPlan::Bytes(ByteTablePlan::Byte(ByteOp::Eq))
    );
    assert_eq!(table_list(Some((Primitive::Add, false)), None, &num_list(1), &bytes()), ListPlan::GenericNumYs);
    assert_eq!(table_list(Some((Primitive::Add, false)), None, &bytes(), &num_list(1)), ListPlan::GenericNumXs);
    assert_eq!(table_list(Some((Primitive::Couple, true)), None, &boxes(), &chars()), ListPlan::CoupleBoxes(true));
    assert_eq!(table_list(Some((Primitive::Join, false)), None, &chars(), &chars()), ListPlan::CoupleChars(false));
    assert_eq!(table_list(Some((Primitive::Add, false)), None, &chars(), &chars()), ListPlan::Generic);
    assert_eq!(
        table_list(None, Some((ImplPrimitive::ReplaceRand2, false)), &chars(), &chars()),
        ListPlan::RandomNums
    );
    assert_eq!(table_list(None, None, &num_list(2), &num_list(2)), ListPlan::Generic);
}

#[test]
fn crossed_rows_change_fastest_at_the_end() {
    let counts = vec![2, 3];
    let all: Vec<Vec<usize>> = (0..6).map(|i| cross_row_indices(&counts, i)).collect();
    assert_eq!(
        all,
        vec![vec![0, 0], vec![0, 1], vec![0, 2], vec![1, 0], vec![1, 1], vec![1, 2]]
    );
    assert_eq!(cross_row_indices(&vec![], 0), Vec::<usize>::new());
    assert_eq!(cross_shape(&vec![2, 3, 4], &vec![24, 5]), vec![2, 3, 4, 5]);
}

#[test]
fn crossed_rows_stand_for_their_number() {
    let counts = vec![2, 3, 4];
    for i in 0..24 {
        let r = cross_row_indices(&counts, i);
        assert_eq!(r[0] * 12 + r[1] * 4 + r[2], i);
    }
}

#[test]
fn tables_reduce_row_by_row() {
    let xs = vec![1i64, 2, 3];
    let ys = vec![10i64, 20];
    let r: Result<ReducedTable<i64>, ReduceTableError<String>> = reduce_table(
        &xs,
        &ys,
        false,
        |acc: &i64, c: &i64| Ok(acc + c),
        |x: &i64, y: &i64| Ok(x * y),
        |rows: Vec<i64>| Ok(rows.iter().sum()),
    );
    assert!(matches!(r, Ok(ReducedTable::Value(180))));
    let r: Result<ReducedTable<i64>, ReduceTableError<String>> = reduce_table(
        &xs,
        &ys,
        false,
        |acc: &i64, c: &i64| Ok(acc - c),
        |x: &i64, y: &i64| Ok(x + y),
        |rows: Vec<i64>| Ok(rows[0]),
    );
    assert!(matches!(r, Ok(ReducedTable::Value(v)) if v == 11 - 12 - 13));
    let empty: Vec<i64> = vec![];
    let r: Result<ReducedTable<i64>, ReduceTableError<String>> = reduce_table(
        &empty,
        &ys,
        false,
        |a: &i64, _: &i64| Ok(*a),
        |x: &i64, _: &i64| Ok(*x),
        |_: Vec<i64>| Ok(0),
    );
    assert!(matches!(r, Err(ReduceTableError::Empty)));
    assert_eq!(r.unwrap_err().message(), Some("Cannot reduce empty array"));
    let r: Result<ReducedTable<i64>, ReduceTableError<String>> = reduce_table(
        &empty,
        &ys,
        true,
        |a: &i64, _: &i64| Ok(*a),
        |x: &i64, _: &i64| Ok(*x),
        |_: Vec<i64>| Ok(0),
    );
    assert!(matches!(r, Ok(ReducedTable::TableThenReduce)));
    let r: Result<ReducedTable<i64>, ReduceTableError<String>> = reduce_table(
        &xs,
        &ys,
        false,
        |a: &i64, _: &i64| Ok(*a),
        |x: &i64, _: &i64| if *x == 2 { Err("two".to_string()) } else { Ok(*x) },
        |_: Vec<i64>| Ok(0),
    );
    assert!(matches!(r, Err(ReduceTableError::Func(ref e)) if e == "two"));
    assert_eq!(r.unwrap_err().message(), None);
}

#[test]
fn fast_byte_tables_agree_with_running_every_pair() {
    let xs = vec![3u8, 7, 7];
    let ys = vec![7u8, 1];
    for op in [ByteOp::Eq, ByteOp::OtherLt, ByteOp::Max] {
        let fast = table_bytes(op, bytes(xs.clone()), bytes(ys.clone())).unwrap();
        let rows: Result<Vec<u8>, ()> = table_rows(&xs, &ys, |x: &u8, y: &u8| {
            Ok(table_bytes(op, bytes(vec![*x]), bytes(vec![*y])).unwrap().data[0])
        });
        assert_eq!(fast.data, rows.unwrap());
    }
    let pairs = fast_table_list_join_or_couple(bytes(xs.clone()), bytes(ys.clone()), true).unwrap();
    let rows: Result<Vec<Vec<u8>>, ()> = table_rows(&xs, &ys, |x: &u8, y: &u8| Ok(vec![*y, *x]));
    let flat: Vec<u8> = rows.unwrap().into_iter().flatten().collect();
    assert_eq!(pairs.data, flat);
}
