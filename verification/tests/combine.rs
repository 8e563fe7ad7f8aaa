use blender::combine::{combine, Combine, HList, Product, Tuple};

#[test]
fn tuple_to_hlist_and_back() {
    let h = (1u8, "two", 3.0f64).hlist();
    assert_eq!(h.0, 1u8);
    assert_eq!((h.1).0, "two");
    assert_eq!(((h.1).1).0, 3.0f64);
    assert_eq!(h.flatten(), (1u8, "two", 3.0f64));
}

#[test]
fn hlist_to_tuple_and_back() {
    let t = Product('a', Product(7i64, ())).flatten();
    assert_eq!(t, ('a', 7i64));
    let h = t.hlist();
    assert_eq!((h.0, (h.1).0), ('a', 7i64));
}

#[test]
fn combine_appends_the_second_tuple() {
    assert_eq!(combine((1u8, 2u16), (3u32,)), (1u8, 2u16, 3u32));
    assert_eq!(combine((1u8,), ("x", 'y', true)), (1u8, "x", 'y', true));
}

#[test]
fn combine_with_unit_on_either_side() {
    assert_eq!(combine((), (5u8, 6u8)), (5u8, 6u8));
    assert_eq!(combine((5u8, 6u8), ()), (5u8, 6u8));
    assert_eq!(combine((), ()), ());
}

#[test]
fn combine_is_associative_on_values() {
    let left = combine(combine((1u8,), (2u8,)), (3u8, 4u8));
    let right = combine((1u8,), combine((2u8,), (3u8, 4u8)));
    assert_eq!(left, right);
    assert_eq!(left, (1u8, 2u8, 3u8, 4u8));
}

#[test]
fn combine_hlists_directly() {
    let h = Combine::combine(Product(1u8, ()), Product(2u8, Product(3u8, ())));
    assert_eq!(h.flatten(), (1u8, 2u8, 3u8));
    let u = Combine::combine((), Product(9u8, ()));
    assert_eq!(u.flatten(), (9u8,));
}

#[test]
fn combine_reaches_sixteen_elements() {
    let a = (1u8, 2u8, 3u8, 4u8, 5u8, 6u8, 7u8, 8u8);
    let b = (9u8, 10u8, 11u8, 12u8, 13u8, 14u8, 15u8, 16u8);
    let (c1, c2, c3, c4, c5, c6, c7, c8, c9, c10, c11, c12, c13, c14, c15, c16) =
        combine(a, b).hlist().flatten();
    assert_eq!((c1, c2, c3, c4, c5, c6, c7, c8), (1u8, 2u8, 3u8, 4u8, 5u8, 6u8, 7u8, 8u8));
    assert_eq!((c9, c10, c11, c12, c13, c14, c15, c16), (9u8, 10u8, 11u8, 12u8, 13u8, 14u8, 15u8, 16u8));
}
