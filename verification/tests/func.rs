use blender::combine::{Product, Tuple};
use blender::rejection::Rejection;
use blender::Func;

#[test]
fn call_without_arguments() {
    let f = || 42u32;
    assert_eq!(Func::call(&f, ()), 42u32);
}

#[test]
fn call_with_a_tuple_spreads_its_elements() {
    let f = |a: u32, b: u32, c: u32| a * 100 + b * 10 + c;
    assert_eq!(Func::call(&f, (1u32, 2u32, 3u32)), 123u32);
    let g = |a: &str| a.len();
    assert_eq!(Func::call(&g, ("four",)), 4usize);
}

#[test]
fn call_with_an_hlist_spreads_its_elements() {
    let f = |a: u32, b: u32| a - b;
    assert_eq!(Func::call(&f, Product(10u32, Product(3u32, ()))), 7u32);
}

#[test]
fn call_with_a_rejection() {
    let f = |r: Rejection| format!("{:?}", r);
    assert_eq!(Func::call(&f, Rejection::new()), "Rejection { reason: None }");
}

#[test]
fn call_with_sixteen_elements() {
    let f = |a: u8, b: u8, c: u8, d: u8, e: u8, f: u8, g: u8, h: u8, i: u8, j: u8, k: u8, l: u8, m: u8, n: u8, o: u8, p: u8| {
        a as u32 + b as u32 + c as u32 + d as u32 + e as u32 + f as u32 + g as u32 + h as u32
            + i as u32 + j as u32 + k as u32 + l as u32 + m as u32 + n as u32 + o as u32 + p as u32
    };
    assert_eq!(Func::call(&f, (1u8, 1u8, 1u8, 1u8, 1u8, 1u8, 1u8, 1u8, 1u8, 1u8, 1u8, 1u8, 1u8, 1u8, 1u8, 2u8)), 17u32);
}

#[test]
fn call_with_a_tuple_and_with_its_list_agree() {
    let f = |a: u32, b: &str, c: bool| format!("{}{}{}", a, b, c);
    let t = (7u32, "x", true);
    assert_eq!(Func::call(&f, t), Func::call(&f, t.hlist()));
    assert_eq!(Func::call(&f, t), "7xtrue");
}
