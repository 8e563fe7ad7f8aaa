use blender::rejection::{reject, CombineRejection, IsReject, Rejection};

fn shown(r: &Rejection) -> String {
    format!("{:?}", r)
}

#[test]
fn new_rejection_has_no_reason() {
    assert_eq!(shown(&Rejection::new()), "Rejection { reason: None }");
    assert_eq!(shown(&reject()), "Rejection { reason: None }");
}

#[test]
fn with_reason_keeps_the_reason() {
    let r = Rejection::with_reason("missing header".to_string());
    assert_eq!(shown(&r), "Rejection { reason: Some(\"missing header\") }");
}

#[test]
fn combining_two_reasons_joins_them() {
    let a = Rejection::with_reason("left".to_string());
    let b = Rejection::with_reason("right".to_string());
    let c = a.combine(b);
    assert_eq!(shown(&c), "Rejection { reason: Some(\"left, right\") }");
}

#[test]
fn combining_with_a_reasonless_rejection_keeps_the_reason() {
    let a = Rejection::with_reason("only".to_string());
    let c = a.combine(Rejection::new());
    assert_eq!(shown(&c), "Rejection { reason: Some(\"only\") }");
    let d = Rejection::new().combine(Rejection::with_reason("other".to_string()));
    assert_eq!(shown(&d), "Rejection { reason: Some(\"other\") }");
}

#[test]
fn combining_two_reasonless_rejections_has_no_reason() {
    let c = reject().combine(reject());
    assert_eq!(shown(&c), "Rejection { reason: None }");
}

#[test]
fn combining_reasons_is_associative() {
    let r = |s: &str| Rejection::with_reason(s.to_string());
    let left = r("a").combine(r("b")).combine(r("c"));
    let right = r("a").combine(r("b").combine(r("c")));
    assert_eq!(shown(&left), shown(&right));
    assert_eq!(shown(&left), "Rejection { reason: Some(\"a, b, c\") }");
}

#[test]
fn empty_reasons_are_kept_as_reasons() {
    let c = Rejection::with_reason(String::new()).combine(Rejection::with_reason(String::new()));
    assert_eq!(shown(&c), "Rejection { reason: Some(\", \") }");
}

#[test]
fn rejection_status_is_zero() {
    assert_eq!(Rejection::new().status(), 0);
    assert_eq!(Rejection::with_reason("x".to_string()).status(), 0);
}
