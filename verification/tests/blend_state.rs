use blender::blender::and::{and_advance, AndAction, AndEvent, AndState};
use blender::blender::try_blend::{try_blend_advance, TryBlendAction, TryBlendEvent, TryBlendState};
use blender::blender::Polled;
use blender::rejection::Rejection;
use std::convert::Infallible;

type AndEv = AndEvent<(u8,), (u16, u32), Rejection, Rejection>;

fn is_first<T>(s: &AndState<T>) -> bool {
    matches!(s, AndState::First)
}

#[test]
fn and_runs_both_stages_and_combines() {
    let mut state: AndState<(u8,)> = AndState::new();
    let a = and_advance(&mut state, AndEv::FirstPolled(Polled::Ready(Ok((1u8,)))));
    assert!(matches!(a, AndAction::BlendSecond));
    assert!(matches!(state, AndState::Second(Some((1u8,)))));
    let b = and_advance(&mut state, AndEv::SecondPolled(Polled::Ready(Ok((2u16, 3u32)))));
    match b {
        AndAction::Return(Polled::Ready(Ok(v))) => assert_eq!(v, (1u8, 2u16, 3u32)),
        _ => panic!("expected the combined extract"),
    }
    assert!(matches!(state, AndState::Done));
}

#[test]
fn and_pending_keeps_the_state() {
    let mut state: AndState<(u8,)> = AndState::new();
    let a = and_advance(&mut state, AndEv::FirstPolled(Polled::Pending));
    assert!(matches!(a, AndAction::Return(Polled::Pending)));
    assert!(is_first(&state));
    and_advance(&mut state, AndEv::FirstPolled(Polled::Ready(Ok((4u8,)))));
    let b = and_advance(&mut state, AndEv::SecondPolled(Polled::Pending));
    assert!(matches!(b, AndAction::Return(Polled::Pending)));
    assert!(matches!(state, AndState::Second(Some((4u8,)))));
}

#[test]
fn and_first_error_is_returned_and_second_not_started() {
    let mut state: AndState<(u8,)> = AndState::new();
    let a = and_advance(
        &mut state,
        AndEv::FirstPolled(Polled::Ready(Err(Rejection::with_reason("first".to_string())))),
    );
    match a {
        AndAction::Return(Polled::Ready(Err(e))) => {
            assert_eq!(format!("{:?}", e), "Rejection { reason: Some(\"first\") }")
        },
        _ => panic!("expected the first error"),
    }
    assert!(is_first(&state));
}

#[test]
fn and_second_error_is_returned_and_first_extract_kept() {
    let mut state: AndState<(u8,)> = AndState::new();
    and_advance(&mut state, AndEv::FirstPolled(Polled::Ready(Ok((5u8,)))));
    let b = and_advance(
        &mut state,
        AndEv::SecondPolled(Polled::Ready(Err(Rejection::with_reason("second".to_string())))),
    );
    match b {
        AndAction::Return(Polled::Ready(Err(e))) => {
            assert_eq!(format!("{:?}", e), "Rejection { reason: Some(\"second\") }")
        },
        _ => panic!("expected the second error"),
    }
    assert!(matches!(state, AndState::Second(Some((5u8,)))));
}

#[test]
fn and_with_unit_extracts() {
    let mut state: AndState<()> = AndState::new();
    and_advance(&mut state, AndEvent::<(), (), Infallible, Infallible>::FirstPolled(Polled::Ready(Ok(()))));
    let b = and_advance(&mut state, AndEvent::<(), (), Infallible, Infallible>::SecondPolled(Polled::Ready(Ok(()))));
    assert!(matches!(b, AndAction::Return(Polled::Ready(Ok(())))));
}

type TryEv = TryBlendEvent<(u8, u8), Rejection, u32, Rejection>;

#[test]
fn try_blend_calls_the_callback_with_the_extract() {
    let callback = |a: u8, b: u8| (a as u32) * 10 + b as u32;
    let mut state = TryBlendState::new();
    let a = try_blend_advance(&mut state, &callback, TryEv::FirstPolled(Polled::Ready(Ok((4u8, 2u8)))));
    match a {
        TryBlendAction::Called(out) => assert_eq!(out, 42u32),
        _ => panic!("expected the callback to be called"),
    }
    assert!(matches!(state, TryBlendState::Second));
    let b = try_blend_advance(&mut state, &callback, TryEv::SecondPolled(Polled::Ready(Ok(7u32))));
    match b {
        TryBlendAction::Return(Polled::Ready(Ok(v))) => assert_eq!(v, (7u32,)),
        _ => panic!("expected the callback's value"),
    }
    assert!(matches!(state, TryBlendState::Done));
}

#[test]
fn try_blend_first_error_skips_the_callback() {
    let callback = |a: u8, b: u8| (a as u32) + (b as u32);
    let mut state = TryBlendState::new();
    let a = try_blend_advance(
        &mut state,
        &callback,
        TryEv::FirstPolled(Polled::Ready(Err(Rejection::with_reason("inner".to_string())))),
    );
    match a {
        TryBlendAction::Return(Polled::Ready(Err(e))) => {
            assert_eq!(format!("{:?}", e), "Rejection { reason: Some(\"inner\") }")
        },
        _ => panic!("expected the inner error"),
    }
    assert!(matches!(state, TryBlendState::First));
}

#[test]
fn try_blend_callback_error_finishes() {
    let callback = |a: u8, b: u8| (a as u32) + (b as u32);
    let mut state = TryBlendState::new();
    try_blend_advance(&mut state, &callback, TryEv::FirstPolled(Polled::Ready(Ok((1u8, 1u8)))));
    let p = try_blend_advance(&mut state, &callback, TryEv::SecondPolled(Polled::Pending));
    assert!(matches!(p, TryBlendAction::Return(Polled::Pending)));
    assert!(matches!(state, TryBlendState::Second));
    let b = try_blend_advance(
        &mut state,
        &callback,
        TryEv::SecondPolled(Polled::Ready(Err(Rejection::with_reason("callback".to_string())))),
    );
    match b {
        TryBlendAction::Return(Polled::Ready(Err(e))) => {
            assert_eq!(format!("{:?}", e), "Rejection { reason: Some(\"callback\") }")
        },
        _ => panic!("expected the callback's error"),
    }
    assert!(matches!(state, TryBlendState::Done));
}

#[test]
fn and_and_try_blend_constructors_keep_their_parts() {
    let a = blender::blender::and::And::new(1u8, "two");
    assert_eq!((a.first, a.second), (1u8, "two"));
    let t = blender::blender::try_blend::TryBlend::new(3u8, 'c');
    assert_eq!((t.blender, t.callback), (3u8, 'c'));
}

#[test]
fn and_second_stage_starts_once_over_a_run() {
    let mut state: AndState<(u8,)> = AndState::new();
    let mut starts = 0;
    let events = vec![
        AndEv::FirstPolled(Polled::Pending),
        AndEv::FirstPolled(Polled::Ready(Ok((1u8,)))),
        AndEv::SecondPolled(Polled::Pending),
        AndEv::SecondPolled(Polled::Ready(Err(Rejection::new()))),
        AndEv::SecondPolled(Polled::Ready(Ok((2u16, 3u32)))),
    ];
    for event in events {
        if let AndAction::BlendSecond = and_advance(&mut state, event) {
            starts += 1;
        }
    }
    assert_eq!(starts, 1);
    assert!(matches!(state, AndState::Done));
}
