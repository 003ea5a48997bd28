use std::cell::Cell;

use parser_core::parser::Parser;
use parser_core::response::Response;
use parser_core::stream::{Next, TokenStream};

type Silent<const I: bool> = parser_core::eq::Eq<Next<u64, String>, u64, (), I>;

fn equal_to(value: u64) -> Silent<false> {
    parser_core::eq::Eq::new(Next::new(), value)
}

fn different_from(value: u64) -> Silent<true> {
    parser_core::eq::Eq::new(Next::new(), value)
}

#[test]
fn equal_value_succeeds_with_it() {
    let mut s = TokenStream::new(vec![5u64]);
    let r = equal_to(5).parse_stream(&mut s);
    assert_eq!(r, Response::Success(5));
}

#[test]
fn different_value_fails_silently() {
    let mut s = TokenStream::new(vec![5u64]);
    let r = equal_to(7).parse_stream(&mut s);
    assert_eq!(r, Response::Failure);
}

#[test]
fn inequality_check_passes_different_value() {
    let mut s = TokenStream::new(vec![5u64]);
    let r = different_from(7).parse_stream(&mut s);
    assert_eq!(r, Response::Success(5));
}

#[test]
fn inequality_check_rejects_equal_value() {
    let mut s = TokenStream::new(vec![5u64]);
    let r = different_from(5).parse_stream(&mut s);
    assert_eq!(r, Response::Failure);
}

#[test]
fn diagnostic_built_once_on_mismatch() {
    let calls = Cell::new(0u32);
    let p = equal_to(7).or_else(|| {
        calls.set(calls.get() + 1);
        String::from("mismatch")
    });
    let mut s = TokenStream::new(vec![5u64]);
    let r = p.parse_stream(&mut s);
    assert_eq!(r, Response::Error(String::from("mismatch")));
    assert_eq!(calls.get(), 1);
}

#[test]
fn diagnostic_not_built_on_success() {
    let calls = Cell::new(0u32);
    let p = equal_to(5).or_else(|| {
        calls.set(calls.get() + 1);
        String::from("mismatch")
    });
    let mut s = TokenStream::new(vec![5u64]);
    let r = p.parse_stream(&mut s);
    assert_eq!(r, Response::Success(5));
    assert_eq!(calls.get(), 0);
}

#[test]
fn diagnostic_not_built_on_structural_failure() {
    let calls = Cell::new(0u32);
    let p = equal_to(5).or_else(|| {
        calls.set(calls.get() + 1);
        String::from("mismatch")
    });
    let mut s = TokenStream::new(Vec::<u64>::new());
    let r = p.parse_stream(&mut s);
    assert_eq!(r, Response::Failure);
    assert_eq!(calls.get(), 0);
    assert_eq!(s.position(), 0);
}

#[test]
fn diagnostic_built_once_per_failed_comparison() {
    let calls = Cell::new(0u32);
    let p = different_from(5).or_else(|| {
        calls.set(calls.get() + 1);
        String::from("same")
    });
    let mut s = TokenStream::new(vec![5u64, 6, 5]);
    assert_eq!(p.parse_stream(&mut s), Response::Error(String::from("same")));
    assert_eq!(p.parse_stream(&mut s), Response::Success(6));
    assert_eq!(p.parse_stream(&mut s), Response::Error(String::from("same")));
    assert_eq!(p.parse_stream(&mut s), Response::Failure);
    assert_eq!(calls.get(), 2);
}

#[test]
fn structural_failure_passes_through_every_variant() {
    let mut s = TokenStream::new(Vec::<u64>::new());
    assert_eq!(equal_to(5).parse_stream(&mut s), Response::Failure);
    assert_eq!(different_from(5).parse_stream(&mut s), Response::Failure);
    assert_eq!(equal_to(5).not().parse_stream(&mut s), Response::Failure);
    assert_eq!(s.position(), 0);
}

#[test]
fn not_inverts_equality_check() {
    let mut s = TokenStream::new(vec![5u64, 5]);
    assert_eq!(equal_to(5).not().parse_stream(&mut s), Response::Failure);
    assert_eq!(equal_to(7).not().parse_stream(&mut s), Response::Success(5));
}

#[test]
fn not_keeps_diagnostic() {
    let calls = Cell::new(0u32);
    let p = equal_to(5)
        .or_else(|| {
            calls.set(calls.get() + 1);
            String::from("equal")
        })
        .not();
    let mut s = TokenStream::new(vec![5u64, 8]);
    assert_eq!(p.parse_stream(&mut s), Response::Error(String::from("equal")));
    assert_eq!(p.parse_stream(&mut s), Response::Success(8));
    assert_eq!(calls.get(), 1);
}

#[test]
fn or_else_on_inequality_check_carries_diagnostic() {
    let p = different_from(5).or_else(|| String::from("was five"));
    let mut s = TokenStream::new(vec![5u64]);
    assert_eq!(p.parse_stream(&mut s), Response::Error(String::from("was five")));
}

#[test]
fn stream_moves_as_inner_parser_alone() {
    let inner: Next<u64, String> = Next::new();
    let calls = Cell::new(0u32);
    let with_diagnostic = equal_to(9).or_else(|| {
        calls.set(calls.get() + 1);
        String::from("no")
    });
    for value in [5u64, 9] {
        let mut alone = TokenStream::new(vec![5u64, 6]);
        let mut a = TokenStream::new(vec![5u64, 6]);
        let mut b = TokenStream::new(vec![5u64, 6]);
        let mut c = TokenStream::new(vec![5u64, 6]);
        inner.parse_stream(&mut alone);
        equal_to(value).parse_stream(&mut a);
        different_from(value).parse_stream(&mut b);
        with_diagnostic.parse_stream(&mut c);
        assert_eq!(alone.position(), 1);
        assert_eq!(a.position(), alone.position());
        assert_eq!(b.position(), alone.position());
        assert_eq!(c.position(), alone.position());
    }
}

#[test]
fn stream_reads_tokens_in_order() {
    let mut s = TokenStream::new(vec![3u64, 4]);
    assert_eq!(s.position(), 0);
    assert_eq!(s.next_token(), Some(3));
    assert_eq!(s.next_token(), Some(4));
    assert_eq!(s.position(), 2);
    assert_eq!(s.next_token(), None);
    assert_eq!(s.position(), 2);
}

#[test]
fn next_reads_one_token() {
    let p: Next<u64, String> = Next::new();
    let mut s = TokenStream::new(vec![11u64]);
    assert_eq!(p.parse_stream(&mut s), Response::Success(11));
    assert_eq!(p.parse_stream(&mut s), Response::Failure);
}

#[test]
fn filter_keeps_accepted_value() {
    let r: Response<u64, String> = Response::Success(4);
    assert_eq!(r.filter_response(|v| *v % 2 == 0), Response::Success(4));
}

#[test]
fn filter_fails_rejected_value_silently() {
    let r: Response<u64, String> = Response::Success(3);
    assert_eq!(r.filter_response(|v| *v % 2 == 0), Response::Failure);
}

#[test]
fn filter_passes_failures_on_without_calling() {
    let calls = Cell::new(0u32);
    let pred = |_: &u64| {
        calls.set(calls.get() + 1);
        true
    };
    let f: Response<u64, String> = Response::Failure;
    let e: Response<u64, String> = Response::Error(String::from("earlier"));
    assert_eq!(f.filter_response(&pred), Response::Failure);
    assert_eq!(e.filter_response(&pred), Response::Error(String::from("earlier")));
    assert_eq!(calls.get(), 0);
}

#[test]
fn filter_or_else_builds_error_on_rejection() {
    let make = || String::from("odd");
    let r: Response<u64, String> = Response::Success(3);
    assert_eq!(r.filter_response_or_else(|v| *v % 2 == 0, &make), Response::Error(String::from("odd")));
    let r: Response<u64, String> = Response::Success(2);
    assert_eq!(r.filter_response_or_else(|v| *v % 2 == 0, &make), Response::Success(2));
    let r: Response<u64, String> = Response::Error(String::from("earlier"));
    assert_eq!(r.filter_response_or_else(|v| *v % 2 == 0, &make), Response::Error(String::from("earlier")));
}

#[test]
fn success_is_reported() {
    let s: Response<u64, String> = Response::Success(1);
    let f: Response<u64, String> = Response::Failure;
    let e: Response<u64, String> = Response::Error(String::from("x"));
    assert!(s.is_success());
    assert!(!f.is_success());
    assert!(!e.is_success());
}
