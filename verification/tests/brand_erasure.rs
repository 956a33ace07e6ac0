use erased_brand::erased::pair_erased;
use erased_brand::ghost_token::{ScopeGen, WithGhostToken};
use erased_brand::hkt::Owned;
use erased_brand::laws;
use erased_brand::Erased;

#[test]
fn round_trip_borrow() {
    let e = Erased::<Owned<u64>>::new(5);
    let got = e.borrow(|x: &u64| *x);
    assert_eq!(got, 5);
}

#[test]
fn round_trip_into_inner() {
    let e = Erased::<Owned<String>>::new(String::from("payload"));
    let got = e.into_inner(|x| x);
    assert_eq!(got, "payload");
}

#[test]
fn round_trip_law_concrete() {
    let got = laws::round_trip_sealing::<Owned<u64>>(41);
    assert_eq!(got, 41);
}

#[test]
fn map_applies_transform() {
    let e = Erased::<Owned<u64>>::new(5);
    let doubled = e.map::<Owned<u64>, _>(|x| x * 2);
    assert_eq!(doubled.borrow(|x: &u64| *x), 10);
}

#[test]
fn map_changes_family() {
    let e = Erased::<Owned<u64>>::new(7);
    let shown = e.map::<Owned<String>, _>(|x| format!("{x}"));
    assert_eq!(shown.borrow(|x: &String| x.clone()), "7");
}

#[test]
fn map_composition_two_paths_agree() {
    let e1 = Erased::<Owned<u64>>::new(10);
    let e2 = Erased::<Owned<u64>>::new(10);
    let two_step = e1.map::<Owned<u64>, _>(|x| x + 1).map::<Owned<u64>, _>(|x| x * 3);
    let one_step = e2.map::<Owned<u64>, _>(|x| (x + 1) * 3);
    assert_eq!(
        two_step.into_inner(|x| x),
        one_step.into_inner(|x| x)
    );
}

#[test]
fn map_composition_law_concrete() {
    let e1 = Erased::<Owned<u64>>::new(4);
    let e2 = Erased::<Owned<u64>>::new(4);
    let (r0, r1) = laws::map_composition::<Owned<u64>, Owned<u64>, Owned<u64>, _, _, _>(
        e1,
        e2,
        |x: u64| x + 2,
        |y: u64| y * y,
        |x: u64| (x + 2) * (x + 2),
    );
    assert_eq!(r0.into_inner(|x| x), 36);
    assert_eq!(r1.into_inner(|x| x), 36);
}

#[test]
fn borrow_mut_updates_in_place() {
    let mut e = Erased::<Owned<u64>>::new(1);
    let before = e.borrow_mut_hkt(|x: &mut u64| {
        let was = *x;
        *x += 9;
        was
    });
    assert_eq!(before, 1);
    assert_eq!(e.borrow(|x: &u64| *x), 10);
}

#[test]
fn with_fresh_scope_returns_continuation_result() {
    let mut gen = ScopeGen::new();
    let got = gen.with_fresh_scope(|_token| 42u64);
    assert_eq!(got, 42);
}

#[test]
fn scope_distinctness_law_runs() {
    let mut gen = ScopeGen::new();
    let (a, b) = laws::scope_distinctness(&mut gen);
    // The scopes differ only in ghost state; both wrappers still carry
    // their own token and unit payload.
    a.into_inner(|(u, _token)| u);
    b.into_inner(|(u, _token)| u);
}

#[test]
fn new_token_seals_unit() {
    let mut gen = ScopeGen::new();
    let sealed = WithGhostToken::<()>::new_token(&mut gen);
    sealed.into_inner(|(u, _token)| u);
}

#[test]
fn new_with_token_carries_payload() {
    let mut gen = ScopeGen::new();
    let sealed = WithGhostToken::<Owned<u64>>::new_with_token(&mut gen, |_token| 7u64);
    assert_eq!(sealed.borrow(|p| p.0), 7);
}

#[test]
fn from_ghost_token_seals_result() {
    let mut gen = ScopeGen::new();
    let sealed = Erased::<Owned<u64>>::from_ghost_token(&mut gen, |_token| 9u64);
    assert_eq!(sealed.into_inner(|x| x), 9);
}

#[test]
fn merge_keeps_both_payloads() {
    let mut gen = ScopeGen::new();
    let left = WithGhostToken::<Owned<u64>>::new_with_token(&mut gen, |_token| 7u64);
    let right = WithGhostToken::<Owned<u64>>::new_with_token(&mut gen, |_token| 9u64);
    let merged = left.merge_tokens(right);
    let (first, (second, _token)) = merged.into_inner(|v| v);
    assert_eq!(first, 7);
    assert_eq!(second, 9);
}

#[test]
fn merged_scope_consistency_law_runs() {
    let mut gen = ScopeGen::new();
    let merged = laws::merged_scope_consistency(&mut gen);
    let (u, (u2, _token)) = merged.into_inner(|v| v);
    assert_eq!(u, ());
    assert_eq!(u2, ());
}

#[test]
fn flatten_matches_manual_unwrapping() {
    let a = Erased::<Owned<u64>>::new(5);
    let b = Erased::<Owned<u64>>::new(6);
    let paired = pair_erased(a, b);
    let direct = paired.flatten().into_inner(|v| v);
    assert_eq!(direct, (5, 6));

    let a2 = Erased::<Owned<u64>>::new(5);
    let b2 = Erased::<Owned<u64>>::new(6);
    let paired2 = pair_erased(a2, b2);
    let manual = paired2.into_inner(|inner| inner.into_inner(|p| p.1));
    assert_eq!(direct, manual);
}

#[test]
fn flatten_law_concrete() {
    let a = Erased::<Owned<u64>>::new(11);
    let b = Erased::<Owned<u64>>::new(13);
    let a2 = Erased::<Owned<u64>>::new(11);
    let b2 = Erased::<Owned<u64>>::new(13);
    let (direct, manual) =
        laws::flatten_matches_unwrap(pair_erased(a, b), pair_erased(a2, b2));
    assert_eq!(direct, (11, 13));
    assert_eq!(direct, manual);
}
