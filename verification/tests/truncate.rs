use titlebar::truncate::{truncate_and_trailoff, ELLIPSIS};

#[test]
fn ellipsis_is_one_character() {
    assert_eq!(ELLIPSIS, '…');
}

#[test]
fn short_string_is_unchanged() {
    assert_eq!(truncate_and_trailoff("my-app", 40), "my-app");
}

#[test]
fn string_of_exactly_the_bound_is_unchanged() {
    let s = "a".repeat(40);
    assert_eq!(truncate_and_trailoff(&s, 40), s);
}

#[test]
fn string_one_over_the_bound_is_cut() {
    let s = "a".repeat(41);
    let expected = format!("{}…", "a".repeat(39));
    assert_eq!(truncate_and_trailoff(&s, 40), expected);
}

#[test]
fn sixty_characters_become_forty_with_ellipsis() {
    let s: String = (0..60).map(|i| char::from(b'a' + (i % 26) as u8)).collect();
    let r = truncate_and_trailoff(&s, 40);
    assert_eq!(r.chars().count(), 40);
    assert!(r.ends_with('…'));
    assert_eq!(r.chars().take(39).collect::<String>(), s.chars().take(39).collect::<String>());
}

#[test]
fn exact_small_values() {
    assert_eq!(truncate_and_trailoff("abcdef", 4), "abc…");
    assert_eq!(truncate_and_trailoff("abcdef", 5), "abcd…");
    assert_eq!(truncate_and_trailoff("abcdef", 6), "abcdef");
    assert_eq!(truncate_and_trailoff("abcdef", 7), "abcdef");
    assert_eq!(truncate_and_trailoff("abcdef", 1), "…");
}

#[test]
fn bound_of_zero_leaves_nothing() {
    assert_eq!(truncate_and_trailoff("abcdef", 0), "");
    assert_eq!(truncate_and_trailoff("", 0), "");
}

#[test]
fn empty_string_is_unchanged() {
    assert_eq!(truncate_and_trailoff("", 40), "");
}

#[test]
fn length_is_counted_in_characters_not_bytes() {
    assert_eq!(truncate_and_trailoff("èèèèèè", 3), "èè…");
    assert_eq!(truncate_and_trailoff("èèèèèè", 6), "èèèèèè");
    assert_eq!(truncate_and_trailoff("日本語のプロジェクト", 5), "日本語の…");
}

#[test]
fn result_never_exceeds_the_bound() {
    let inputs = ["", "a", "ab", "abc", "abcdefghij", "èèèèèè", "…………"];
    for s in inputs {
        for n in 0..12usize {
            let r = truncate_and_trailoff(s, n);
            assert!(r.chars().count() <= n, "{:?} bounded to {} gave {:?}", s, n, r);
            if s.chars().count() <= n {
                assert_eq!(r, s);
            } else if n >= 1 {
                assert_eq!(r.chars().count(), n);
                assert!(r.ends_with('…'));
            }
        }
    }
}

#[test]
fn truncating_twice_is_truncating_once() {
    let inputs = ["", "a", "abcdefghij", "èèèèèè", "a-rather-long-project-name-that-goes-on-and-on"];
    for s in inputs {
        for n in 0..50usize {
            let once = truncate_and_trailoff(s, n);
            let twice = truncate_and_trailoff(&once, n);
            assert_eq!(once, twice);
        }
    }
}

#[test]
fn string_that_ends_in_ellipsis_and_fits_is_unchanged() {
    assert_eq!(truncate_and_trailoff("abc…", 4), "abc…");
}
