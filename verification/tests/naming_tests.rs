use collab::naming::{
    renames_after_creators, seeds_for, suffixed_name, to_ascii_lower, random_suffix, ClashStep, ConflictSource,
    NameClash, RandomRenamer, SUFFIX_LEN,
};

fn expected_suffix(seed: u64) -> (String, u64) {
    let mut s = seed;
    let mut out = String::new();
    for _ in 0..SUFFIX_LEN {
        let mut rng = fastrand::Rng::with_seed(s);
        out.push(rng.alphanumeric().to_ascii_lowercase());
        s = rng.get_seed();
    }
    (out, s)
}

#[test]
fn suffixed_name_joins_with_hyphen() {
    assert_eq!(suffixed_name("lib.rs", "alice"), "lib.rs-alice");
    assert_eq!(suffixed_name("", "x"), "-x");
}

#[test]
fn concurrent_creations_are_renamed_after_creators() {
    let r = renames_after_creators(ConflictSource::Creation, "lib.rs", "lib.rs", Some("alice"), Some("bob"));
    assert_eq!(r, Some(("lib.rs-alice".to_string(), "lib.rs-bob".to_string())));
}

#[test]
fn unknown_creator_skips_handle_renames() {
    assert_eq!(renames_after_creators(ConflictSource::Creation, "a", "a", None, Some("bob")), None);
    assert_eq!(renames_after_creators(ConflictSource::Creation, "a", "a", Some("alice"), None), None);
}

#[test]
fn moves_skip_handle_renames() {
    assert_eq!(renames_after_creators(ConflictSource::Movement, "a", "a", Some("alice"), Some("bob")), None);
}

#[test]
fn seeds_are_creator_ids_when_they_differ() {
    assert_eq!(seeds_for(3, 5), (3, 5));
}

#[test]
fn seeds_are_drawn_when_creators_match() {
    let mut rng = fastrand::Rng::with_seed(7);
    let a = rng.u64(..);
    let b = rng.u64(..);
    assert_eq!(seeds_for(7, 7), (a, b));
    assert_ne!(seeds_for(7, 7), (7, 7));
}

#[test]
fn random_suffix_draws_from_fastrand() {
    for seed in [0u64, 1, 42, u64::MAX] {
        let mut s = seed;
        let suffix: String = random_suffix(&mut s).into_iter().collect();
        let (expected, next) = expected_suffix(seed);
        assert_eq!(suffix, expected);
        assert_eq!(s, next);
        assert_ne!(s, seed);
    }
}

#[test]
fn random_suffix_shape() {
    let mut s = 12345u64;
    for _ in 0..50 {
        let suffix = random_suffix(&mut s);
        assert_eq!(suffix.len(), 6);
        assert!(suffix.iter().all(|c| c.is_ascii_lowercase() || c.is_ascii_digit()));
    }
}

#[test]
fn renamer_proposes_suffixed_names() {
    let mut renamer = RandomRenamer::new("main.rs", "main.rs", 1, 2);
    let (c, e) = renamer.next_names();
    let (cs, c_next) = expected_suffix(1);
    let (es, e_next) = expected_suffix(2);
    assert_eq!(c, format!("main.rs-{cs}"));
    assert_eq!(e, format!("main.rs-{es}"));
    let (c2, e2) = renamer.next_names();
    assert_eq!(c2, format!("main.rs-{}", expected_suffix(c_next).0));
    assert_eq!(e2, format!("main.rs-{}", expected_suffix(e_next).0));
    assert_ne!(c, c2);
}

#[test]
fn renamer_is_deterministic() {
    let mut a = RandomRenamer::new("x", "x", 9, 9);
    let mut b = RandomRenamer::new("x", "x", 9, 9);
    for _ in 0..3 {
        assert_eq!(a.next_names(), b.next_names());
    }
}

#[test]
fn lowercase_only_touches_ascii_uppercase() {
    assert_eq!(to_ascii_lower('A'), 'a');
    assert_eq!(to_ascii_lower('Z'), 'z');
    assert_eq!(to_ascii_lower('a'), 'a');
    assert_eq!(to_ascii_lower('5'), '5');
    assert_eq!(to_ascii_lower('É'), 'É');
}

fn is_random_suffixed(name: &str, base: &str) -> bool {
    name.len() == base.len() + 1 + 6
        && name.starts_with(&format!("{base}-"))
        && name[base.len() + 1..].chars().all(|c| c.is_ascii_lowercase() || c.is_ascii_digit())
}

#[test]
fn clash_tries_creator_names_then_random_suffixes() {
    let (mut clash, step) =
        NameClash::start(ConflictSource::Creation, "lib.rs", "lib.rs", Some("alice"), Some("bob"), 1, 2);
    match step {
        ClashStep::Try(c, e) => {
            assert_eq!(c, "lib.rs-alice");
            assert_eq!(e, "lib.rs-bob");
        },
        other => panic!("unexpected step {other:?}"),
    }
    assert!(matches!(clash.after_try(false), Some(ClashStep::ReadNames)));
    match clash.with_names("lib.rs-alice", "lib.rs-bob") {
        ClashStep::Try(c, e) => {
            assert!(is_random_suffixed(&c, "lib.rs-alice"));
            assert!(is_random_suffixed(&e, "lib.rs-bob"));
        },
        other => panic!("unexpected step {other:?}"),
    }
    match clash.after_try(false) {
        Some(ClashStep::Try(c, e)) => {
            assert!(is_random_suffixed(&c, "lib.rs-alice"));
            assert!(is_random_suffixed(&e, "lib.rs-bob"));
        },
        other => panic!("unexpected step {other:?}"),
    }
    assert!(clash.after_try(true).is_none());
}

#[test]
fn clash_from_a_move_reads_the_names_at_once() {
    let (mut clash, step) = NameClash::start(ConflictSource::Movement, "a", "a", Some("x"), Some("y"), 1, 2);
    assert!(matches!(step, ClashStep::ReadNames));
    assert!(matches!(clash.with_names("a", "a"), ClashStep::Try(..)));
}
