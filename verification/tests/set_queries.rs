use tolerant_regex::policy::Policy;
use tolerant_regex::set::ToleratingPatternSet;

fn strings(pats: &[&str]) -> Vec<String> {
    pats.iter().map(|p| p.to_string()).collect()
}

#[test]
fn valid_set_matches_and_keeps_its_patterns() {
    let pats = strings(&["[a-z]+", "[0-9]+"]);
    let s = ToleratingPatternSet::new(&pats, Policy::Strict).unwrap();
    assert_eq!(s.patterns(), &pats);
    assert!(s.is_match("abc"));
    assert!(s.is_match("123"));
    assert!(!s.is_match("---"));
}

#[test]
fn set_matches_reports_indices_in_ascending_order() {
    let pats = strings(&["[a-z]+", "[0-9]+", "a1"]);
    let s = ToleratingPatternSet::new(&pats, Policy::Strict).unwrap();
    let mut it = s.matches("a1").into_iter();
    assert_eq!(it.next(), Some(0));
    assert_eq!(it.next(), Some(1));
    assert_eq!(it.next(), Some(2));
    assert_eq!(it.next(), None);
    let mut only_digits = s.matches("99").into_iter();
    assert_eq!(only_digits.next(), Some(1));
    assert_eq!(only_digits.next(), None);
}

#[test]
fn one_invalid_pattern_degrades_the_whole_set() {
    let pats = strings(&["a", "("]);
    let s = ToleratingPatternSet::new(&pats, Policy::Tolerant).unwrap();
    assert_eq!(s.patterns().len(), 0);
    assert!(!s.is_match("a"));
    let mut it = s.matches("a").into_iter();
    assert_eq!(it.next(), None);
}

#[test]
fn invalid_set_fails_under_strict_policy() {
    let pats = strings(&["a", "("]);
    let r = ToleratingPatternSet::new(&pats, Policy::Strict);
    assert!(r.is_err());
}

#[test]
fn set_queries_are_idempotent() {
    let pats = strings(&["x+"]);
    let s = ToleratingPatternSet::new(&pats, Policy::Tolerant).unwrap();
    assert_eq!(s.is_match("axa"), s.is_match("axa"));
    let a: Vec<usize> = s.matches("axa").into_iter().collect();
    let b: Vec<usize> = s.matches("axa").into_iter().collect();
    assert_eq!(a, b);
}

#[test]
fn set_clone_preserves_behavior() {
    let pats = strings(&["[0-9]", "z"]);
    let s = ToleratingPatternSet::new(&pats, Policy::Strict).unwrap();
    let t = s.clone();
    assert_eq!(t.patterns(), &pats);
    assert!(t.is_match("7"));
    let d = ToleratingPatternSet::new(&strings(&["("]), Policy::Tolerant).unwrap();
    let e = d.clone();
    assert_eq!(e.patterns().len(), 0);
    assert!(!e.is_match("("));
}

#[test]
fn compiled_set_agrees_with_the_engine() {
    let pats = strings(&["[a-z]+@[a-z]+", "[a-z]+"]);
    let direct = regex::RegexSet::new(&pats).unwrap();
    let tol = ToleratingPatternSet::new(&pats, Policy::Strict).unwrap();
    let hay = "user@example";
    assert_eq!(tol.is_match(hay), direct.is_match(hay));
    let dm: Vec<usize> = direct.matches(hay).into_iter().collect();
    let tm: Vec<usize> = tol.matches(hay).into_iter().collect();
    assert_eq!(tm, dm);
    assert_eq!(tol.patterns().as_slice(), direct.patterns());
}

#[test]
fn set_matches_is_nonempty_exactly_when_the_set_matches() {
    let pats = strings(&["[0-9]", "z"]);
    let s = ToleratingPatternSet::new(&pats, Policy::Strict).unwrap();
    for hay in ["7", "z", "a", ""] {
        let got: Vec<usize> = s.matches(hay).into_iter().collect();
        assert_eq!(!got.is_empty(), s.is_match(hay));
    }
}

#[test]
fn set_matches_holds_exactly_the_individually_matching_members() {
    let pats = strings(&["[a-z]+", "[0-9]+", "q"]);
    let s = ToleratingPatternSet::new(&pats, Policy::Strict).unwrap();
    let hay = "ab12";
    let got: Vec<usize> = s.matches(hay).into_iter().collect();
    for (i, pat) in pats.iter().enumerate() {
        let member = regex::Regex::new(pat).unwrap();
        assert_eq!(got.contains(&i), member.is_match(hay));
    }
    assert_eq!(got, vec![0, 1]);
}
