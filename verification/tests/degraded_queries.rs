use tolerant_regex::pattern::ToleratingPattern;
use tolerant_regex::policy::Policy;

#[test]
fn degraded_pattern_finds_nothing() {
    let p = ToleratingPattern::new("(", Policy::Tolerant).unwrap();
    assert!(p.find("aaa").is_none());
    assert!(p.find_at("aaa", 1).is_none());
    assert!(p.captures("aaa").is_none());
}

#[test]
fn degraded_pattern_yields_empty_sequences() {
    let p = ToleratingPattern::new("*invalid*", Policy::Tolerant).unwrap();
    let mut finds = p.find_iter("aaa");
    assert!(finds.next().is_none());
    let mut pieces = p.split("a,b,c");
    assert!(pieces.next().is_none());
    let mut caps = p.captures_iter("aaa");
    assert!(caps.next().is_none());
    let mut names = p.capture_names();
    assert!(names.next().is_none());
}

#[test]
fn degraded_pattern_leaves_haystacks_unchanged() {
    let p = ToleratingPattern::new("(", Policy::Tolerant).unwrap();
    assert_eq!(p.replace("axbxc", "_"), "axbxc");
    assert_eq!(p.replace_all("axbxc", "_"), "axbxc");
}

#[test]
fn degraded_pattern_is_inert_for_every_haystack() {
    let p = ToleratingPattern::new("(", Policy::Tolerant).unwrap();
    for hay in ["", "a", "invalid", "(", "aaaa"] {
        assert!(!p.is_match(hay));
        assert!(p.find(hay).is_none());
    }
}
