use inkbot::story::{default_intro_knot, empty_story_hashmap, Knot, KnotEnd};

#[test]
fn default_intro_entry() {
    let (title, knot) = default_intro_knot();
    assert_eq!(title, "__INTRO__");
    assert_eq!(knot.title, "__INTRO__");
    assert!(knot.lines.is_empty());
    assert_eq!(knot.end, KnotEnd::Divert("END".to_string()));
    assert!(knot.knot_tags.is_empty());
}

#[test]
fn default_knot_is_blank_intro() {
    let knot: Knot<'static> = Default::default();
    assert_eq!(knot.title, "__INTRO__".to_string());
    assert_eq!(knot.lines.len(), 0);
    assert_eq!(knot.end, KnotEnd::Divert("END".to_string()));
    assert_eq!(knot.knot_tags.len(), 0);
    assert_eq!(knot, default_intro_knot().1);
}

#[test]
fn empty_story_has_only_intro() {
    let knots = empty_story_hashmap();
    assert_eq!(knots.len(), 1);
    assert_eq!(knots.get("__INTRO__"), Some(&Knot::default()));
    assert_eq!(knots.get("END"), None);
    let (title, knot) = default_intro_knot();
    assert_eq!(knots.get(&title), Some(&knot));
    assert_eq!(knots.keys().next(), Some(&"__INTRO__".to_string()));
}
