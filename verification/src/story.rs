//! The data model of a parsed ink story: its knots, their lines and how
//! each knot ends, together with the empty story that every parse starts
//! from.

use std::collections::BTreeMap;
use vstd::prelude::*;

verus! {

/// A condition on story state, guarding a choice or printed inline.
#[derive(Debug, PartialEq)]
pub enum Expression {
    /// The value of a named variable or the visit count of a knot.
    Variable(String),
    /// The negation of an expression.
    Not(Box<Expression>),
}

/// A line of dialog with the tags that apply to it.
#[derive(Debug, PartialEq)]
pub struct DialogLine<'a> {
    pub text: &'a str,
    pub has_newline: bool,
    pub tags: Vec<&'a str>,
}

/// One line of a knot or of a choice's follow-up.
#[derive(Debug, PartialEq)]
pub enum Line<'a> {
    Dialog(DialogLine<'a>),
    Expression(Expression),
}

/// An option offered to the reader at the end of a knot.
#[derive(Debug, PartialEq)]
pub struct Choice<'a> {
    pub conditionals: Vec<Expression>,
    pub choice_text: String,
    pub shown_text: String,
    pub has_newline: bool,
    pub lines: Vec<Line<'a>>,
    pub divert: String,
    pub sticky: bool,
}

/// How a knot hands control on: a divert to another knot, or a set of
/// choices.
#[derive(Debug, PartialEq)]
pub enum KnotEnd<'a> {
    Divert(String),
    Choices(Vec<Choice<'a>>),
}

/// A named section of a story.
#[derive(Debug, PartialEq)]
pub struct Knot<'a> {
    pub title: String,
    pub lines: Vec<Line<'a>>,
    pub end: KnotEnd<'a>,
    pub knot_tags: Vec<&'a str>,
}

/// Title of the knot that holds what a story says before its first named
/// knot.
pub open spec fn intro_title() -> Seq<char> {
    "__INTRO__"@
}

/// The divert target that ends the story.
pub open spec fn end_target() -> Seq<char> {
    "END"@
}

/// A knot as it stands before anything is parsed into it: the intro knot,
/// without lines or tags, ending the story.
pub open spec fn is_blank_intro(k: Knot) -> bool {
    &&& k.title@ == intro_title()
    &&& k.lines@.len() == 0
    &&& k.end matches KnotEnd::Divert(target) && target@ == end_target()
    &&& k.knot_tags@.len() == 0
}

impl<'a> Default for Knot<'a> {
    /// The blank intro knot.
    fn default() -> (k: Self)
        ensures
            is_blank_intro(k),
    {
        Knot {
            title: String::from_str("__INTRO__"),
            lines: Vec::new(),
            end: KnotEnd::Divert(String::from_str("END")),
            knot_tags: Vec::new(),
        }
    }
}

/// Calls `BTreeMap::from` on an array of one pair. std documents that the
/// map it returns is made of the array's pairs; the contract says so for
/// this single pair.
#[verifier::external_body]
fn map_of_one_entry<K, V>(key: K, value: V) -> (entries: BTreeMap<K, V>)
    where
        K: Ord,
    ensures
        entries@ == map![key => value],
{
    BTreeMap::from([(key, value)])
}

/// The entry of the knot map that a story starts with: the intro title and
/// the blank intro knot.
pub fn default_intro_knot() -> (entry: (String, Knot<'static>))
    ensures
        entry.0@ == intro_title(),
        is_blank_intro(entry.1),
{
    (String::from_str("__INTRO__"), Knot::default())
}

/// The knot map of a story with no content: exactly one entry, the blank
/// intro knot under the intro title.
pub open spec fn is_empty_story(knots: Map<String, Knot>) -> bool {
    exists|title: String|
        #![trigger knots.dom().contains(title)]
        {
            &&& title@ == intro_title()
            &&& knots.dom() == set![title]
            &&& is_blank_intro(knots[title])
        }
}

/// The knot map that parsing starts from: the empty story.
pub fn empty_story_hashmap() -> (knots: BTreeMap<String, Knot<'static>>)
    ensures
        is_empty_story(knots@),
{
    let (title, knot) = default_intro_knot();
    let knots = map_of_one_entry(title, knot);
    proof {
        lemma_default_entry_makes_empty_story(title, knot);
    }
    knots
}

/// A map made of the default intro entry alone is the empty story, and the
/// empty story holds nothing but such an entry: `empty_story_hashmap` is the
/// map of `default_intro_knot`.
pub proof fn lemma_default_entry_makes_empty_story(title: String, knot: Knot)
    requires
        title@ == intro_title(),
        is_blank_intro(knot),
    ensures
        is_empty_story(map![title => knot]),
        forall|knots: Map<String, Knot>, key: String|
            is_empty_story(knots) && #[trigger] knots.dom().contains(key) ==> {
                &&& key@ == title@
                &&& knots.dom().len() == 1
                &&& is_blank_intro(knots[key])
            },
{
    let m = map![title => knot];
    assert(m.dom() =~= set![title]);
    assert(m.dom().contains(title));
    assert forall|knots: Map<String, Knot>, key: String|
        is_empty_story(knots) && #[trigger] knots.dom().contains(key) implies {
            &&& key@ == title@
            &&& knots.dom().len() == 1
            &&& is_blank_intro(knots[key])
        } by {
        let t = choose|t: String|
            #![trigger knots.dom().contains(t)]
            {
                &&& t@ == intro_title()
                &&& knots.dom() == set![t]
                &&& is_blank_intro(knots[t])
            };
        assert(set![t].contains(key));
        assert(key == t);
        assert(set![t].len() == 1);
    }
}

} // verus!
