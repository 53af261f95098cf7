use vstd::prelude::*;

verus! {

/// How the name of an archive entry is held against the file name of a tool.
#[derive(Copy, Clone, Debug, PartialEq, Eq, Structural)]
pub enum MatchRule {
    /// The entry name ends with the file name: entries may lie below any
    /// directory.
    Suffix,
    /// The entry name is the file name, character for character.
    Exact,
}

/// Whether `name` ends with `wanted`.
pub open spec fn ends_with(name: Seq<char>, wanted: Seq<char>) -> bool {
    wanted.len() <= name.len() && name.skip(name.len() - wanted.len()) == wanted
}

/// Whether an entry named `name` is the one `wanted` under `rule`.
pub open spec fn name_matches(name: Seq<char>, wanted: Seq<char>, rule: MatchRule) -> bool {
    match rule {
        MatchRule::Suffix => ends_with(name, wanted),
        MatchRule::Exact => name == wanted,
    }
}

/// Whether entry `index` matches and no entry before it does.
pub open spec fn is_first_match(
    names: Seq<Seq<char>>,
    wanted: Seq<char>,
    rule: MatchRule,
    index: int,
) -> bool {
    &&& 0 <= index < names.len()
    &&& name_matches(names[index], wanted, rule)
    &&& forall|earlier: int| 0 <= earlier < index ==> !name_matches(#[trigger] names[earlier], wanted, rule)
}

/// Whether no entry matches.
pub open spec fn no_match(names: Seq<Seq<char>>, wanted: Seq<char>, rule: MatchRule) -> bool {
    forall|index: int| 0 <= index < names.len() ==> !name_matches(#[trigger] names[index], wanted, rule)
}

/// The texts of a list of names.
pub open spec fn texts(names: Seq<String>) -> Seq<Seq<char>> {
    names.map_values(|name: String| name@)
}

/// `str::ends_with` with a string as the pattern: whether the pattern is a
/// suffix of the text.
#[verifier::external_body]
fn text_ends_with(name: &str, wanted: &str) -> (found: bool)
    ensures
        found == ends_with(name@, wanted@),
{
    name.ends_with(wanted)
}

/// `==` on string slices: whether the two hold the same characters.
#[verifier::external_body]
pub(crate) fn text_equals(left: &str, right: &str) -> (equal: bool)
    ensures
        equal == (left@ == right@),
{
    left == right
}

/// Whether an entry named `name` is the one `wanted` under `rule`.
pub fn entry_matches(name: &str, wanted: &str, rule: MatchRule) -> (found: bool)
    ensures
        found == name_matches(name@, wanted@, rule),
{
    match rule {
        MatchRule::Suffix => text_ends_with(name, wanted),
        MatchRule::Exact => text_equals(name, wanted),
    }
}

/// Find the first entry, in the order of the container, that matches `wanted`
/// under `rule`.
pub fn find_entry(names: &Vec<String>, wanted: &str, rule: MatchRule) -> (found: Option<usize>)
    ensures
        match found {
            Some(index) => is_first_match(texts(names@), wanted@, rule, index as int),
            None => no_match(texts(names@), wanted@, rule),
        },
{
    let mut index: usize = 0;
    while index < names.len()
        invariant
            index <= names@.len(),
            forall|earlier: int|
                0 <= earlier < index ==> !name_matches(
                    #[trigger] texts(names@)[earlier],
                    wanted@,
                    rule,
                ),
        decreases names@.len() - index,
    {
        if entry_matches(names[index].as_str(), wanted, rule) {
            return Some(index);
        }
        index += 1;
    }
    None
}

/// At most one entry is the first match, and there is one exactly when some
/// entry matches.
pub proof fn lemma_first_match_is_unique(
    names: Seq<Seq<char>>,
    wanted: Seq<char>,
    rule: MatchRule,
    first: int,
    second: int,
)
    requires
        is_first_match(names, wanted, rule, first),
    ensures
        !no_match(names, wanted, rule),
        is_first_match(names, wanted, rule, second) ==> first == second,
{
}

/// The exact rule is the stricter one: a name that matches exactly also matches
/// as a suffix.
pub proof fn lemma_exact_implies_suffix(name: Seq<char>, wanted: Seq<char>)
    requires
        name_matches(name, wanted, MatchRule::Exact),
    ensures
        name_matches(name, wanted, MatchRule::Suffix),
{
    assert(name.skip(0) =~= name);
}

} // verus!
