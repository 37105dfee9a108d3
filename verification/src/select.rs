//! Choosing the collections of a run: a name is backed up when at least one
//! usable pattern finds a match in it.

use vstd::prelude::*;
use crate::text::insert_name;
use crate::text::strictly_ascending;
use crate::text::texts;

verus! {

#[verifier::external_type_specification]
#[verifier::external_body]
pub struct ExRegex(regex::Regex);

/// Why `regex::Regex::new` refuses `pattern`: the text of the error it
/// returns; `None` where it accepts the pattern.
pub uninterp spec fn regex_rejection(pattern: Seq<char>) -> Option<Seq<char>>;

/// Whether `pattern` compiles.
pub open spec fn regex_compiles(pattern: Seq<char>) -> bool {
    regex_rejection(pattern) is None
}

/// Whether the expression that `regex::Regex::new` makes of `pattern` has a
/// match anywhere in `text`, as `regex::Regex::is_match` reports it.
pub uninterp spec fn regex_finds(pattern: Seq<char>, text: Seq<char>) -> bool;

/// A pattern that compiled, together with the text it was compiled from.
pub struct Pattern {
    source: String,
    compiled: regex::Regex,
}

impl Pattern {
    /// The text that the pattern was compiled from.
    pub closed spec fn source(self) -> Seq<char> {
        self.source@
    }

    /// Calls `regex::Regex::new`. Trusted: the result is `Ok` exactly for
    /// the patterns that function accepts, and then holds the expression it
    /// returned beside a copy of `pattern`; otherwise it is the text of the
    /// error that function returned. No other code builds a `Pattern`, so the
    /// two fields of every `Pattern` belong together.
    #[verifier::external_body]
    fn compile(pattern: &str) -> (r: Result<Pattern, String>)
        ensures
            r is Ok <==> regex_rejection(pattern@) is None,
            r matches Ok(p) ==> p.source() == pattern@,
            r matches Err(reason) ==> Some(reason@) == regex_rejection(pattern@),
    {
        match regex::Regex::new(pattern) {
            Ok(compiled) => Ok(Pattern { source: pattern.to_owned(), compiled }),
            Err(error) => Err(error.to_string()),
        }
    }

    /// Calls `regex::Regex::is_match` on the compiled expression. Trusted:
    /// the answer is the one that the expression compiled from `source()`
    /// gives for `text`.
    #[verifier::external_body]
    fn finds(&self, text: &str) -> (b: bool)
        ensures
            b == regex_finds(self.source(), text@),
    {
        self.compiled.is_match(text)
    }
}

/// Whether some usable pattern among `patterns` finds a match in `name`.
pub open spec fn selected(patterns: Seq<Seq<char>>, name: Seq<char>) -> bool {
    exists|i: int|
        0 <= i < patterns.len() && regex_compiles(#[trigger] patterns[i]) && regex_finds(
            patterns[i],
            name,
        )
}

/// Whether at least one of `patterns` compiles.
pub open spec fn any_usable(patterns: Seq<Seq<char>>) -> bool {
    exists|i: int| 0 <= i < patterns.len() && regex_compiles(#[trigger] patterns[i])
}

/// Whether `chosen` is the selection that `patterns` make among `names`: the
/// names that some usable pattern matches, each once, in ascending order.
pub open spec fn is_selection(
    names: Seq<Seq<char>>,
    patterns: Seq<Seq<char>>,
    chosen: Seq<Seq<char>>,
) -> bool {
    &&& strictly_ascending(chosen)
    &&& forall|name: Seq<char>| #[trigger]
        chosen.contains(name) <==> names.contains(name) && selected(patterns, name)
}

/// Why no selection could be made.
#[derive(Clone, Copy, Debug, PartialEq, Eq, Structural)]
pub enum SelectError {
    /// None of the patterns compiled.
    NoUsablePatterns,
}

/// The usable patterns of a run, compiled once.
pub struct SelectionMatcher {
    patterns: Vec<Pattern>,
}

impl SelectionMatcher {
    /// The texts of the patterns that compiled, in the order given.
    pub closed spec fn sources(self) -> Seq<Seq<char>> {
        self.patterns@.map_values(|p: Pattern| p.source())
    }

    #[verifier::type_invariant]
    spec fn all_compile(self) -> bool {
        forall|k: int|
            0 <= k < self.patterns.len() ==> regex_compiles(#[trigger] self.patterns@[k].source())
    }

    /// Whether the matcher holds what `patterns` yield: it accepts the same
    /// names as the usable ones among them.
    pub open spec fn compiled_from(self, patterns: Seq<Seq<char>>) -> bool {
        &&& self.sources().len() > 0
        &&& forall|name: Seq<char>| #[trigger]
            selected(self.sources(), name) <==> selected(patterns, name)
    }

    /// Compiles each pattern by itself and keeps those that compile. Fails
    /// exactly when none does.
    pub fn new(patterns: &Vec<String>) -> (r: Result<SelectionMatcher, SelectError>)
        ensures
            r is Ok <==> any_usable(texts(patterns@)),
            r matches Ok(m) ==> m.compiled_from(texts(patterns@)),
            r matches Err(e) ==> e == SelectError::NoUsablePatterns,
    {
        let mut kept: Vec<Pattern> = Vec::new();
        let ghost all = texts(patterns@);
        // Where each kept pattern came from, and where each pattern went.
        let ghost mut origin: Seq<int> = Seq::empty();
        let ghost mut slot: Seq<int> = Seq::empty();
        let mut i: usize = 0;
        while i < patterns.len()
            invariant
                i <= patterns.len(),
                all == texts(patterns@),
                origin.len() == kept.len(),
                slot.len() == i,
                forall|k: int|
                    0 <= k < kept.len() ==> 0 <= #[trigger] origin[k] < i && all[origin[k]]
                        == kept@[k].source() && regex_compiles(kept@[k].source()),
                forall|j: int|
                    0 <= j < i && regex_compiles(all[j]) ==> 0 <= #[trigger] slot[j] < kept.len()
                        && kept@[slot[j]].source() == all[j],
            decreases patterns.len() - i,
        {
            let compiled = Pattern::compile(patterns[i].as_str());
            if let Ok(p) = compiled {
                kept.push(p);
                proof {
                    origin = origin.push(i as int);
                    slot = slot.push(kept.len() - 1);
                }
            } else {
                proof {
                    slot = slot.push(-1);
                }
            }
            i += 1;
        }
        if kept.len() == 0 {
            proof {
                assert forall|j: int| 0 <= j < all.len() implies !regex_compiles(
                    #[trigger] all[j],
                ) by {
                    if regex_compiles(all[j]) {
                        assert(0 <= slot[j] < kept.len());
                    }
                }
            }
            Err(SelectError::NoUsablePatterns)
        } else {
            proof {
                assert forall|k: int| 0 <= k < kept.len() implies regex_compiles(
                    #[trigger] kept@[k].source(),
                ) by {
                    assert(0 <= origin[k]);
                }
            }
            let m = SelectionMatcher { patterns: kept };
            proof {
                let src = m.sources();
                assert(regex_compiles(all[origin[0]]));
                assert forall|name: Seq<char>| #[trigger]
                    selected(src, name) <==> selected(all, name) by {
                    if selected(src, name) {
                        let k = choose|k: int|
                            0 <= k < src.len() && regex_compiles(#[trigger] src[k]) && regex_finds(
                                src[k],
                                name,
                            );
                        let j = origin[k];
                        assert(regex_compiles(all[j]) && regex_finds(all[j], name));
                    }
                    if selected(all, name) {
                        let j = choose|j: int|
                            0 <= j < all.len() && regex_compiles(#[trigger] all[j]) && regex_finds(
                                all[j],
                                name,
                            );
                        let k = slot[j];
                        assert(regex_compiles(src[k]) && regex_finds(src[k], name));
                    }
                }
            }
            Ok(m)
        }
    }

    /// Whether at least one pattern finds a match in `name`.
    pub fn matches(&self, name: &str) -> (b: bool)
        ensures
            b == selected(self.sources(), name@),
    {
        let ghost src = self.sources();
        let mut i: usize = 0;
        while i < self.patterns.len()
            invariant
                i <= self.patterns.len(),
                src == self.sources(),
                forall|k: int| 0 <= k < i ==> !regex_finds(#[trigger] src[k], name@),
            decreases self.patterns.len() - i,
        {
            assert(src[i as int] == self.patterns@[i as int].source());
            if self.patterns[i].finds(name) {
                proof {
                    use_type_invariant(self);
                }
                return true;
            }
            i += 1;
        }
        false
    }

    /// The names among `names` that some pattern of the matcher matches,
    /// each once, in ascending order.
    pub fn select(&self, names: &Vec<String>) -> (chosen: Vec<String>)
        ensures
            is_selection(texts(names@), self.sources(), texts(chosen@)),
    {
        let mut chosen: Vec<String> = Vec::new();
        let ghost all = texts(names@);
        let ghost src = self.sources();
        let mut i: usize = 0;
        while i < names.len()
            invariant
                i <= names.len(),
                all == texts(names@),
                src == self.sources(),
                strictly_ascending(texts(chosen@)),
                forall|name: Seq<char>| #[trigger]
                    texts(chosen@).contains(name) <==> selected(src, name) && exists|j: int|
                        0 <= j < i && all[j] == name,
            decreases names.len() - i,
        {
            let ghost earlier = texts(chosen@);
            if self.matches(names[i].as_str()) {
                insert_name(&mut chosen, names[i].clone());
            }
            proof {
                let now = texts(chosen@);
                let this = all[i as int];
                assert forall|name: Seq<char>| #[trigger]
                    now.contains(name) <==> selected(src, name) && exists|j: int|
                        0 <= j < i + 1 && all[j] == name by {
                    if now.contains(name) {
                        if earlier.contains(name) {
                            let j = choose|j: int| 0 <= j < i && all[j] == name;
                            assert(0 <= j < i + 1 && all[j] == name);
                        } else {
                            assert(name == this);
                        }
                    }
                    if selected(src, name) && exists|j: int| 0 <= j < i + 1 && all[j] == name {
                        let j = choose|j: int| 0 <= j < i + 1 && all[j] == name;
                        if j < i {
                            assert(earlier.contains(name));
                        }
                    }
                }
            }
            i += 1;
        }
        proof {
            let out = texts(chosen@);
            assert forall|name: Seq<char>| #[trigger]
                out.contains(name) <==> all.contains(name) && selected(src, name) by {
                if all.contains(name) {
                    let j = choose|j: int| 0 <= j < all.len() && all[j] == name;
                    assert(0 <= j < i && all[j] == name);
                }
            }
        }
        chosen
    }
}

/// Tries `pattern`: `Ok` where it compiles and so takes part in a selection,
/// else the reason why it does not.
pub fn check_pattern(pattern: &str) -> (r: Result<(), String>)
    ensures
        r is Ok <==> regex_compiles(pattern@),
        r matches Err(reason) ==> Some(reason@) == regex_rejection(pattern@),
{
    match Pattern::compile(pattern) {
        Ok(_) => Ok(()),
        Err(reason) => Err(reason),
    }
}

/// Chooses among `names` those that at least one usable pattern matches.
/// A pattern that does not compile is left out; with no usable pattern there
/// is no selection.
pub fn select(names: &Vec<String>, patterns: &Vec<String>) -> (r: Result<Vec<String>, SelectError>)
    ensures
        r is Ok <==> any_usable(texts(patterns@)),
        r matches Ok(chosen) ==> is_selection(texts(names@), texts(patterns@), texts(chosen@)),
        r matches Err(e) ==> e == SelectError::NoUsablePatterns,
{
    match SelectionMatcher::new(patterns) {
        Ok(matcher) => {
            let chosen = matcher.select(names);
            Ok(chosen)
        },
        Err(e) => Err(e),
    }
}

/// A pattern set of which none compiles selects nothing, whatever the names.
pub proof fn lemma_unusable_selects_nothing(patterns: Seq<Seq<char>>, name: Seq<char>)
    requires
        !any_usable(patterns),
    ensures
        !selected(patterns, name),
{
}

/// The patterns and the names determine the selection: two selections of the
/// same names by the same patterns are equal.
pub proof fn lemma_selection_unique(
    names: Seq<Seq<char>>,
    patterns: Seq<Seq<char>>,
    a: Seq<Seq<char>>,
    b: Seq<Seq<char>>,
)
    requires
        is_selection(names, patterns, a),
        is_selection(names, patterns, b),
    ensures
        a == b,
{
    crate::text::lemma_ascending_same_members(a, b);
}

} // verus!
