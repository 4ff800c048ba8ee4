//! The endpoint template: finding the language substitution marker in a raw
//! URL, the splitting that setting a template performs, and the round-trip
//! laws that relate splitting to rendering.

use vstd::prelude::*;

verus! {

/// The language substitution marker looked for in a raw endpoint template.
pub open spec fn marker() -> Seq<char> {
    "{language}"@
}

/// The marker occurs in `s` starting at position `i`.
pub open spec fn is_marker_at(s: Seq<char>, i: int) -> bool {
    &&& 0 <= i
    &&& i + marker().len() <= s.len()
    &&& s.subrange(i, i + marker().len() as int) == marker()
}

/// The position of the first marker occurrence in `s`, if there is one.
pub open spec fn find_marker_in(s: Seq<char>) -> Option<int>
    decreases s.len(),
{
    if is_marker_at(s, 0) {
        Some(0)
    } else if s.len() == 0 {
        None
    } else {
        match find_marker_in(s.drop_first()) {
            Some(i) => Some(i + 1),
            None => None,
        }
    }
}

/// `find_marker_in` returns the first occurrence: a position where the marker
/// stands, with none before it; or `None` when the marker occurs nowhere.
pub proof fn lemma_find_marker_first(s: Seq<char>)
    ensures
        match find_marker_in(s) {
            Some(i) => is_marker_at(s, i) && forall|j: int| 0 <= j < i ==> !is_marker_at(s, j),
            None => forall|j: int| !is_marker_at(s, j),
        },
    decreases s.len(),
{
    if is_marker_at(s, 0) {
    } else if s.len() == 0 {
    } else {
        lemma_find_marker_first(s.drop_first());
        assert forall|j: int| 0 <= j implies (is_marker_at(s, j + 1) == is_marker_at(
            s.drop_first(),
            j,
        )) by {
            if j + 1 + marker().len() <= s.len() {
                assert(s.drop_first().subrange(j, j + marker().len() as int) =~= s.subrange(
                    j + 1,
                    j + 1 + marker().len() as int,
                ));
            }
        }
        match find_marker_in(s.drop_first()) {
            Some(i) => {
                assert(find_marker_in(s) == Some(i + 1));
                assert forall|j: int| 0 <= j < i + 1 implies !is_marker_at(s, j) by {
                    if j == 0 {
                    } else {
                        assert(!is_marker_at(s.drop_first(), j - 1));
                    }
                }
            },
            None => {
                assert forall|j: int| !is_marker_at(s, j) by {
                    if j > 0 {
                        assert(!is_marker_at(s.drop_first(), j - 1));
                    }
                }
            },
        }
    }
}

fn marker_matches_at(s: &str, i: usize, n: usize) -> (r: bool)
    requires
        n == s@.len(),
        i + 10 <= n,
    ensures
        r == is_marker_at(s@, i as int),
{
    proof {
        reveal_strlit("{language}");
    }
    let r = s.get_char(i) == '{' && s.get_char(i + 1) == 'l' && s.get_char(i + 2) == 'a'
        && s.get_char(i + 3) == 'n' && s.get_char(i + 4) == 'g' && s.get_char(i + 5) == 'u'
        && s.get_char(i + 6) == 'a' && s.get_char(i + 7) == 'g' && s.get_char(i + 8) == 'e'
        && s.get_char(i + 9) == '}';
    proof {
        let sub = s@.subrange(i as int, i as int + 10);
        if r {
            assert(sub =~= marker());
        } else {
            if is_marker_at(s@, i as int) {
                assert(sub == marker());
                assert(sub[0] == '{');
                assert(sub[1] == 'l');
                assert(sub[2] == 'a');
                assert(sub[3] == 'n');
                assert(sub[4] == 'g');
                assert(sub[5] == 'u');
                assert(sub[6] == 'a');
                assert(sub[7] == 'g');
                assert(sub[8] == 'e');
                assert(sub[9] == '}');
                assert(false);
            }
        }
    }
    r
}

/// Finds the first occurrence of the language marker in `s`.
pub fn find_marker(s: &str) -> (r: Option<usize>)
    ensures
        match r {
            Some(u) => find_marker_in(s@) == Some(u as int),
            None => find_marker_in(s@) is None,
        },
{
    proof {
        lemma_find_marker_first(s@);
        reveal_strlit("{language}");
    }
    let n = s.unicode_len();
    if n < 10 {
        return None;
    }
    let mut i: usize = 0;
    loop
        invariant
            n == s@.len(),
            10 <= n,
            i <= n - 9,
            forall|j: int| 0 <= j < i ==> !is_marker_at(s@, j),
            find_marker_in(s@) matches Some(f) ==> is_marker_at(s@, f) && forall|j: int|
                0 <= j < f ==> !is_marker_at(s@, j),
            find_marker_in(s@) is None ==> forall|j: int| !is_marker_at(s@, j),
        decreases n - i,
    {
        if i > n - 10 {
            proof {
                assert forall|j: int| !is_marker_at(s@, j) by {
                    reveal_strlit("{language}");
                    if j >= i {
                        assert(j + marker().len() > s@.len());
                    }
                }
            }
            return None;
        }
        if marker_matches_at(s, i, n) {
            proof {
                match find_marker_in(s@) {
                    Some(f) => {
                        if f < i {
                            assert(false);
                        }
                        if f > i {
                            assert(!is_marker_at(s@, i as int));
                            assert(false);
                        }
                    },
                    None => {
                        assert(false);
                    },
                }
            }
            return Some(i);
        }
        i = i + 1;
    }
}

/// The URL a client renders after setting `raw` as its template, when its
/// language is `lang`: with a marker in `raw`, the parts around the first
/// occurrence surround `lang`; without one, `raw` itself, whatever the
/// language, since setting a literal URL clears the language.
pub open spec fn retemplated(raw: Seq<char>, lang: Seq<char>) -> Seq<char> {
    match find_marker_in(raw) {
        Some(i) => raw.take(i) + lang + raw.skip(i + marker().len() as int),
        None => raw,
    }
}

/// A URL without the marker, set as the template, renders back to itself,
/// whatever language is configured.
pub proof fn lemma_literal_template_renders_itself(raw: Seq<char>, lang: Seq<char>)
    requires
        forall|j: int| !is_marker_at(raw, j),
    ensures
        retemplated(raw, lang) == raw,
{
    lemma_find_marker_first(raw);
    if find_marker_in(raw) is Some {
        assert(is_marker_at(raw, find_marker_in(raw)->Some_0));
        assert(false);
    }
}

/// Template round trip: render a template that holds the marker exactly once
/// with some language, then set the rendered URL as the template and render
/// again; as long as the rendered URL does not itself contain the marker, the
/// second render returns the first URL unchanged.
pub proof fn lemma_template_round_trip(raw: Seq<char>, lang: Seq<char>)
    requires
        find_marker_in(raw) is Some,
        forall|j: int| is_marker_at(raw, j) ==> Some(j) == find_marker_in(raw),
        forall|j: int| !is_marker_at(retemplated(raw, lang), j),
    ensures
        retemplated(retemplated(raw, lang), lang) == retemplated(raw, lang),
{
    lemma_literal_template_renders_itself(retemplated(raw, lang), lang);
}

} // verus!
