//! The community-query text rewrite.
//!
//! Community highlight queries are written in a dialect whose predicate
//! names and non-highlighting capture markers the query engine used here
//! does not understand. Before such a query is offered for compilation,
//! its dialect-specific predicate spellings are rewritten to the one
//! portable spelling and the non-highlighting capture markers are removed
//! outright. The rewrite is literal, case-sensitive, and independent of
//! whether the text is a syntactically valid query.

use vstd::prelude::*;

verus! {

/// All occurrences of `pat` in `s`, found left to right and without
/// overlap, replaced by `rep`. An empty `pat` replaces nothing.
pub open spec fn replace_all(s: Seq<char>, pat: Seq<char>, rep: Seq<char>) -> Seq<char>
    decreases s.len(),
{
    if pat.len() == 0 || s.len() < pat.len() {
        s
    } else if s.take(pat.len() as int) == pat {
        rep + replace_all(s.skip(pat.len() as int), pat, rep)
    } else {
        seq![s[0]] + replace_all(s.skip(1), pat, rep)
    }
}

/// `pat` occurs somewhere in `s`.
pub open spec fn contains_pattern(s: Seq<char>, pat: Seq<char>) -> bool {
    exists|i: int| 0 <= i && i + pat.len() <= s.len() && #[trigger] s.subrange(i, i + pat.len())
        == pat
}

/// The whole rewrite: both dialect-specific spellings of the string-match
/// predicate become the portable one, and the four non-highlighting
/// capture markers are removed, in this order.
pub open spec fn rewritten(s: Seq<char>) -> Seq<char> {
    replace_all(
        replace_all(
            replace_all(
                replace_all(
                    replace_all(
                        replace_all(s, "lua-match"@, "match"@),
                        "vim-match"@,
                        "match"@,
                    ),
                    "@none"@,
                    Seq::<char>::empty(),
                ),
                "@conceal"@,
                Seq::<char>::empty(),
            ),
            "@spell"@,
            Seq::<char>::empty(),
        ),
        "@nospell"@,
        Seq::<char>::empty(),
    )
}

/// `s` holds none of the six tokens that the rewrite looks for.
pub open spec fn free_of_rewrite_tokens(s: Seq<char>) -> bool {
    &&& !contains_pattern(s, "lua-match"@)
    &&& !contains_pattern(s, "vim-match"@)
    &&& !contains_pattern(s, "@none"@)
    &&& !contains_pattern(s, "@conceal"@)
    &&& !contains_pattern(s, "@spell"@)
    &&& !contains_pattern(s, "@nospell"@)
}

/// Replacing a pattern that does not occur leaves the text unchanged.
pub proof fn lemma_replace_all_absent(s: Seq<char>, pat: Seq<char>, rep: Seq<char>)
    requires
        !contains_pattern(s, pat),
    ensures
        replace_all(s, pat, rep) == s,
    decreases s.len(),
{
    if pat.len() == 0 || s.len() < pat.len() {
    } else if s.take(pat.len() as int) == pat {
        assert(s.subrange(0, 0 + pat.len() as int) =~= s.take(pat.len() as int));
        assert(contains_pattern(s, pat));
    } else {
        assert forall|i: int|
            0 <= i && i + pat.len() <= s.skip(1).len() implies #[trigger] s.skip(1).subrange(
            i,
            i + pat.len(),
        ) != pat by {
            if s.skip(1).subrange(i, i + pat.len()) == pat {
                assert(s.subrange(i + 1, i + 1 + pat.len()) =~= s.skip(1).subrange(
                    i,
                    i + pat.len(),
                ));
                assert(contains_pattern(s, pat));
            }
        }
        lemma_replace_all_absent(s.skip(1), pat, rep);
        assert(seq![s[0]] + s.skip(1) =~= s);
    }
}

/// A text free of all six rewrite tokens is a fixed point of the rewrite.
pub proof fn lemma_rewrite_fixed_point(s: Seq<char>)
    requires
        free_of_rewrite_tokens(s),
    ensures
        rewritten(s) == s,
{
    lemma_replace_all_absent(s, "lua-match"@, "match"@);
    lemma_replace_all_absent(s, "vim-match"@, "match"@);
    lemma_replace_all_absent(s, "@none"@, Seq::<char>::empty());
    lemma_replace_all_absent(s, "@conceal"@, Seq::<char>::empty());
    lemma_replace_all_absent(s, "@spell"@, Seq::<char>::empty());
    lemma_replace_all_absent(s, "@nospell"@, Seq::<char>::empty());
}

/// Applying the rewrite twice gives the same text as applying it once,
/// whenever one application leaves no rewrite token behind. (A token can
/// survive one application only when removing or rewriting one occurrence
/// splices its neighbours into a new occurrence.)
pub proof fn lemma_rewrite_idempotent(s: Seq<char>)
    requires
        free_of_rewrite_tokens(rewritten(s)),
    ensures
        rewritten(rewritten(s)) == rewritten(s),
{
    lemma_rewrite_fixed_point(rewritten(s));
}

/// The characters of `s`, starting at `i`, begin with `pat`.
fn matches_at(s: &Vec<char>, pat: &Vec<char>, i: usize) -> (r: bool)
    requires
        i + pat@.len() <= s@.len(),
    ensures
        r <==> s@.subrange(i as int, i as int + pat@.len() as int) == pat@,
{
    let ghost sub = s@.subrange(i as int, i as int + pat@.len() as int);
    let n = s.len();
    let mut j: usize = 0;
    while j < pat.len()
        invariant
            i + pat@.len() <= s@.len(),
            n == s@.len(),
            j <= pat@.len(),
            sub == s@.subrange(i as int, i as int + pat@.len() as int),
            forall|k: int| 0 <= k < j ==> s@[i + k] == pat@[k],
        decreases pat@.len() - j,
    {
        if s[i + j] != pat[j] {
            assert(sub[j as int] != pat@[j as int]);
            return false;
        }
        j = j + 1;
    }
    assert(sub =~= pat@);
    true
}

/// Appends every character of `src` to `out`.
fn push_all(out: &mut Vec<char>, src: &Vec<char>)
    ensures
        final(out)@ == old(out)@ + src@,
{
    let mut j: usize = 0;
    while j < src.len()
        invariant
            j <= src@.len(),
            out@ == old(out)@ + src@.take(j as int),
        decreases src@.len() - j,
    {
        out.push(src[j]);
        assert(old(out)@ + src@.take(j as int) + seq![src@[j as int]] =~= old(out)@ + src@.take(
            j as int + 1,
        ));
        j = j + 1;
    }
    assert(old(out)@ + src@.take(src@.len() as int) =~= old(out)@ + src@);
}

/// Replaces every occurrence of `pat` in `s` by `rep`, scanning left to
/// right and never re-examining replaced text.
fn replace_all_chars(s: &Vec<char>, pat: &Vec<char>, rep: &Vec<char>) -> (r: Vec<char>)
    requires
        pat@.len() > 0,
    ensures
        r@ == replace_all(s@, pat@, rep@),
{
    let mut out: Vec<char> = Vec::new();
    let mut i: usize = 0;
    proof {
        assert(s@.skip(0) =~= s@);
        assert(Seq::<char>::empty() + replace_all(s@, pat@, rep@) =~= replace_all(s@, pat@, rep@));
    }
    while i < s.len()
        invariant
            i <= s@.len(),
            pat@.len() > 0,
            replace_all(s@, pat@, rep@) == out@ + replace_all(s@.skip(i as int), pat@, rep@),
        decreases s@.len() - i,
    {
        let ghost tail = s@.skip(i as int);
        if pat.len() <= s.len() - i && matches_at(s, pat, i) {
            proof {
                assert(tail.take(pat@.len() as int) =~= s@.subrange(
                    i as int,
                    i as int + pat@.len() as int,
                ));
                assert(tail.skip(pat@.len() as int) =~= s@.skip(i as int + pat@.len() as int));
                assert(replace_all(tail, pat@, rep@) == rep@ + replace_all(
                    s@.skip(i as int + pat@.len() as int),
                    pat@,
                    rep@,
                ));
            }
            let ghost out0 = out@;
            push_all(&mut out, rep);
            proof {
                assert(out0 + (rep@ + replace_all(
                    s@.skip(i as int + pat@.len() as int),
                    pat@,
                    rep@,
                )) =~= (out0 + rep@) + replace_all(
                    s@.skip(i as int + pat@.len() as int),
                    pat@,
                    rep@,
                ));
            }
            i = i + pat.len();
        } else {
            proof {
                if pat.len() <= s.len() - i {
                    assert(tail.take(pat@.len() as int) =~= s@.subrange(
                        i as int,
                        i as int + pat@.len() as int,
                    ));
                } else {
                    assert(tail.len() < pat@.len());
                }
                assert(tail[0] == s@[i as int]);
                assert(tail.skip(1) =~= s@.skip(i as int + 1));
                assert(replace_all(tail, pat@, rep@) == seq![s@[i as int]] + replace_all(
                    s@.skip(i as int + 1),
                    pat@,
                    rep@,
                ));
            }
            let ghost out0 = out@;
            out.push(s[i]);
            proof {
                assert(out0 + (seq![s@[i as int]] + replace_all(
                    s@.skip(i as int + 1),
                    pat@,
                    rep@,
                )) =~= (out0 + seq![s@[i as int]]) + replace_all(
                    s@.skip(i as int + 1),
                    pat@,
                    rep@,
                ));
            }
            i = i + 1;
        }
    }
    proof {
        assert(s@.skip(i as int) =~= Seq::<char>::empty());
        assert(replace_all(s@.skip(i as int), pat@, rep@) == s@.skip(i as int));
        assert(out@ + Seq::<char>::empty() =~= out@);
    }
    out
}

/// Relies on `str::chars`: it yields exactly the characters of the string,
/// in order.
#[verifier::external_body]
fn chars_of(s: &str) -> (r: Vec<char>)
    ensures
        r@ == s@,
{
    s.chars().collect()
}

/// Relies on `String`'s `FromIterator<char>`: collecting characters builds
/// the string of exactly those characters, in order.
#[verifier::external_body]
fn string_of_chars(v: Vec<char>) -> (r: String)
    ensures
        r@ == v@,
{
    v.into_iter().collect()
}

/// Rewrites a community highlight query into the portable dialect: both
/// dialect-specific string-match predicate spellings become the one
/// portable spelling, and the four non-highlighting capture markers are
/// removed outright.
pub fn to_portable_query(s: &str) -> (r: String)
    ensures
        r@ == rewritten(s@),
{
    proof {
        reveal_strlit("lua-match");
        reveal_strlit("vim-match");
        reveal_strlit("match");
        reveal_strlit("@none");
        reveal_strlit("@conceal");
        reveal_strlit("@spell");
        reveal_strlit("@nospell");
    }
    let text = chars_of(s);
    let portable_match = chars_of("match");
    let nothing: Vec<char> = Vec::new();
    let text = replace_all_chars(&text, &chars_of("lua-match"), &portable_match);
    let text = replace_all_chars(&text, &chars_of("vim-match"), &portable_match);
    let text = replace_all_chars(&text, &chars_of("@none"), &nothing);
    let text = replace_all_chars(&text, &chars_of("@conceal"), &nothing);
    let text = replace_all_chars(&text, &chars_of("@spell"), &nothing);
    let text = replace_all_chars(&text, &chars_of("@nospell"), &nothing);
    string_of_chars(text)
}

} // verus!
