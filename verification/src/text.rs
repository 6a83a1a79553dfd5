//! Text helpers: the spacing normalizer for rendered types, and joining of
//! namespace segments.

use vstd::prelude::*;
use vstd::string::StringExecFns;

verus! {

/// A space directly after one of these characters is dropped.
pub open spec fn tight_after(c: char) -> bool {
    c == ':' || c == '&' || c == '<' || c == '>'
}

/// A space directly before one of these characters is dropped.
pub open spec fn tight_before(c: char) -> bool {
    c == ':' || c == ',' || c == '<' || c == '>'
}

/// What is left of the first `n` characters of `s` once excess spaces are gone.
///
/// A character is dropped exactly when it is a space that is neither the first
/// nor the last character of `s`, and either the last character kept before it
/// satisfies [`tight_after`] or the character that follows it in `s` satisfies
/// [`tight_before`].
pub open spec fn compacted(s: Seq<char>, n: int) -> Seq<char>
    decreases n,
{
    if n <= 0 {
        Seq::empty()
    } else {
        let kept = compacted(s, n - 1);
        let c = s[n - 1];
        if c == ' ' && 1 < n < s.len() && (tight_after(kept.last()) || tight_before(s[n])) {
            kept
        } else {
            kept.push(c)
        }
    }
}

/// The rendering `s` of a token stream with conventional Rust spacing.
pub open spec fn normalized(s: Seq<char>) -> Seq<char> {
    compacted(s, s.len() as int)
}

/// The first character is always kept, and nothing is ever added.
pub proof fn lemma_compacted_len(s: Seq<char>, n: int)
    requires
        0 <= n <= s.len(),
    ensures
        compacted(s, n).len() <= n,
        n >= 1 ==> compacted(s, n).len() >= 1 && compacted(s, n)[0] == s[0],
    decreases n,
{
    if n > 0 {
        lemma_compacted_len(s, n - 1);
    }
}

/// The characters of a string slice, in order.
pub fn chars_of(s: &str) -> (r: Vec<char>)
    ensures
        r@ == s@,
{
    let mut out: Vec<char> = Vec::new();
    for c in it: s.chars()
        invariant
            out@ == it.seq().take(it.index() as int),
    {
        out.push(c);
    }
    out
}

/// `String::from_iter` over the characters of a vector: the string that spells
/// exactly those characters, in order.
#[verifier::external_body]
pub(crate) fn string_of(chars: &Vec<char>) -> (r: String)
    ensures
        r@ == chars@,
{
    String::from_iter(chars.iter())
}

/// Convert the rendering of a token stream to a string with typical Rust
/// spacing between tokens.
///
/// This shrinks for example `& 'static` to just `&'static`.
pub fn remove_excess_spaces(type_str: &str) -> (r: String)
    ensures
        r@ == normalized(type_str@),
{
    let mut c: Vec<char> = chars_of(type_str);
    let ghost s = type_str@;
    let ghost n = s.len() as int;
    // Position in `s` of the character that now stands at `i`.
    let ghost mut j: int = 1;
    let mut i: usize = 1;
    proof {
        if n >= 1 {
            assert(compacted(s, 0) =~= Seq::<char>::empty());
            assert(compacted(s, 1) =~= seq![s[0]]);
            assert(c@ =~= compacted(s, 1) + s.subrange(1, n));
        }
    }
    while i < c.len() && i + 1 < c.len()
        invariant
            s == type_str@,
            n == s.len(),
            i >= 1,
            n == 0 ==> c@.len() == 0,
            n >= 1 ==> 1 <= j <= n,
            n >= 1 ==> i == compacted(s, j).len(),
            n >= 1 ==> c@ == compacted(s, j) + s.subrange(j, n),
        decreases n - j,
    {
        proof {
            lemma_compacted_len(s, j);
        }
        let ghost kept = compacted(s, j);
        assert(c@[i as int] == s[j]);
        assert(c@[i - 1] == kept.last());
        assert(c@[i + 1] == s[j + 1]);
        let mut dropped = false;
        if c[i] == ' ' {
            let a = c[i - 1];
            let b = c[i + 1];
            if a == ':' || b == ':' || b == ',' || a == '&' || a == '<' || b == '<' || a == '>'
                || b == '>' {
                c.remove(i);
                dropped = true;
            }
        }
        proof {
            if dropped {
                assert(compacted(s, j + 1) == kept);
                assert(c@ =~= kept + s.subrange(j + 1, n));
            } else {
                assert(compacted(s, j + 1) == kept.push(s[j]));
                assert(c@ =~= kept.push(s[j]) + s.subrange(j + 1, n));
            }
            j = j + 1;
        }
        if !dropped {
            i += 1;
        }
    }
    proof {
        if n >= 1 {
            if j < n {
                assert(j == n - 1);
                assert(compacted(s, n) == compacted(s, j).push(s[j]));
                assert(c@ =~= compacted(s, n));
            } else {
                assert(c@ =~= compacted(s, n));
            }
        } else {
            assert(c@ =~= compacted(s, 0));
        }
    }
    string_of(&c)
}

/// The views of a sequence of strings.
pub open spec fn texts(v: Seq<String>) -> Seq<Seq<char>> {
    v.map_values(|s: String| s@)
}

/// The segments of a namespace path, separated by `::`.
pub open spec fn joined(parts: Seq<Seq<char>>) -> Seq<char>
    decreases parts.len(),
{
    if parts.len() == 0 {
        Seq::empty()
    } else if parts.len() == 1 {
        parts[0]
    } else {
        joined(parts.drop_last()) + "::"@ + parts.last()
    }
}

/// Join the segments of a namespace path with `::`.
pub fn join_path(parts: &Vec<String>) -> (r: String)
    ensures
        r@ == joined(texts(parts@)),
{
    let mut out = String::new();
    let mut k: usize = 0;
    while k < parts.len()
        invariant
            k <= parts.len(),
            out@ == joined(texts(parts@).take(k as int)),
        decreases parts.len() - k,
    {
        let ghost before = texts(parts@).take(k as int);
        let ghost after = texts(parts@).take(k + 1);
        assert(after.drop_last() =~= before);
        assert(after.last() == parts@[k as int]@);
        if k > 0 {
            out.append("::");
        } else {
            assert(out@ + parts@[k as int]@ =~= parts@[k as int]@);
        }
        out.append(parts[k].as_str());
        k += 1;
    }
    assert(texts(parts@).take(k as int) =~= texts(parts@));
    out
}

/// The characters of `s` that are no spaces, in order.
pub open spec fn without_spaces(s: Seq<char>) -> Seq<char> {
    s.filter(|c: char| c != ' ')
}

/// Through every prefix, compaction drops spaces only.
pub proof fn lemma_compacted_drops_only_spaces(s: Seq<char>, n: int)
    requires
        0 <= n <= s.len(),
    ensures
        without_spaces(compacted(s, n)) == without_spaces(s.take(n)),
    decreases n,
{
    reveal(Seq::filter);
    if n > 0 {
        lemma_compacted_drops_only_spaces(s, n - 1);
        let kept = compacted(s, n - 1);
        assert(s.take(n).drop_last() =~= s.take(n - 1));
        assert(kept.push(s[n - 1]).drop_last() =~= kept);
    } else {
        assert(s.take(0) =~= compacted(s, 0));
    }
}

/// Normalization changes the spacing and nothing else: it drops spaces only,
/// it never drops the first or the last character, and it leaves a text
/// without spaces as it is.
pub proof fn law_normalized_drops_only_spaces(s: Seq<char>)
    ensures
        without_spaces(normalized(s)) == without_spaces(s),
        normalized(s).len() <= s.len(),
        s.len() > 0 ==> normalized(s).len() > 0 && normalized(s).first() == s.first()
            && normalized(s).last() == s.last(),
        (forall|k: int| 0 <= k < s.len() ==> s[k] != ' ') ==> normalized(s) == s,
{
    let n = s.len() as int;
    lemma_compacted_drops_only_spaces(s, n);
    assert(s.take(n) =~= s);
    lemma_compacted_len(s, n);
    if forall|k: int| 0 <= k < s.len() ==> s[k] != ' ' {
        lemma_compacted_without_spaces(s, n);
        assert(s.take(n) =~= s);
    }
}

/// Compaction leaves a prefix without spaces as it is.
pub proof fn lemma_compacted_without_spaces(s: Seq<char>, n: int)
    requires
        0 <= n <= s.len(),
        forall|k: int| 0 <= k < n ==> s[k] != ' ',
    ensures
        compacted(s, n) == s.take(n),
    decreases n,
{
    if n > 0 {
        lemma_compacted_without_spaces(s, n - 1);
        assert(s.take(n) =~= s.take(n - 1).push(s[n - 1]));
    } else {
        assert(s.take(0) =~= compacted(s, 0));
    }
}

} // verus!
