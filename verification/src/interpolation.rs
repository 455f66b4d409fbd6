//! Substitution of named values into message templates.
//!
//! A template is free text with placeholders of the form `[name]`, where the
//! name holds no bracket. Substitution reads the template once, from left to
//! right; the text that replaces a placeholder is never read again.

use crate::string_map::StringMap;
use crate::text::{chars_of, string_of};
use vstd::prelude::*;
use vstd::string::StringExecFns;

verus! {

/// `[` or `]`.
pub open spec fn is_bracket(c: char) -> bool {
    c == '[' || c == ']'
}

/// The number of characters of `t` before its first bracket.
pub open spec fn plain_prefix_len(t: Seq<char>) -> nat
    decreases t.len(),
{
    if t.len() == 0 || is_bracket(t[0]) {
        0
    } else {
        1 + plain_prefix_len(t.skip(1))
    }
}

/// The length of the placeholder `[name]` that `t` begins with, brackets
/// included; `None` where `t` does not begin with a placeholder.
pub open spec fn placeholder_len(t: Seq<char>) -> Option<nat> {
    if t.len() > 0 && t[0] == '[' {
        let close = 1 + plain_prefix_len(t.skip(1));
        if close < t.len() && t[close as int] == ']' {
            Some((close + 1) as nat)
        } else {
            None
        }
    } else {
        None
    }
}

/// The placeholder that names `name`.
pub open spec fn placeholder(name: Seq<char>) -> Seq<char> {
    seq!['['] + name + seq![']']
}

/// What stands in place of the placeholder of `name`: its value where
/// `values` has one, the placeholder itself where it has none.
pub open spec fn replacement(name: Seq<char>, values: Map<Seq<char>, Seq<char>>) -> Seq<char> {
    if values.contains_key(name) {
        values[name]
    } else {
        placeholder(name)
    }
}

/// The text of template `t` with each placeholder replaced by its value.
pub open spec fn substituted(t: Seq<char>, values: Map<Seq<char>, Seq<char>>) -> Seq<char>
    decreases t.len(),
{
    if t.len() == 0 {
        t
    } else {
        match placeholder_len(t) {
            Some(n) => replacement(t.subrange(1, n - 1), values) + substituted(
                t.skip(n as int),
                values,
            ),
            None => seq![t[0]] + substituted(t.skip(1), values),
        }
    }
}

/// A placeholder begins at position `i` of `t`.
pub open spec fn placeholder_at(t: Seq<char>, i: int) -> bool {
    0 <= i < t.len() && placeholder_len(t.skip(i)) is Some
}

/// The name of the placeholder that begins at position `i` of `t`.
pub open spec fn name_at(t: Seq<char>, i: int) -> Seq<char> {
    t.skip(i).subrange(1, placeholder_len(t.skip(i))->0 - 1)
}

/// `t` holds at least one placeholder.
pub open spec fn has_placeholder(t: Seq<char>) -> bool {
    exists|i: int| placeholder_at(t, i)
}

/// No character of `s` is a bracket.
pub open spec fn bracket_free(s: Seq<char>) -> bool {
    forall|k: int| 0 <= k < s.len() ==> !is_bracket(#[trigger] s[k])
}

/// The plain prefix is within the text, holds no bracket, and ends at a
/// bracket or at the end of the text.
pub proof fn lemma_plain_prefix(t: Seq<char>)
    ensures
        plain_prefix_len(t) <= t.len(),
        bracket_free(t.take(plain_prefix_len(t) as int)),
        plain_prefix_len(t) < t.len() ==> is_bracket(t[plain_prefix_len(t) as int]),
    decreases t.len(),
{
    if t.len() == 0 || is_bracket(t[0]) {
    } else {
        let rest = t.skip(1);
        lemma_plain_prefix(rest);
        let n = plain_prefix_len(rest) as int;
        assert forall|k: int| 0 <= k < n + 1 implies !is_bracket(#[trigger] t.take(n + 1)[k]) by {
            if k > 0 {
                assert(t.take(n + 1)[k] == rest.take(n)[k - 1]);
            }
        }
        if n + 1 < t.len() {
            assert(t[n + 1] == rest[n]);
        }
    }
}

/// A bracket-free stretch of `n` characters that ends at a bracket, or at
/// the end of the text, is the plain prefix.
pub proof fn lemma_plain_prefix_is(t: Seq<char>, n: int)
    requires
        0 <= n <= t.len(),
        bracket_free(t.take(n)),
        n < t.len() ==> is_bracket(t[n]),
    ensures
        plain_prefix_len(t) == n,
    decreases t.len(),
{
    if n == 0 {
    } else {
        assert(t.take(n)[0] == t[0]);
        let rest = t.skip(1);
        assert forall|k: int| 0 <= k < n - 1 implies !is_bracket(#[trigger] rest.take(n - 1)[k]) by {
            assert(rest.take(n - 1)[k] == t.take(n)[k + 1]);
        }
        if n - 1 < rest.len() {
            assert(rest[n - 1] == t[n]);
        }
        lemma_plain_prefix_is(rest, n - 1);
    }
}

/// A placeholder has at least its two brackets and lies within the text.
pub proof fn lemma_placeholder_len(t: Seq<char>)
    ensures
        placeholder_len(t) matches Some(n) ==> 2 <= n <= t.len() && t[0] == '[' && t[n - 1] == ']'
            && bracket_free(t.subrange(1, n - 1)),
{
    if t.len() > 0 && t[0] == '[' {
        let rest = t.skip(1);
        lemma_plain_prefix(rest);
        let m = plain_prefix_len(rest) as int;
        if m + 1 < t.len() && t[m + 1] == ']' {
            assert(t.subrange(1, m + 1) =~= rest.take(m));
        }
    }
}

/// A text that begins with the placeholder of a bracket-free name becomes
/// the name's replacement, followed by the substitution of what comes after
/// the placeholder. Every occurrence of one name is thus replaced alike.
pub proof fn lemma_substitute_placeholder(
    name: Seq<char>,
    rest: Seq<char>,
    values: Map<Seq<char>, Seq<char>>,
)
    requires
        bracket_free(name),
    ensures
        substituted(placeholder(name) + rest, values) == replacement(name, values) + substituted(
            rest,
            values,
        ),
{
    let t = placeholder(name) + rest;
    let n = name.len() as int;
    let tail = t.skip(1);
    assert(t[0] == '[');
    assert(t[n + 1] == ']');
    assert forall|k: int| 0 <= k < n implies !is_bracket(#[trigger] tail.take(n)[k]) by {
        assert(tail.take(n)[k] == name[k]);
    }
    assert(tail[n] == t[n + 1]);
    lemma_plain_prefix_is(tail, n);
    assert(placeholder_len(t) == Some((n + 2) as nat));
    assert(t.subrange(1, n + 1) =~= name);
    assert(t.skip(n + 2) =~= rest);
}

/// A text that begins with a character other than `[` keeps that character.
pub proof fn lemma_substitute_char(c: char, rest: Seq<char>, values: Map<Seq<char>, Seq<char>>)
    requires
        c != '[',
    ensures
        substituted(seq![c] + rest, values) == seq![c] + substituted(rest, values),
{
    let t = seq![c] + rest;
    assert(t[0] == c);
    assert(t.skip(1) =~= rest);
}

/// Text without `[` passes through unchanged, and substitution goes on
/// behind it.
pub proof fn lemma_substitute_text(
    text: Seq<char>,
    rest: Seq<char>,
    values: Map<Seq<char>, Seq<char>>,
)
    requires
        forall|k: int| 0 <= k < text.len() ==> text[k] != '[',
    ensures
        substituted(text + rest, values) == text + substituted(rest, values),
    decreases text.len(),
{
    if text.len() == 0 {
        assert(text + rest =~= rest);
        assert(text + substituted(rest, values) =~= substituted(rest, values));
    } else {
        let tail = text.skip(1);
        assert forall|k: int| 0 <= k < tail.len() implies tail[k] != '[' by {
            assert(tail[k] == text[k + 1]);
        }
        lemma_substitute_text(tail, rest, values);
        lemma_substitute_char(text[0], tail + rest, values);
        assert(seq![text[0]] + (tail + rest) =~= text + rest);
        assert(seq![text[0]] + (tail + substituted(rest, values)) =~= text + substituted(
            rest,
            values,
        ));
    }
}

/// Where no placeholder of the template names a key of `values`, the
/// template comes out unchanged: placeholders without a value stay as they
/// are written.
pub proof fn lemma_substitute_unmatched(t: Seq<char>, values: Map<Seq<char>, Seq<char>>)
    requires
        forall|i: int| placeholder_at(t, i) ==> !values.contains_key(#[trigger] name_at(t, i)),
    ensures
        substituted(t, values) == t,
    decreases t.len(),
{
    if t.len() > 0 {
        assert(t.skip(0) =~= t);
        lemma_placeholder_len(t);
        match placeholder_len(t) {
            Some(len) => {
                let n = len as int;
                assert(placeholder_at(t, 0));
                let name = t.subrange(1, n - 1);
                assert(name_at(t, 0) == name);
                let rest = t.skip(n);
                assert forall|i: int| placeholder_at(rest, i) implies !values.contains_key(
                    #[trigger] name_at(rest, i),
                ) by {
                    assert(rest.skip(i) =~= t.skip(n + i));
                    assert(placeholder_at(t, n + i));
                    assert(name_at(t, n + i) == name_at(rest, i));
                }
                lemma_substitute_unmatched(rest, values);
                assert(placeholder(name) + rest =~= t);
            },
            None => {
                let rest = t.skip(1);
                assert forall|i: int| placeholder_at(rest, i) implies !values.contains_key(
                    #[trigger] name_at(rest, i),
                ) by {
                    assert(rest.skip(i) =~= t.skip(1 + i));
                    assert(placeholder_at(t, 1 + i));
                    assert(name_at(t, 1 + i) == name_at(rest, i));
                }
                lemma_substitute_unmatched(rest, values);
                assert(seq![t[0]] + rest =~= t);
            },
        }
    }
}

/// A template without placeholders comes out unchanged, whatever the
/// values.
pub proof fn lemma_substitute_without_placeholders(
    t: Seq<char>,
    values: Map<Seq<char>, Seq<char>>,
)
    requires
        !has_placeholder(t),
    ensures
        substituted(t, values) == t,
{
    lemma_substitute_unmatched(t, values);
}

/// Without values every template comes out unchanged.
pub proof fn lemma_substitute_nothing(t: Seq<char>)
    ensures
        substituted(t, Map::empty()) == t,
{
    lemma_substitute_unmatched(t, Map::empty());
}

/// Where no placeholder begins at `i`, the character at `i` is kept.
proof fn lemma_step_plain(t: Seq<char>, i: int, values: Map<Seq<char>, Seq<char>>)
    requires
        0 <= i < t.len(),
        placeholder_len(t.skip(i)) is None,
    ensures
        substituted(t.skip(i), values) == seq![t[i]] + substituted(t.skip(i + 1), values),
{
    assert(t.skip(i).skip(1) =~= t.skip(i + 1));
}

/// Where `[`, a bracket-free name and `]` stand from `i` to `j`, a
/// placeholder begins at `i` and is replaced as a whole.
proof fn lemma_step_placeholder(t: Seq<char>, i: int, j: int, values: Map<Seq<char>, Seq<char>>)
    requires
        0 <= i < j < t.len(),
        t[i] == '[',
        t[j] == ']',
        bracket_free(t.subrange(i + 1, j)),
    ensures
        placeholder_len(t.skip(i)) == Some((j - i + 1) as nat),
        substituted(t.skip(i), values) == replacement(t.subrange(i + 1, j), values) + substituted(
            t.skip(j + 1),
            values,
        ),
{
    let s = t.skip(i);
    let name = t.subrange(i + 1, j);
    assert(s =~= placeholder(name) + t.skip(j + 1));
    lemma_substitute_placeholder(name, t.skip(j + 1), values);
    let tail = s.skip(1);
    let n = j - i - 1;
    assert forall|k: int| 0 <= k < n implies !is_bracket(#[trigger] tail.take(n)[k]) by {
        assert(tail.take(n)[k] == name[k]);
    }
    assert(tail[n] == t[j]);
    lemma_plain_prefix_is(tail, n);
}

/// A `[` that is followed by another `[`, or by the end of the text,
/// before any `]` begins no placeholder.
proof fn lemma_step_open(t: Seq<char>, i: int, j: int)
    requires
        0 <= i < j <= t.len(),
        t[i] == '[',
        bracket_free(t.subrange(i + 1, j)),
        j < t.len() ==> t[j] == '[',
    ensures
        placeholder_len(t.skip(i)) is None,
{
    let s = t.skip(i);
    let tail = s.skip(1);
    let n = j - i - 1;
    assert forall|k: int| 0 <= k < n implies !is_bracket(#[trigger] tail.take(n)[k]) by {
        assert(tail.take(n)[k] == t.subrange(i + 1, j)[k]);
    }
    if n < tail.len() {
        assert(tail[n] == t[j]);
    }
    lemma_plain_prefix_is(tail, n);
}

/// Replaces each placeholder `[name]` of `template` by the value that
/// `values` holds under `name`. A placeholder whose name has no value stays
/// as it is written. The replacing text is not read for placeholders.
pub fn substitute(template: &str, values: &StringMap) -> (text: String)
    ensures
        text@ == substituted(template@, values@),
        !has_placeholder(template@) ==> text@ == template@,
        (forall|i: int|
            placeholder_at(template@, i) ==> !values@.contains_key(
                #[trigger] name_at(template@, i),
            )) ==> text@ == template@,
{
    proof {
        if !has_placeholder(template@) {
            lemma_substitute_without_placeholders(template@, values@);
        }
        if forall|i: int|
            placeholder_at(template@, i) ==> !values@.contains_key(
                #[trigger] name_at(template@, i),
            ) {
            lemma_substitute_unmatched(template@, values@);
        }
    }
    let t = chars_of(template);
    let mut out = String::new();
    let mut i: usize = 0;
    assert(t@.skip(0) =~= t@);
    assert(out@ + substituted(t@.skip(0), values@) =~= substituted(t@, values@));
    while i < t.len()
        invariant
            i <= t.len(),
            t@ == template@,
            out@ + substituted(t@.skip(i as int), values@) == substituted(t@, values@),
        decreases t.len() - i,
    {
        let ghost done = out@;
        if t[i] != '[' {
            proof {
                lemma_step_plain(t@, i as int, values@);
                assert(done + (seq![t@[i as int]] + substituted(t@.skip(i + 1), values@)) =~= done.push(
                    t@[i as int],
                ) + substituted(t@.skip(i + 1), values@));
            }
            out.push(t[i]);
            i += 1;
        } else {
            let mut j: usize = i + 1;
            while j < t.len() && t[j] != '[' && t[j] != ']'
                invariant
                    i < j <= t.len(),
                    bracket_free(t@.subrange(i + 1, j as int)),
                decreases t.len() - j,
            {
                proof {
                    let before = t@.subrange(i + 1, j as int);
                    let after = t@.subrange(i + 1, j + 1);
                    assert forall|k: int| 0 <= k < after.len() implies !is_bracket(
                        #[trigger] after[k],
                    ) by {
                        if k < before.len() {
                            assert(after[k] == before[k]);
                        }
                    }
                }
                j += 1;
            }
            if j < t.len() && t[j] == ']' {
                let name = string_of(&t, i + 1, j);
                proof {
                    lemma_step_placeholder(t@, i as int, j as int, values@);
                }
                match values.get(name.as_str()) {
                    Some(value) => {
                        out.append(value.as_str());
                    },
                    None => {
                        let mut k: usize = i;
                        while k <= j
                            invariant
                                i <= k <= j + 1,
                                j < t.len(),
                                out@ == done + t@.subrange(i as int, k as int),
                            decreases j + 1 - k,
                        {
                            proof {
                                assert(t@.subrange(i as int, k as int).push(t@[k as int])
                                    =~= t@.subrange(i as int, k + 1));
                            }
                            out.push(t[k]);
                            k += 1;
                        }
                        assert(t@.subrange(i as int, j + 1) =~= placeholder(
                            t@.subrange(i + 1, j as int),
                        ));
                    },
                }
                proof {
                    let piece = replacement(t@.subrange(i + 1, j as int), values@);
                    assert(out@ == done + piece);
                    assert(done + (piece + substituted(t@.skip(j + 1), values@)) =~= (done + piece)
                        + substituted(t@.skip(j + 1), values@));
                }
                i = j + 1;
            } else {
                proof {
                    lemma_step_open(t@, i as int, j as int);
                    lemma_step_plain(t@, i as int, values@);
                    assert(done + (seq![t@[i as int]] + substituted(t@.skip(i + 1), values@)) =~= done.push(
                        t@[i as int],
                    ) + substituted(t@.skip(i + 1), values@));
                }
                out.push(t[i]);
                i += 1;
            }
        }
    }
    assert(t@.skip(t@.len() as int) =~= Seq::empty());
    assert(out@ + Seq::<char>::empty() =~= out@);
    out
}

} // verus!
