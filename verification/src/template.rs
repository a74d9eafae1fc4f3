use vstd::prelude::*;

verus! {

/// The characters tolerated around a placeholder name, inside the braces.
pub open spec fn is_space(c: char) -> bool {
    c == ' ' || c == '\t' || c == '\n' || c == '\r' || c == '\u{b}' || c == '\u{c}'
}

/// The first index at or after `i` that holds a non-space character (or the
/// end of `t`).
pub open spec fn skip_spaces(t: Seq<char>, i: int) -> int
    decreases t.len() - i,
{
    if 0 <= i && i < t.len() && is_space(t[i]) {
        skip_spaces(t, i + 1)
    } else {
        i
    }
}

/// Where a `{{ name }}` placeholder for exactly `name` begins at index `i` of
/// `t`: the index just past its closing braces; `None` where none begins there.
pub open spec fn placeholder_end(t: Seq<char>, name: Seq<char>, i: int) -> Option<int> {
    if 0 <= i && i + 2 <= t.len() && t[i] == '{' && t[i + 1] == '{' {
        let j = skip_spaces(t, i + 2);
        if j + name.len() <= t.len() && t.subrange(j, j + name.len() as int) == name {
            let k = skip_spaces(t, j + name.len() as int);
            if k + 2 <= t.len() && t[k] == '}' && t[k + 1] == '}' {
                Some(k + 2)
            } else {
                None
            }
        } else {
            None
        }
    } else {
        None
    }
}

/// `t` scanned left to right from index `i`, with every placeholder
/// occurrence of `name` replaced by `value` and every other character kept.
pub open spec fn replace_from(t: Seq<char>, name: Seq<char>, value: Seq<char>, i: int) -> Seq<char>
    decreases t.len() - i,
{
    if i < 0 || i >= t.len() {
        Seq::empty()
    } else {
        match placeholder_end(t, name, i) {
            Some(e) => if i < e <= t.len() {
                value + replace_from(t, name, value, e)
            } else {
                seq![t[i]] + replace_from(t, name, value, i + 1)
            },
            None => seq![t[i]] + replace_from(t, name, value, i + 1),
        }
    }
}

/// Every occurrence of the `{{ name }}` placeholder in `t` replaced by
/// `value`; all other text is kept verbatim.
pub open spec fn spec_replace(t: Seq<char>, name: Seq<char>, value: Seq<char>) -> Seq<char> {
    replace_from(t, name, value, 0)
}

/// Relies on String::push, which appends the given character.
#[verifier::external_body]
pub(crate) fn push_char(s: &mut String, c: char)
    ensures
        final(s)@ == old(s)@.push(c),
{
    s.push(c);
}

fn is_space_char(c: char) -> (b: bool)
    ensures
        b == is_space(c),
{
    c == ' ' || c == '\t' || c == '\n' || c == '\r' || c == '\u{b}' || c == '\u{c}'
}

fn skip_spaces_exec(text: &str, tlen: usize, start: usize) -> (r: usize)
    requires
        tlen == text@.len(),
        start <= tlen,
    ensures
        r as int == skip_spaces(text@, start as int),
        start <= r <= tlen,
{
    let mut j = start;
    while j < tlen && is_space_char(text.get_char(j))
        invariant
            tlen == text@.len(),
            start <= j <= tlen,
            skip_spaces(text@, start as int) == skip_spaces(text@, j as int),
        decreases tlen - j,
    {
        j = j + 1;
    }
    j
}

/// Decides whether a `{{ name }}` placeholder begins at index `i` of `text`,
/// and where it ends.
#[verifier::loop_isolation(false)]
fn placeholder_at(text: &str, tlen: usize, name: &str, nlen: usize, i: usize) -> (r: Option<
    usize,
>)
    requires
        tlen == text@.len(),
        nlen == name@.len(),
        i <= tlen,
    ensures
        match r {
            Some(e) => placeholder_end(text@, name@, i as int) == Some(e as int) && i < e <= tlen,
            None => placeholder_end(text@, name@, i as int) is None,
        },
{
    if tlen - i < 2 {
        return None;
    }
    if !(text.get_char(i) == '{' && text.get_char(i + 1) == '{') {
        return None;
    }
    let j = skip_spaces_exec(text, tlen, i + 2);
    if nlen > tlen - j {
        return None;
    }
    let mut m: usize = 0;
    while m < nlen
        invariant
            tlen == text@.len(),
            nlen == name@.len(),
            j + nlen <= tlen,
            m <= nlen,
            forall|x: int| 0 <= x < m ==> text@[j + x] == name@[x],
        decreases nlen - m,
    {
        if text.get_char(j + m) != name.get_char(m) {
            proof {
                let sub = text@.subrange(j as int, j as int + nlen as int);
                assert(sub[m as int] == text@[j as int + m as int]);
                assert(sub[m as int] != name@[m as int]);
                assert(sub != name@);
                assert(placeholder_end(text@, name@, i as int) is None);
            }
            return None;
        }
        m = m + 1;
    }
    proof {
        assert(text@.subrange(j as int, j + nlen) =~= name@);
    }
    let k = skip_spaces_exec(text, tlen, j + nlen);
    if tlen - k < 2 {
        return None;
    }
    if !(text.get_char(k) == '}' && text.get_char(k + 1) == '}') {
        return None;
    }
    Some(k + 2)
}

/// Replaces every `{{ name }}` placeholder — whitespace tolerated inside the
/// braces — in `text` by `replacement`. Text without such an occurrence,
/// placeholders of other names included, is kept verbatim.
pub fn replace(text: &str, placeholder: &str, replacement: &str) -> (r: String)
    ensures
        r@ == spec_replace(text@, placeholder@, replacement@),
{
    let ghost t = text@;
    let ghost n = placeholder@;
    let ghost v = replacement@;
    let tlen = text.unicode_len();
    let nlen = placeholder.unicode_len();
    let mut out = String::new();
    let mut i: usize = 0;
    proof {
        assert(Seq::<char>::empty() + replace_from(t, n, v, 0) =~= replace_from(t, n, v, 0));
    }
    while i < tlen
        invariant
            tlen == text@.len(),
            nlen == placeholder@.len(),
            i <= tlen,
            t == text@ && n == placeholder@ && v == replacement@,
            spec_replace(t, n, v) == out@ + replace_from(t, n, v, i as int),
        decreases tlen - i,
    {
        match placeholder_at(text, tlen, placeholder, nlen, i) {
            Some(e) => {
                proof {
                    assert(replace_from(t, n, v, i as int) == v + replace_from(t, n, v, e as int));
                    assert(out@ + (v + replace_from(t, n, v, e as int)) =~= (out@ + v)
                        + replace_from(t, n, v, e as int));
                }
                out.append(replacement);
                i = e;
            },
            None => {
                let c = text.get_char(i);
                proof {
                    assert(replace_from(t, n, v, i as int) == seq![t[i as int]] + replace_from(
                        t,
                        n,
                        v,
                        i as int + 1,
                    ));
                    assert(out@ + (seq![c] + replace_from(t, n, v, i as int + 1)) =~= out@.push(c)
                        + replace_from(t, n, v, i as int + 1));
                }
                push_char(&mut out, c);
                i = i + 1;
            },
        }
    }
    proof {
        assert(out@ + replace_from(t, n, v, i as int) =~= out@);
    }
    out
}

proof fn lemma_replace_from_absent(t: Seq<char>, name: Seq<char>, value: Seq<char>, i: int)
    requires
        0 <= i <= t.len(),
        forall|x: int| placeholder_end(t, name, x) is None,
    ensures
        replace_from(t, name, value, i) == t.subrange(i, t.len() as int),
    decreases t.len() - i,
{
    if i < t.len() {
        lemma_replace_from_absent(t, name, value, i + 1);
        assert(seq![t[i]] + t.subrange(i + 1, t.len() as int) =~= t.subrange(i, t.len() as int));
    } else {
        assert(t.subrange(i, t.len() as int) =~= Seq::<char>::empty());
    }
}

/// Law: a template in which no placeholder occurrence of `name` begins
/// anywhere is returned verbatim — an unresolved placeholder is left as
/// literal text, never an error.
pub proof fn lemma_replace_absent_verbatim(t: Seq<char>, name: Seq<char>, value: Seq<char>)
    requires
        forall|x: int| placeholder_end(t, name, x) is None,
    ensures
        spec_replace(t, name, value) == t,
{
    lemma_replace_from_absent(t, name, value, 0);
    assert(t.subrange(0, t.len() as int) =~= t);
}

proof fn lemma_skip_spaces_shift(a: Seq<char>, b: Seq<char>, k: int)
    requires
        0 <= k <= b.len(),
    ensures
        skip_spaces(a + b, a.len() + k) == a.len() + skip_spaces(b, k),
    decreases b.len() - k,
{
    if k < b.len() && is_space(b[k]) {
        assert((a + b)[a.len() + k] == b[k]);
        lemma_skip_spaces_shift(a, b, k + 1);
    } else {
        assert(k < b.len() ==> (a + b)[a.len() + k] == b[k]);
    }
}

proof fn lemma_placeholder_end_shift(a: Seq<char>, b: Seq<char>, name: Seq<char>, i: int)
    requires
        0 <= i <= b.len(),
    ensures
        placeholder_end(a + b, name, a.len() + i) == match placeholder_end(b, name, i) {
            Some(e) => Some(a.len() + e),
            None => None,
        },
{
    let t = a + b;
    let al = a.len() as int;
    if 0 <= i && i + 2 <= b.len() && b[i] == '{' && b[i + 1] == '{' {
        assert(t[al + i] == b[i] && t[al + i + 1] == b[i + 1]);
        lemma_skip_spaces_shift(a, b, i + 2);
        let j = skip_spaces(b, i + 2);
        lemma_skip_spaces_bounds(b, i + 2);
        if j + name.len() <= b.len() {
            assert(t.subrange(al + j, al + j + name.len() as int) =~= b.subrange(
                j,
                j + name.len() as int,
            ));
            if b.subrange(j, j + name.len() as int) == name {
                lemma_skip_spaces_shift(a, b, j + name.len() as int);
                let k = skip_spaces(b, j + name.len() as int);
                lemma_skip_spaces_bounds(b, j + name.len() as int);
                if k + 2 <= b.len() {
                    assert(t[al + k] == b[k] && t[al + k + 1] == b[k + 1]);
                }
            }
        }
    } else {
        if 0 <= i && i + 2 <= b.len() {
            assert(t[al + i] == b[i] && t[al + i + 1] == b[i + 1]);
        }
    }
}

proof fn lemma_skip_spaces_bounds(t: Seq<char>, i: int)
    requires
        0 <= i <= t.len(),
    ensures
        i <= skip_spaces(t, i) <= t.len(),
    decreases t.len() - i,
{
    if i < t.len() && is_space(t[i]) {
        lemma_skip_spaces_bounds(t, i + 1);
    }
}

proof fn lemma_replace_from_shift(a: Seq<char>, b: Seq<char>, name: Seq<char>, value: Seq<char>, i: int)
    requires
        0 <= i <= b.len(),
    ensures
        replace_from(a + b, name, value, a.len() + i) == replace_from(b, name, value, i),
    decreases b.len() - i,
{
    let t = a + b;
    let al = a.len() as int;
    if i < b.len() {
        lemma_placeholder_end_shift(a, b, name, i);
        match placeholder_end(b, name, i) {
            Some(e) => {
                if i < e <= b.len() {
                    lemma_replace_from_shift(a, b, name, value, e);
                } else {
                    assert(t[al + i] == b[i]);
                    lemma_replace_from_shift(a, b, name, value, i + 1);
                }
            },
            None => {
                assert(t[al + i] == b[i]);
                lemma_replace_from_shift(a, b, name, value, i + 1);
            },
        }
    }
}

/// Law: substitution distributes over a leading placeholder. A template that
/// begins with the placeholder of `name` — whitespace padding allowed inside
/// the braces — resolves to `value` followed by the substitution of the
/// remainder; with this, every further occurrence in the remainder is
/// replaced in turn, so a placeholder standing twice is replaced twice.
pub proof fn lemma_replace_at_placeholder(
    pad1: Seq<char>,
    pad2: Seq<char>,
    name: Seq<char>,
    value: Seq<char>,
    rest: Seq<char>,
)
    requires
        forall|x: int| 0 <= x < pad1.len() ==> is_space(pad1[x]),
        forall|x: int| 0 <= x < pad2.len() ==> is_space(pad2[x]),
        name.len() > 0,
        !is_space(name[0]),
    ensures
        spec_replace(
            (seq!['{', '{'] + pad1 + name + pad2 + seq!['}', '}']) + rest,
            name,
            value,
        ) == value + spec_replace(rest, name, value),
{
    let ph = seq!['{', '{'] + pad1 + name + pad2 + seq!['}', '}'];
    let t = ph + rest;
    let j = 2 + pad1.len() as int;
    let jn = j + name.len() as int;
    let e = jn + pad2.len() as int + 2;
    assert(ph.len() == e);
    assert(t[0] == '{' && t[1] == '{');
    lemma_skip_spaces_run(t, 2, j);
    assert(t.subrange(j, jn) =~= name);
    lemma_skip_spaces_run(t, jn, jn + pad2.len() as int);
    assert(t[jn + pad2.len() as int] == '}' && t[jn + pad2.len() as int + 1] == '}');
    assert(placeholder_end(t, name, 0) == Some(e));
    lemma_replace_from_shift(ph, rest, name, value, 0);
    if rest.len() == 0 {
        assert(replace_from(t, name, value, e) == Seq::<char>::empty());
        assert(value + Seq::<char>::empty() =~= value);
    } else {
        assert(replace_from(t, name, value, 0) == value + replace_from(t, name, value, e));
    }
}

/// Law: substitution keeps a leading character that opens no placeholder. A
/// template beginning with anything but an opening brace resolves to that
/// character followed by the substitution of the remainder.
pub proof fn lemma_replace_at_other_char(c: char, rest: Seq<char>, name: Seq<char>, value: Seq<char>)
    requires
        c != '{',
    ensures
        spec_replace(seq![c] + rest, name, value) == seq![c] + spec_replace(rest, name, value),
{
    let t = seq![c] + rest;
    assert(t[0] == c);
    assert(placeholder_end(t, name, 0) is None);
    lemma_replace_from_shift(seq![c], rest, name, value, 0);
    if rest.len() == 0 {
        assert(replace_from(t, name, value, 1) == Seq::<char>::empty());
        assert(t.len() == 1);
        assert(seq![t[0]] + Seq::<char>::empty() =~= seq![c] + spec_replace(rest, name, value));
    } else {
        assert(replace_from(t, name, value, 0) == seq![t[0]] + replace_from(t, name, value, 1));
    }
}

proof fn lemma_skip_spaces_run(t: Seq<char>, i: int, k: int)
    requires
        0 <= i <= k <= t.len(),
        forall|x: int| i <= x < k ==> is_space(t[x]),
        k < t.len() ==> !is_space(t[k]),
    ensures
        skip_spaces(t, i) == k,
    decreases k - i,
{
    if i < k {
        lemma_skip_spaces_run(t, i + 1, k);
    }
}

/// Law: whitespace inside the braces does not change substitution — a
/// template that is exactly the placeholder of `name`, padded inside with any
/// run of spaces on either side, resolves to `value` alone, exactly as the
/// unpadded `{{name}}` does.
pub proof fn lemma_placeholder_whitespace_tolerant(
    pad1: Seq<char>,
    pad2: Seq<char>,
    name: Seq<char>,
    value: Seq<char>,
)
    requires
        forall|x: int| 0 <= x < pad1.len() ==> is_space(pad1[x]),
        forall|x: int| 0 <= x < pad2.len() ==> is_space(pad2[x]),
        name.len() > 0,
        !is_space(name[0]),
    ensures
        spec_replace(seq!['{', '{'] + pad1 + name + pad2 + seq!['}', '}'], name, value) == value,
{
    let t = seq!['{', '{'] + pad1 + name + pad2 + seq!['}', '}'];
    let j = 2 + pad1.len() as int;
    let jn = j + name.len() as int;
    let e = jn + pad2.len() as int + 2;
    assert(t.len() == e);
    assert(t[0] == '{' && t[1] == '{');
    lemma_skip_spaces_run(t, 2, j);
    assert(t.subrange(j, jn) =~= name);
    lemma_skip_spaces_run(t, jn, jn + pad2.len() as int);
    assert(t[jn + pad2.len() as int] == '}' && t[jn + pad2.len() as int + 1] == '}');
    assert(placeholder_end(t, name, 0) == Some(e));
    assert(replace_from(t, name, value, e) == Seq::<char>::empty());
    assert(value + Seq::<char>::empty() =~= value);
}

} // verus!
