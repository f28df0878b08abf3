//! The container-parameter wire format: ASCII text made of comma-separated
//! `KEY=VALUE` pairs, no escaping. Unknown keys are ignored and the last
//! occurrence of a duplicate key wins. This module gives the format its
//! mathematical model (`split_on`, `key_value`, `lookup`) and the executable
//! scanner proved against it.

use vstd::prelude::*;

verus! {

/// The pair separator `,`.
pub const COMMA: u8 = 44;

/// The key/value separator `=`.
pub const EQUALS: u8 = 61;

/// The parts of `s` between occurrences of `sep`: splitting the empty text
/// gives one empty part, and every separator ends the part before it.
pub open spec fn split_on(s: Seq<u8>, sep: u8) -> Seq<Seq<u8>>
    decreases s.len(),
{
    if s.len() == 0 {
        seq![Seq::<u8>::empty()]
    } else if s[0] == sep {
        seq![Seq::<u8>::empty()] + split_on(s.drop_first(), sep)
    } else {
        let rest = split_on(s.drop_first(), sep);
        seq![seq![s[0]] + rest[0]] + rest.drop_first()
    }
}

/// The key and value of one part: the text before the first `=` and the
/// text after it. A part without `=` has neither.
pub open spec fn key_value(part: Seq<u8>) -> Option<(Seq<u8>, Seq<u8>)>
    decreases part.len(),
{
    if part.len() == 0 {
        None
    } else if part[0] == EQUALS {
        Some((Seq::<u8>::empty(), part.drop_first()))
    } else {
        match key_value(part.drop_first()) {
            Some(kv) => Some((seq![part[0]] + kv.0, kv.1)),
            None => None,
        }
    }
}

/// The value bound to `key` by the parts, with the last occurrence of a
/// duplicate key winning; parts without `=` and other keys are ignored.
pub open spec fn lookup(parts: Seq<Seq<u8>>, key: Seq<u8>) -> Option<Seq<u8>>
    decreases parts.len(),
{
    if parts.len() == 0 {
        None
    } else {
        match key_value(parts.last()) {
            Some(kv) => if kv.0 == key {
                Some(kv.1)
            } else {
                lookup(parts.drop_last(), key)
            },
            None => lookup(parts.drop_last(), key),
        }
    }
}

/// The value bound to `key` in the whole wire text.
pub open spec fn wire_lookup(s: Seq<u8>, key: Seq<u8>) -> Option<Seq<u8>> {
    lookup(split_on(s, COMMA), key)
}

/// Splitting separator-free text yields that text as the only part.
pub proof fn lemma_split_no_sep(s: Seq<u8>, sep: u8)
    requires
        forall|i: int| 0 <= i < s.len() ==> s[i] != sep,
    ensures
        split_on(s, sep) == seq![s],
    decreases s.len(),
{
    if s.len() == 0 {
        assert(split_on(s, sep) =~~= seq![s]);
    } else {
        lemma_split_no_sep(s.drop_first(), sep);
        let rest = split_on(s.drop_first(), sep);
        assert(rest == seq![s.drop_first()]);
        assert(seq![s[0]] + s.drop_first() =~= s);
        assert(split_on(s, sep) =~~= seq![s]);
    }
}

/// Splitting text that begins with a separator-free part followed by a
/// separator peels that part off the front.
pub proof fn lemma_split_sep_head(a: Seq<u8>, sep: u8, b: Seq<u8>)
    requires
        forall|i: int| 0 <= i < a.len() ==> a[i] != sep,
    ensures
        split_on(a + seq![sep] + b, sep) == seq![a] + split_on(b, sep),
    decreases a.len(),
{
    let s = a + seq![sep] + b;
    if a.len() == 0 {
        assert(s[0] == sep);
        assert(s.drop_first() =~= b);
        assert(split_on(s, sep) =~~= seq![a] + split_on(b, sep));
    } else {
        assert(s[0] == a[0]);
        assert(s.drop_first() =~= a.drop_first() + seq![sep] + b);
        lemma_split_sep_head(a.drop_first(), sep, b);
        let rest = split_on(s.drop_first(), sep);
        assert(rest == seq![a.drop_first()] + split_on(b, sep));
        assert(rest[0] == a.drop_first());
        assert(seq![s[0]] + rest[0] =~= a);
        assert(rest.drop_first() =~~= split_on(b, sep));
        assert(split_on(s, sep) =~~= seq![a] + split_on(b, sep));
    }
}

/// A part whose first `=` stands at index `j` has the text before `j` as
/// its key and the text after `j` as its value.
pub proof fn lemma_key_value_at(part: Seq<u8>, j: int)
    requires
        0 <= j < part.len(),
        part[j] == EQUALS,
        forall|i: int| 0 <= i < j ==> part[i] != EQUALS,
    ensures
        key_value(part) == Some((part.take(j), part.skip(j + 1))),
    decreases j,
{
    if j == 0 {
        assert(part.take(0) =~= Seq::<u8>::empty());
        assert(part.drop_first() =~= part.skip(1));
    } else {
        let rest = part.drop_first();
        assert(rest[j - 1] == part[j]);
        lemma_key_value_at(rest, j - 1);
        assert(seq![part[0]] + rest.take(j - 1) =~= part.take(j));
        assert(rest.skip(j) =~= part.skip(j + 1));
    }
}

/// A part without `=` binds no key.
pub proof fn lemma_key_value_none(part: Seq<u8>)
    requires
        forall|i: int| 0 <= i < part.len() ==> part[i] != EQUALS,
    ensures
        key_value(part) is None,
    decreases part.len(),
{
    if part.len() > 0 {
        lemma_key_value_none(part.drop_first());
    }
}

/// Appending one part updates the lookup exactly when the part binds the
/// key, and leaves it unchanged otherwise.
pub proof fn lemma_lookup_push(parts: Seq<Seq<u8>>, p: Seq<u8>, key: Seq<u8>)
    ensures
        lookup(parts.push(p), key) == match key_value(p) {
            Some(kv) => if kv.0 == key {
                Some(kv.1)
            } else {
                lookup(parts, key)
            },
            None => lookup(parts, key),
        },
{
    assert(parts.push(p).drop_last() =~~= parts);
    assert(parts.push(p).last() == p);
}

/// The first occurrence of `b` in `s` at or after `from`.
pub fn find_byte(s: &Vec<u8>, from: usize, b: u8) -> (r: Option<usize>)
    requires
        from <= s@.len(),
    ensures
        r matches Some(i) ==> from <= i < s@.len() && s@[i as int] == b && forall|j: int|
            from <= j < i ==> s@[j] != b,
        r is None ==> forall|j: int| from <= j < s@.len() ==> s@[j] != b,
{
    let n = s.len();
    let mut i: usize = from;
    while i < n
        invariant
            from <= i <= n,
            n == s@.len(),
            forall|j: int| from <= j < i ==> s@[j] != b,
        decreases n - i,
    {
        if s[i] == b {
            return Some(i);
        }
        i += 1;
    }
    None
}

/// A copy of `s[from..to]`.
pub fn copy_range(s: &Vec<u8>, from: usize, to: usize) -> (r: Vec<u8>)
    requires
        from <= to <= s@.len(),
    ensures
        r@ == s@.subrange(from as int, to as int),
{
    let mut r: Vec<u8> = Vec::new();
    let mut i: usize = from;
    while i < to
        invariant
            from <= i <= to <= s@.len(),
            r@ == s@.subrange(from as int, i as int),
        decreases to - i,
    {
        r.push(s[i]);
        assert(r@ =~= s@.subrange(from as int, i + 1));
        i += 1;
    }
    r
}

/// Appends all of `s` to `r`.
pub fn append_bytes(r: &mut Vec<u8>, s: &Vec<u8>)
    ensures
        final(r)@ == old(r)@ + s@,
{
    let n = s.len();
    let mut i: usize = 0;
    while i < n
        invariant
            i <= n,
            n == s@.len(),
            r@ == old(r)@ + s@.take(i as int),
        decreases n - i,
    {
        r.push(s[i]);
        assert(r@ =~= old(r)@ + s@.take(i + 1));
        i += 1;
    }
    assert(r@ =~= old(r)@ + s@);
}

/// Byte-for-byte equality of two byte vectors.
pub fn bytes_eq(a: &Vec<u8>, b: &Vec<u8>) -> (r: bool)
    ensures
        r == (a@ == b@),
{
    if a.len() != b.len() {
        assert(a@ != b@);
        return false;
    }
    let n = a.len();
    let mut i: usize = 0;
    while i < n
        invariant
            i <= n,
            n == a@.len() && n == b@.len(),
            forall|j: int| 0 <= j < i ==> a@[j] == b@[j],
        decreases n - i,
    {
        if a[i] != b[i] {
            return false;
        }
        i += 1;
    }
    assert(a@ =~= b@);
    true
}

/// Scans the wire text for `key` and returns the value of its last
/// occurrence, exactly as `wire_lookup` states.
pub fn lookup_value(s: &Vec<u8>, key: &Vec<u8>) -> (r: Option<Vec<u8>>)
    ensures
        r matches Some(v) ==> wire_lookup(s@, key@) == Some(v@),
        r is None ==> wire_lookup(s@, key@) is None,
{
    let ghost parts = split_on(s@, COMMA);
    let mut result: Option<Vec<u8>> = None;
    let mut start: usize = 0;
    let mut done = false;
    let ghost mut k: int = 0;
    proof {
        assert(s@.skip(0) =~= s@);
        assert(parts.take(0) =~~= Seq::<Seq<u8>>::empty());
    }
    while !done
        invariant
            start <= s@.len(),
            parts == split_on(s@, COMMA),
            0 <= k <= parts.len(),
            !done ==> k < parts.len() && split_on(s@.skip(start as int), COMMA) == parts.skip(
                k,
            ),
            done ==> k == parts.len(),
            match result {
                Some(v) => lookup(parts.take(k), key@) == Some(v@),
                None => lookup(parts.take(k), key@) is None,
            },
        decreases s@.len() - start + (if done { 0int } else { 1int }),
    {
        let slen = s.len();
        let end: usize;
        match find_byte(s, start, COMMA) {
            Some(i) => {
                end = i;
            },
            None => {
                end = slen;
                done = true;
            },
        }
        let ghost part_seq = s@.subrange(start as int, end as int);
        proof {
            if done {
                // The remaining text holds no separator: it is the last part.
                lemma_split_no_sep(s@.skip(start as int), COMMA);
                assert(s@.skip(start as int) =~= part_seq);
                assert(parts.skip(k) =~= seq![part_seq]);
                assert(parts.skip(k)[0] == part_seq);
                assert(parts.skip(k)[0] == parts[k]);
                assert(parts[k] == part_seq);
            } else {
                // The separator at `end` closes one separator-free part.
                assert(s@.skip(start as int) =~= part_seq + seq![COMMA] + s@.skip(
                    end + 1,
                ));
                lemma_split_sep_head(part_seq, COMMA, s@.skip(end + 1));
                assert(parts.skip(k) == seq![part_seq] + split_on(s@.skip(end + 1), COMMA));
                assert(parts.skip(k)[0] == part_seq);
                assert(parts.skip(k)[0] == parts[k]);
                assert(parts[k] == part_seq);
                assert(parts.skip(k).drop_first() =~~= parts.skip(k + 1));
                assert(split_on(s@.skip(end + 1), COMMA) == parts.skip(k + 1));
            }
        }
        let part = copy_range(s, start, end);
        match find_byte(&part, 0, EQUALS) {
            Some(j) => {
                proof {
                    lemma_key_value_at(part@, j as int);
                }
                let part_key = copy_range(&part, 0, j);
                if bytes_eq(&part_key, key) {
                    let value = copy_range(&part, j + 1, part.len());
                    proof {
                        assert(part@.skip(j + 1) =~= part@.subrange(
                            j + 1,
                            part@.len() as int,
                        ));
                    }
                    result = Some(value);
                }
            },
            None => {
                proof {
                    lemma_key_value_none(part@);
                }
            },
        }
        proof {
            lemma_lookup_push(parts.take(k), part_seq, key@);
            assert(parts.take(k).push(part_seq) =~~= parts.take(k + 1));
            k = k + 1;
        }
        if !done {
            start = end + 1;
        }
    }
    proof {
        assert(parts.take(k) =~~= parts);
    }
    result
}

} // verus!
