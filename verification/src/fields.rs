//! Texts made of fields that one separator character keeps apart.

use vstd::prelude::*;
use vstd::string::*;

verus! {

/// Whether `sep` occurs nowhere in `s`.
pub open spec fn free_of(s: Seq<char>, sep: char) -> bool {
    forall|i: int| 0 <= i < s.len() ==> #[trigger] s[i] != sep
}

/// The index of the first `sep` in `s`, or the length of `s` where there is none.
pub open spec fn first_index(s: Seq<char>, sep: char) -> int
    decreases s.len(),
{
    if s.len() == 0 || s[0] == sep {
        0
    } else {
        1 + first_index(s.skip(1), sep)
    }
}

/// The fields of `s`: the stretches between one `sep` and the next. A text
/// without `sep` is one field; the empty text is one empty field.
pub open spec fn split(s: Seq<char>, sep: char) -> Seq<Seq<char>>
    decreases s.len(),
{
    let k = first_index(s, sep);
    if 0 <= k < s.len() {
        seq![s.take(k)] + split(s.skip(k + 1), sep)
    } else {
        seq![s]
    }
}

/// The fields written one after the other with `sep` between neighbours.
pub open spec fn join(fields: Seq<Seq<char>>, sep: char) -> Seq<char>
    decreases fields.len(),
{
    if fields.len() == 0 {
        Seq::empty()
    } else if fields.len() == 1 {
        fields[0]
    } else {
        fields[0] + seq![sep] + join(fields.skip(1), sep)
    }
}

/// The texts that a list of string slices holds.
pub open spec fn texts(parts: Seq<&str>) -> Seq<Seq<char>> {
    Seq::new(parts.len(), |i: int| parts[i]@)
}

/// `first_index` finds the first separator: nothing before it is one.
pub proof fn lemma_first_index(s: Seq<char>, sep: char)
    ensures
        0 <= first_index(s, sep) <= s.len(),
        free_of(s.take(first_index(s, sep)), sep),
        first_index(s, sep) < s.len() ==> s[first_index(s, sep)] == sep,
    decreases s.len(),
{
    if s.len() == 0 || s[0] == sep {
    } else {
        let r = s.skip(1);
        lemma_first_index(r, sep);
        let k = first_index(r, sep);
        let p = s.take(k + 1);
        assert forall|i: int| 0 <= i < p.len() implies #[trigger] p[i] != sep by {
            if i > 0 {
                assert(p[i] == r.take(k)[i - 1]);
            }
        }
    }
}

/// Where the first `k` characters hold no separator and a separator or the
/// end follows, `first_index` is `k`.
pub proof fn lemma_first_index_is(s: Seq<char>, sep: char, k: int)
    requires
        0 <= k <= s.len(),
        free_of(s.take(k), sep),
        k < s.len() ==> s[k] == sep,
    ensures
        first_index(s, sep) == k,
    decreases k,
{
    if k == 0 {
    } else {
        assert(s.take(k)[0] != sep);
        let r = s.skip(1);
        assert forall|i: int| 0 <= i < k - 1 implies #[trigger] r.take(k - 1)[i] != sep by {
            assert(r.take(k - 1)[i] == s.take(k)[i + 1]);
        }
        lemma_first_index_is(r, sep, k - 1);
    }
}

/// Splitting always gives at least one field, and none of them holds the separator.
pub proof fn lemma_split_fields(s: Seq<char>, sep: char)
    ensures
        split(s, sep).len() >= 1,
        forall|i: int| 0 <= i < split(s, sep).len() ==> free_of(#[trigger] split(s, sep)[i], sep),
    decreases s.len(),
{
    lemma_first_index(s, sep);
    let k = first_index(s, sep);
    if 0 <= k < s.len() {
        lemma_split_fields(s.skip(k + 1), sep);
        let rest = split(s.skip(k + 1), sep);
        assert forall|i: int| 0 <= i < split(s, sep).len() implies free_of(
            #[trigger] split(s, sep)[i],
            sep,
        ) by {
            if i > 0 {
                assert(split(s, sep)[i] == rest[i - 1]);
            }
        }
    } else {
        assert(s.take(k) =~= s);
    }
}

/// Joining the fields of a text gives the text back.
pub proof fn lemma_join_split(s: Seq<char>, sep: char)
    ensures
        join(split(s, sep), sep) == s,
    decreases s.len(),
{
    lemma_first_index(s, sep);
    let k = first_index(s, sep);
    if 0 <= k < s.len() {
        let tail = s.skip(k + 1);
        lemma_join_split(tail, sep);
        lemma_split_fields(tail, sep);
        let fields = split(s, sep);
        assert(fields.skip(1) =~= split(tail, sep));
        assert(fields[0] == s.take(k));
        assert(s.take(k) + seq![sep] + tail =~= s);
    }
}

/// Splitting what `join` wrote gives the fields back, where no field holds the separator.
pub proof fn lemma_split_join(fields: Seq<Seq<char>>, sep: char)
    requires
        fields.len() >= 1,
        forall|i: int| 0 <= i < fields.len() ==> free_of(#[trigger] fields[i], sep),
    ensures
        split(join(fields, sep), sep) == fields,
    decreases fields.len(),
{
    let s = join(fields, sep);
    let head = fields[0];
    assert(free_of(head, sep));
    if fields.len() == 1 {
        assert(s.take(s.len() as int) =~= s);
        lemma_first_index_is(s, sep, s.len() as int);
        assert(split(s, sep) =~= fields);
    } else {
        let rest = fields.skip(1);
        assert forall|i: int| 0 <= i < rest.len() implies free_of(#[trigger] rest[i], sep) by {
            assert(rest[i] == fields[i + 1]);
        }
        lemma_split_join(rest, sep);
        let k = head.len() as int;
        assert(s.take(k) =~= head);
        assert(s[k] == sep);
        lemma_first_index_is(s, sep, k);
        assert(s.skip(k + 1) =~= join(rest, sep));
        assert(split(s, sep) =~= fields);
    }
}

/// Cuts an ASCII text into its fields.
pub fn split_text<'a>(text: &'a str, sep: u8) -> (parts: Vec<&'a str>)
    requires
        is_ascii(text),
        sep < 128,
    ensures
        texts(parts@) == split(text@, sep as char),
        forall|i: int| 0 <= i < parts.len() ==> is_ascii(#[trigger] parts[i]),
{
    broadcast use is_ascii_spec_bytes;

    let n = text.unicode_len();
    let mut parts: Vec<&'a str> = Vec::new();
    let mut start: usize = 0;
    let mut i: usize = 0;
    proof {
        assert(text@.skip(0) =~= text@);
        assert(texts(parts@) + split(text@, sep as char) =~= split(text@, sep as char));
    }
    while i < n
        invariant
            is_ascii(text),
            sep < 128,
            n == text@.len(),
            start <= i <= n,
            free_of(text@.subrange(start as int, i as int), sep as char),
            split(text@, sep as char) == texts(parts@) + split(text@.skip(start as int), sep as char),
            forall|k: int| 0 <= k < parts.len() ==> is_ascii(#[trigger] parts[k]),
        decreases n - i,
    {
        let ghost rest = text@.skip(start as int);
        if text.get_ascii(i) == sep {
            let field = text.substring_ascii(start, i);
            proof {
                assert(text@[i as int] == sep as char);
                assert(rest.take(i - start) =~= text@.subrange(start as int, i as int));
                assert(rest[i - start] == text@[i as int]);
                lemma_first_index_is(rest, sep as char, i - start);
                assert(rest.skip(i - start + 1) =~= text@.skip(i + 1));
                assert(texts(parts@.push(field)) =~= texts(parts@) + seq![field@]);
                assert(text@.subrange(i + 1, i + 1) =~= Seq::<char>::empty());
            }
            parts.push(field);
            start = i + 1;
        } else {
            proof {
                assert(text@[i as int] != sep as char);
                let wider = text@.subrange(start as int, i + 1);
                assert forall|k: int| 0 <= k < wider.len() implies #[trigger] wider[k] != sep as char by {
                    if k < i - start {
                        assert(wider[k] == text@.subrange(start as int, i as int)[k]);
                    }
                }
            }
        }
        i += 1;
    }
    let field = text.substring_ascii(start, n);
    proof {
        let rest = text@.skip(start as int);
        assert(rest.take(rest.len() as int) =~= text@.subrange(start as int, n as int));
        lemma_first_index_is(rest, sep as char, rest.len() as int);
        assert(field@ =~= rest);
        assert(texts(parts@.push(field)) =~= texts(parts@) + seq![field@]);
    }
    parts.push(field);
    parts
}

/// Joining one more field appends the separator and the field.
pub proof fn lemma_join_push(fields: Seq<Seq<char>>, last: Seq<char>, sep: char)
    requires
        fields.len() >= 1,
    ensures
        join(fields.push(last), sep) == join(fields, sep) + seq![sep] + last,
    decreases fields.len(),
{
    let all = fields.push(last);
    if fields.len() == 1 {
        assert(all.skip(1) =~= seq![last]);
        assert(join(all.skip(1), sep) == last);
    } else {
        assert(all.skip(1) =~= fields.skip(1).push(last));
        lemma_join_push(fields.skip(1), last, sep);
        assert(join(all, sep) =~= join(fields, sep) + seq![sep] + last);
    }
}

/// Two fields joined are the first, the separator and the second.
pub proof fn lemma_join_two(a: Seq<char>, b: Seq<char>, sep: char)
    ensures
        join(seq![a, b], sep) == a + seq![sep] + b,
{
    assert(seq![a, b] =~= seq![a].push(b));
    lemma_join_push(seq![a], b, sep);
}

/// Three fields joined are the fields with the separator between them.
pub proof fn lemma_join_three(a: Seq<char>, b: Seq<char>, c: Seq<char>, sep: char)
    ensures
        join(seq![a, b, c], sep) == a + seq![sep] + b + seq![sep] + c,
{
    lemma_join_two(a, b, sep);
    assert(seq![a, b, c] =~= seq![a, b].push(c));
    lemma_join_push(seq![a, b], c, sep);
}

/// A joined text begins as its first field does.
pub proof fn lemma_join_first(fields: Seq<Seq<char>>, sep: char)
    requires
        fields.len() >= 1,
        fields[0].len() >= 1,
    ensures
        join(fields, sep).len() >= 1,
        join(fields, sep)[0] == fields[0][0],
{
}

/// Writes the texts one after the other with `sep` between neighbours.
pub fn join_texts(parts: &Vec<String>, sep: &str) -> (text: String)
    requires
        sep@.len() == 1,
    ensures
        text@ == join(Seq::new(parts@.len(), |i: int| parts@[i]@), sep@[0]),
{
    let ghost fields = Seq::new(parts@.len(), |i: int| parts@[i]@);
    let mut text = String::new();
    if parts.len() == 0 {
        assert(text@ =~= join(fields, sep@[0]));
        return text;
    }
    text.append(parts[0].as_str());
    let mut i: usize = 1;
    proof {
        assert(fields.take(1) =~= seq![fields[0]]);
        assert(text@ =~= join(fields.take(1), sep@[0]));
    }
    while i < parts.len()
        invariant
            sep@.len() == 1,
            1 <= i <= parts.len(),
            fields == Seq::new(parts@.len(), |k: int| parts@[k]@),
            text@ == join(fields.take(i as int), sep@[0]),
        decreases parts.len() - i,
    {
        text.append(sep);
        text.append(parts[i].as_str());
        proof {
            assert(fields.take(i + 1) =~= fields.take(i as int).push(fields[i as int]));
            lemma_join_push(fields.take(i as int), fields[i as int], sep@[0]);
            assert(sep@ =~= seq![sep@[0]]);
        }
        i += 1;
    }
    assert(fields.take(parts.len() as int) =~= fields);
    text
}

/// A text joined from ASCII fields with an ASCII separator is ASCII.
pub proof fn lemma_join_ascii(fields: Seq<Seq<char>>, sep: char)
    requires
        forall|i: int| 0 <= i < fields.len() ==> vstd::utf8::is_ascii_chars(#[trigger] fields[i]),
        sep as int <= 127,
    ensures
        vstd::utf8::is_ascii_chars(join(fields, sep)),
    decreases fields.len(),
{
    if fields.len() == 0 {
    } else if fields.len() == 1 {
    } else {
        let rest = fields.skip(1);
        assert forall|i: int| 0 <= i < rest.len() implies vstd::utf8::is_ascii_chars(
            #[trigger] rest[i],
        ) by {
            assert(rest[i] == fields[i + 1]);
        }
        lemma_join_ascii(rest, sep);
        let text = join(fields, sep);
        let head = fields[0];
        let tail = join(rest, sep);
        assert forall|i: int| 0 <= i < text.len() implies '\0' <= #[trigger] text[i] <= '\u{7f}' by {
            if i < head.len() {
                assert(text[i] == head[i]);
            } else if i == head.len() {
                assert(text[i] == sep);
            } else {
                assert(text[i] == tail[i - head.len() - 1]);
            }
        }
    }
}

/// Four fields joined are the fields with the separator between them.
pub proof fn lemma_join_four(a: Seq<char>, b: Seq<char>, c: Seq<char>, d: Seq<char>, sep: char)
    ensures
        join(seq![a, b, c, d], sep) == a + seq![sep] + b + seq![sep] + c + seq![sep] + d,
{
    lemma_join_three(a, b, c, sep);
    assert(seq![a, b, c, d] =~= seq![a, b, c].push(d));
    lemma_join_push(seq![a, b, c], d, sep);
}

} // verus!
