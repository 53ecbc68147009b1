use vstd::prelude::*;

verus! {

/// Whether `text` begins with `prefix`.
pub open spec fn has_prefix(text: Seq<char>, prefix: Seq<char>) -> bool {
    prefix.len() <= text.len() && text.take(prefix.len() as int) == prefix
}

/// The parts joined into one text, with `sep` between each two neighbours.
pub open spec fn join_spec(parts: Seq<Seq<char>>, sep: Seq<char>) -> Seq<char>
    decreases parts.len(),
{
    if parts.len() == 0 {
        Seq::empty()
    } else if parts.len() == 1 {
        parts[0]
    } else {
        join_spec(parts.drop_last(), sep) + sep + parts.last()
    }
}

/// Whether two texts hold the same characters.
pub fn text_eq(a: &str, b: &str) -> (r: bool)
    ensures
        r == (a@ == b@),
{
    a.to_owned() == b.to_owned()
}

/// The rest of `text` after `prefix`, where `text` begins with `prefix`.
pub fn strip_text_prefix<'a>(text: &'a str, prefix: &str) -> (r: Option<&'a str>)
    ensures
        has_prefix(text@, prefix@) ==> (r matches Some(rest) && rest@ == text@.skip(prefix@.len() as int)),
        !has_prefix(text@, prefix@) ==> r is None,
{
    let n = text.unicode_len();
    let m = prefix.unicode_len();
    if m > n {
        return None;
    }
    let mut i: usize = 0;
    while i < m
        invariant
            n == text@.len(),
            m == prefix@.len(),
            m <= n,
            i <= m,
            forall|j: int| 0 <= j < i ==> text@[j] == prefix@[j],
        decreases m - i,
    {
        if text.get_char(i) != prefix.get_char(i) {
            assert(text@.take(m as int)[i as int] != prefix@[i as int]);
            return None;
        }
        i = i + 1;
    }
    assert(text@.take(m as int) =~= prefix@);
    Some(text.substring_char(m, n))
}

/// The views of a list of texts.
pub open spec fn texts_view(parts: Seq<String>) -> Seq<Seq<char>> {
    parts.map_values(|s: String| s@)
}

/// Joins the texts into one, with `sep` between each two neighbours.
pub fn join_texts(parts: &Vec<String>, sep: &str) -> (joined: String)
    ensures
        joined@ == join_spec(texts_view(parts@), sep@),
{
    let ghost all = texts_view(parts@);
    let mut joined = String::new();
    let n = parts.len();
    for i in 0..n
        invariant
            n == parts@.len(),
            all == texts_view(parts@),
            joined@ == join_spec(all.take(i as int), sep@),
    {
        assert(all.take(i + 1).drop_last() =~= all.take(i as int));
        assert(all.take(i + 1).last() == parts@[i as int]@);
        if i > 0 {
            joined.append(sep);
        } else {
            assert(all.take(i as int) =~= Seq::<Seq<char>>::empty());
        }
        joined.append(parts[i].as_str());
    }
    assert(all.take(n as int) =~= all);
    joined
}

/// The pieces of `text` between the occurrences of `sep`, in order; a text
/// without `sep` is one piece, the empty text one empty piece.
pub open spec fn split_spec(text: Seq<char>, sep: char) -> Seq<Seq<char>>
    decreases text.len(),
{
    if text.len() == 0 {
        seq![Seq::empty()]
    } else {
        let pieces = split_spec(text.drop_last(), sep);
        if text.last() == sep {
            pieces.push(Seq::empty())
        } else {
            pieces.update(pieces.len() - 1, pieces.last().push(text.last()))
        }
    }
}

/// Splitting always gives at least one piece.
pub proof fn lemma_split_nonempty(text: Seq<char>, sep: char)
    ensures
        split_spec(text, sep).len() >= 1,
    decreases text.len(),
{
    if text.len() > 0 {
        lemma_split_nonempty(text.drop_last(), sep);
    }
}

/// Text without `sep` appended to `text` extends the last piece.
proof fn lemma_split_extend(text: Seq<char>, tail: Seq<char>, sep: char)
    requires
        !tail.contains(sep),
    ensures
        split_spec(text + tail, sep) == split_spec(text, sep).update(
            split_spec(text, sep).len() - 1,
            split_spec(text, sep).last() + tail,
        ),
    decreases tail.len(),
{
    lemma_split_nonempty(text, sep);
    let pieces = split_spec(text, sep);
    if tail.len() == 0 {
        assert(text + tail =~= text);
        assert(pieces.last() + tail =~= pieces.last());
        assert(pieces.update(pieces.len() - 1, pieces.last()) =~= pieces);
    } else {
        let init = tail.drop_last();
        assert(!init.contains(sep)) by {
            if init.contains(sep) {
                let i = choose|i: int| 0 <= i < init.len() && init[i] == sep;
                assert(tail[i] == sep);
            }
        }
        lemma_split_extend(text, init, sep);
        assert((text + tail).drop_last() =~= text + init);
        assert((text + tail).last() == tail.last());
        assert(tail.last() != sep) by {
            assert(tail[tail.len() - 1] == tail.last());
        }
        assert(pieces.last() + init + seq![tail.last()] =~= pieces.last() + tail) by {
            assert(init.push(tail.last()) =~= tail);
        }
        let mid = pieces.update(pieces.len() - 1, pieces.last() + init);
        assert(mid.last() == pieces.last() + init);
        assert((pieces.last() + init).push(tail.last()) =~= pieces.last() + tail);
        assert(mid.update(mid.len() - 1, mid.last().push(tail.last())) =~= pieces.update(
            pieces.len() - 1,
            pieces.last() + tail,
        ));
    }
}

/// Splitting a join of pieces without the separator at the separator gives
/// the pieces back.
pub proof fn lemma_split_join(parts: Seq<Seq<char>>, sep: char)
    requires
        parts.len() > 0,
        forall|i: int| 0 <= i < parts.len() ==> !(#[trigger] parts[i]).contains(sep),
    ensures
        split_spec(join_spec(parts, seq![sep]), sep) == parts,
    decreases parts.len(),
{
    let empty = Seq::<char>::empty();
    if parts.len() == 1 {
        lemma_split_extend(empty, parts[0], sep);
        assert(empty + parts[0] =~= parts[0]);
        assert(empty + parts[0] =~= parts[0]);
        assert(seq![empty].update(0, empty + parts[0]) =~= parts);
    } else {
        let init = parts.drop_last();
        assert forall|i: int| 0 <= i < init.len() implies !(#[trigger] init[i]).contains(sep) by {
            assert(init[i] == parts[i]);
        }
        lemma_split_join(init, sep);
        let head = join_spec(init, seq![sep]);
        let with_sep = head + seq![sep];
        assert(with_sep.drop_last() =~= head);
        assert(with_sep.last() == sep);
        assert(split_spec(with_sep, sep) == init.push(empty));
        assert(!parts.last().contains(sep)) by {
            assert(parts[parts.len() - 1] == parts.last());
        }
        lemma_split_extend(with_sep, parts.last(), sep);
        assert(join_spec(parts, seq![sep]) == with_sep + parts.last());
        assert(init.push(empty).update(init.len() as int, empty + parts.last()) =~= parts) by {
            assert(empty + parts.last() =~= parts.last());
        }
    }
}

} // verus!
