//! Text helpers shared by the message formats of the push system: splitting
//! a line on a separator and joining pieces with one.
use vstd::prelude::*;

verus! {

/// The views of a sequence of strings.
pub open spec fn views(v: Seq<String>) -> Seq<Seq<char>> {
    v.map_values(|s: String| s@)
}

/// The pieces of `s` between occurrences of `sep`, as `str::split` gives
/// them: always at least one piece, empty pieces kept.
pub open spec fn split_on(s: Seq<char>, sep: char) -> Seq<Seq<char>>
    decreases s.len(),
{
    if s.len() == 0 {
        seq![Seq::<char>::empty()]
    } else {
        let prev = split_on(s.drop_last(), sep);
        if s.last() == sep {
            prev.push(Seq::<char>::empty())
        } else {
            prev.update(prev.len() - 1, prev.last().push(s.last()))
        }
    }
}

/// The pieces joined with `sep` between each two neighbours, as `[T]::join` does.
pub open spec fn join_with(parts: Seq<Seq<char>>, sep: Seq<char>) -> Seq<char>
    decreases parts.len(),
{
    if parts.len() == 0 {
        Seq::<char>::empty()
    } else if parts.len() == 1 {
        parts[0]
    } else {
        join_with(parts.drop_last(), sep) + sep + parts.last()
    }
}

/// `s` does not hold the character `c`.
pub open spec fn free_of(s: Seq<char>, c: char) -> bool {
    forall|i: int| 0 <= i < s.len() ==> s[i] != c
}

/// Splitting always gives at least one piece.
pub proof fn lemma_split_nonempty(s: Seq<char>, sep: char)
    ensures
        split_on(s, sep).len() >= 1,
    decreases s.len(),
{
    if s.len() > 0 {
        lemma_split_nonempty(s.drop_last(), sep);
    }
}

/// Appending text without the separator only extends the last piece.
pub proof fn lemma_split_append_free(x: Seq<char>, b: Seq<char>, sep: char)
    requires
        free_of(b, sep),
    ensures
        split_on(x + b, sep) == split_on(x, sep).update(
            split_on(x, sep).len() - 1,
            split_on(x, sep).last() + b,
        ),
    decreases b.len(),
{
    lemma_split_nonempty(x, sep);
    if b.len() == 0 {
        assert(x + b =~= x);
        assert(split_on(x, sep).last() + b =~= split_on(x, sep).last());
        assert(split_on(x, sep).update(split_on(x, sep).len() - 1, split_on(x, sep).last())
            =~= split_on(x, sep));
    } else {
        let b0 = b.drop_last();
        lemma_split_append_free(x, b0, sep);
        assert((x + b).drop_last() =~= x + b0);
        assert((x + b).last() == b.last());
        assert(split_on(x, sep).last() + b =~= (split_on(x, sep).last() + b0).push(b.last()));
        lemma_split_nonempty(x + b0, sep);
        assert(split_on(x + b, sep) =~= split_on(x, sep).update(
            split_on(x, sep).len() - 1,
            split_on(x, sep).last() + b,
        ));
    }
}

/// Splitting `a`, the separator and then `b` free of the separator gives the
/// pieces of `a` followed by `b`.
pub proof fn lemma_split_then_piece(a: Seq<char>, b: Seq<char>, sep: char)
    requires
        free_of(b, sep),
    ensures
        split_on(a.push(sep) + b, sep) == split_on(a, sep).push(b),
{
    let x = a.push(sep);
    assert(x.drop_last() =~= a);
    lemma_split_append_free(x, b, sep);
    assert(Seq::<char>::empty() + b =~= b);
    assert(split_on(x, sep) == split_on(a, sep).push(Seq::<char>::empty()));
    assert(split_on(x + b, sep) =~= split_on(a, sep).push(b));
}

/// A text free of the separator splits into itself alone.
pub proof fn lemma_split_free(b: Seq<char>, sep: char)
    requires
        free_of(b, sep),
    ensures
        split_on(b, sep) == seq![b],
{
    lemma_split_append_free(Seq::<char>::empty(), b, sep);
    assert(Seq::<char>::empty() + b =~= b);
    assert(split_on(Seq::<char>::empty(), sep) == seq![Seq::<char>::empty()]);
    assert(seq![Seq::<char>::empty()].update(0, Seq::<char>::empty() + b) =~= seq![b]);
}

/// Splitting undoes joining, when no piece holds the separator.
pub proof fn lemma_split_join(parts: Seq<Seq<char>>, sep: char)
    requires
        parts.len() >= 1,
        forall|i: int| 0 <= i < parts.len() ==> free_of(#[trigger] parts[i], sep),
    ensures
        split_on(join_with(parts, seq![sep]), sep) == parts,
    decreases parts.len(),
{
    if parts.len() == 1 {
        lemma_split_free(parts[0], sep);
        assert(seq![parts[0]] =~= parts);
    } else {
        let init = parts.drop_last();
        assert forall|i: int| 0 <= i < init.len() implies free_of(#[trigger] init[i], sep) by {
            assert(init[i] == parts[i]);
        }
        lemma_split_join(init, sep);
        let a = join_with(init, seq![sep]);
        assert(a + seq![sep] + parts.last() =~= a.push(sep) + parts.last());
        assert(free_of(parts[parts.len() - 1], sep));
        lemma_split_then_piece(a, parts.last(), sep);
        assert(init.push(parts.last()) =~= parts);
    }
}

/// A text that starts with a separator-free field and the separator splits
/// into at least two pieces, the first of which is that field, whatever
/// follows.
pub proof fn lemma_split_first_field(a: Seq<char>, rest: Seq<char>, sep: char)
    requires
        free_of(a, sep),
    ensures
        split_on(a.push(sep) + rest, sep).len() >= 2,
        split_on(a.push(sep) + rest, sep)[0] == a,
    decreases rest.len(),
{
    let x = a.push(sep);
    if rest.len() == 0 {
        assert(x + rest =~= x);
        assert(x.drop_last() =~= a);
        lemma_split_free(a, sep);
    } else {
        let r0 = rest.drop_last();
        lemma_split_first_field(a, r0, sep);
        assert((x + rest).drop_last() =~= x + r0);
        assert((x + rest).last() == rest.last());
    }
}

/// Extending the last piece of a non-empty list extends the joined text by
/// the same characters.
pub proof fn lemma_join_extend_last(p: Seq<Seq<char>>, y: Seq<char>, sep: Seq<char>)
    requires
        p.len() >= 1,
    ensures
        join_with(p.update(p.len() - 1, p.last() + y), sep) == join_with(p, sep) + y,
{
    let q = p.update(p.len() - 1, p.last() + y);
    if p.len() == 1 {
        assert(q[0] == p[0] + y);
    } else {
        assert(q.drop_last() =~= p.drop_last());
        assert(q.last() == p.last() + y);
        assert(join_with(p, sep) + y =~= join_with(p.drop_last(), sep) + sep + (p.last() + y));
    }
}

/// Splitting loses nothing: joining the pieces with the separator gives the
/// text back, and no piece holds the separator.
pub proof fn lemma_join_split(s: Seq<char>, sep: char)
    ensures
        join_with(split_on(s, sep), seq![sep]) == s,
        forall|i: int| 0 <= i < split_on(s, sep).len() ==> free_of(#[trigger] split_on(s, sep)[i], sep),
    decreases s.len(),
{
    if s.len() == 0 {
        assert(join_with(seq![Seq::<char>::empty()], seq![sep]) == Seq::<char>::empty());
    } else {
        let s0 = s.drop_last();
        let c = s.last();
        lemma_join_split(s0, sep);
        lemma_split_nonempty(s0, sep);
        let prev = split_on(s0, sep);
        if c == sep {
            let q = prev.push(Seq::<char>::empty());
            assert(q.drop_last() =~= prev);
            assert(join_with(q, seq![sep]) == join_with(prev, seq![sep]) + seq![sep] + Seq::<char>::empty());
            assert(s =~= s0 + seq![sep] + Seq::<char>::empty());
            assert forall|i: int| 0 <= i < q.len() implies free_of(#[trigger] q[i], sep) by {
                if i < prev.len() {
                    assert(q[i] == prev[i]);
                }
            }
        } else {
            lemma_join_extend_last(prev, seq![c], seq![sep]);
            assert(prev.last().push(c) =~= prev.last() + seq![c]);
            assert(s =~= s0 + seq![c]);
            let q = prev.update(prev.len() - 1, prev.last().push(c));
            assert forall|i: int| 0 <= i < q.len() implies free_of(#[trigger] q[i], sep) by {
                if i < prev.len() - 1 {
                    assert(q[i] == prev[i]);
                } else {
                    assert(free_of(prev[prev.len() - 1], sep));
                    assert forall|j: int| 0 <= j < q[i].len() implies q[i][j] != sep by {
                        if j < prev.last().len() {
                            assert(q[i][j] == prev.last()[j]);
                        }
                    }
                }
            }
        }
    }
}

/// A separator-free field, the separator, then any text: the pieces are the
/// field followed by the pieces of the text.
pub proof fn lemma_split_after_field(a: Seq<char>, r: Seq<char>, sep: char)
    requires
        free_of(a, sep),
    ensures
        split_on(a.push(sep) + r, sep) == seq![a] + split_on(r, sep),
    decreases r.len(),
{
    let x = a.push(sep);
    if r.len() == 0 {
        assert(x + r =~= x);
        assert(x.drop_last() =~= a);
        lemma_split_free(a, sep);
        assert(seq![a] + seq![Seq::<char>::empty()] =~= seq![a, Seq::<char>::empty()]);
    } else {
        let r0 = r.drop_last();
        lemma_split_after_field(a, r0, sep);
        lemma_split_nonempty(r0, sep);
        assert((x + r).drop_last() =~= x + r0);
        assert((x + r).last() == r.last());
        let prev = split_on(r0, sep);
        if r.last() == sep {
            assert(seq![a] + prev.push(Seq::<char>::empty()) =~= (seq![a] + prev).push(Seq::<char>::empty()));
        } else {
            assert(seq![a] + prev.update(prev.len() - 1, prev.last().push(r.last())) =~= (seq![a]
                + prev).update((seq![a] + prev).len() - 1, (seq![a] + prev).last().push(r.last())));
        }
    }
}

/// Appends one character at the end of a `String` (`String::push`).
#[verifier::external_body]
pub(crate) fn push_char(s: &mut String, c: char)
    ensures
        final(s)@ == old(s)@.push(c),
{
    s.push(c);
}

/// The characters of `s`, in order.
pub fn chars_of(s: &str) -> (v: Vec<char>)
    ensures
        v@ == s@,
{
    let mut v: Vec<char> = Vec::new();
    for c in it: s.chars()
        invariant
            v@ == it.seq().take(it.index() as int),
            it.seq() == s@,
    {
        v.push(c);
    }
    v
}

/// Whether two texts are equal.
pub fn text_eq(a: &str, b: &str) -> (r: bool)
    ensures
        r == (a@ == b@),
{
    let x = a.to_string();
    let y = b.to_string();
    x == y
}

/// The pieces of `s` between occurrences of `sep` (`str::split`).
pub fn split_text(s: &str, sep: char) -> (parts: Vec<String>)
    ensures
        views(parts@) == split_on(s@, sep),
        parts.len() >= 1,
        join_with(views(parts@), seq![sep]) == s@,
        forall|i: int| 0 <= i < parts.len() ==> free_of(#[trigger] parts@[i]@, sep),
{
    let cs = chars_of(s);
    let mut parts: Vec<String> = Vec::new();
    let mut cur = String::new();
    let mut i: usize = 0;
    assert(cs@.take(0) =~= Seq::<char>::empty());
    assert(views(parts@).push(cur@) =~= seq![Seq::<char>::empty()]);
    while i < cs.len()
        invariant
            0 <= i <= cs.len(),
            cs@ == s@,
            views(parts@).push(cur@) == split_on(cs@.take(i as int), sep),
        decreases cs.len() - i,
    {
        let c = cs[i];
        let ghost before = views(parts@).push(cur@);
        assert(cs@.take(i + 1).drop_last() =~= cs@.take(i as int));
        assert(cs@.take(i + 1).last() == c);
        if c == sep {
            parts.push(cur);
            cur = String::new();
            assert(views(parts@).push(cur@) =~= before.push(Seq::<char>::empty()));
        } else {
            push_char(&mut cur, c);
            assert(views(parts@).push(cur@) =~= before.update(
                before.len() - 1,
                before.last().push(c),
            ));
        }
        i += 1;
    }
    assert(cs@.take(cs.len() as int) =~= cs@);
    parts.push(cur);
    assert(views(parts@) =~= split_on(s@, sep));
    proof {
        lemma_join_split(s@, sep);
        lemma_split_nonempty(s@, sep);
        assert forall|i: int| 0 <= i < parts.len() implies free_of(#[trigger] parts@[i]@, sep) by {
            assert(parts@[i]@ == views(parts@)[i]);
        }
    }
    parts
}

/// The pieces joined with `sep` between each two neighbours (`[String]::join`).
pub fn join_texts(parts: &Vec<String>, sep: &str) -> (res: String)
    ensures
        res@ == join_with(views(parts@), sep@),
{
    let mut res = String::new();
    let n = parts.len();
    let mut i: usize = 0;
    while i < n
        invariant
            0 <= i <= n,
            n == parts.len(),
            res@ == join_with(views(parts@).take(i as int), sep@),
        decreases n - i,
    {
        let ghost pv = views(parts@);
        assert(pv.take(i + 1).drop_last() =~= pv.take(i as int));
        assert(pv.take(i + 1).last() == parts@[i as int]@);
        if i == 0 {
            res.append(parts[i].as_str());
            assert(pv.take(1) =~= seq![parts@[0]@]);
        } else {
            res.append(sep);
            res.append(parts[i].as_str());
        }
        i += 1;
    }
    assert(views(parts@).take(n as int) =~= views(parts@));
    res
}

} // verus!
