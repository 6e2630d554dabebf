//! Joining of text fragments: the mathematical model and the executable routines.

use vstd::prelude::*;

verus! {

/// The texts of a list of string slices.
pub open spec fn views(list: Seq<&str>) -> Seq<Seq<char>> {
    Seq::new(list.len(), |i: int| list[i]@)
}

/// The texts of a list of owned strings.
pub open spec fn owned_views(list: Seq<String>) -> Seq<Seq<char>> {
    Seq::new(list.len(), |i: int| list[i]@)
}

/// The concatenation of `sep + part` over all `parts`, in order.
pub open spec fn prefixed_concat(parts: Seq<Seq<char>>, sep: Seq<char>) -> Seq<char>
    decreases parts.len(),
{
    if parts.len() == 0 {
        Seq::empty()
    } else {
        prefixed_concat(parts.drop_last(), sep) + sep + parts.last()
    }
}

/// The parts in order, with `sep` between each two neighbours and nowhere else.
pub open spec fn joined(parts: Seq<Seq<char>>, sep: Seq<char>) -> Seq<char> {
    if parts.len() == 0 {
        Seq::empty()
    } else {
        parts.first() + prefixed_concat(parts.drop_first(), sep)
    }
}

/// Joining no parts gives the empty text.
pub proof fn lemma_joined_empty(sep: Seq<char>)
    ensures
        joined(Seq::empty(), sep) == Seq::<char>::empty(),
{
}

/// Joining a single part gives that part.
pub proof fn lemma_joined_one(part: Seq<char>, sep: Seq<char>)
    ensures
        joined(seq![part], sep) == part,
{
    assert(seq![part].drop_first() =~= Seq::<Seq<char>>::empty());
    assert(joined(seq![part], sep) =~= part);
}

/// Joining one more part appends the separator and that part.
pub proof fn lemma_joined_push(parts: Seq<Seq<char>>, part: Seq<char>, sep: Seq<char>)
    requires
        parts.len() > 0,
    ensures
        joined(parts.push(part), sep) == joined(parts, sep) + sep + part,
{
    let more = parts.push(part);
    assert(more.drop_first().drop_last() =~= parts.drop_first());
    assert(more.first() == parts.first());
    assert(more.drop_first().last() == part);
    assert(joined(more, sep) =~= joined(parts, sep) + sep + part);
}

/// Whether `piece` stands in `text` at position `at`.
pub open spec fn stands_at(text: Seq<char>, at: int, piece: Seq<char>) -> bool {
    &&& 0 <= at
    &&& at + piece.len() <= text.len()
    &&& text.subrange(at, at + piece.len()) == piece
}

/// A text stands at the start of whatever it is extended to.
pub proof fn lemma_stands_first(piece: Seq<char>, more: Seq<char>)
    ensures
        stands_at(piece + more, 0, piece),
{
    assert((piece + more).subrange(0, piece.len() as int) =~= piece);
}

/// What is appended to a text stands where the text ends.
pub proof fn lemma_stands_last(text: Seq<char>, piece: Seq<char>)
    ensures
        stands_at(text + piece, text.len() as int, piece),
{
    assert((text + piece).subrange(text.len() as int, (text.len() + piece.len()) as int) =~= piece);
}

/// What stands in a text stands there still when the text is extended.
pub proof fn lemma_stands_extend(text: Seq<char>, at: int, piece: Seq<char>, more: Seq<char>)
    requires
        stands_at(text, at, piece),
    ensures
        stands_at(text + more, at, piece),
{
    assert((text + more).subrange(at, at + piece.len()) =~= text.subrange(at, at + piece.len()));
}

/// Where a piece stands, what it begins with stands too.
pub proof fn lemma_stands_start(text: Seq<char>, at: int, start: Seq<char>, rest: Seq<char>)
    requires
        stands_at(text, at, start + rest),
    ensures
        stands_at(text, at, start),
{
    let whole = text.subrange(at, at + (start + rest).len());
    assert(text.subrange(at, at + start.len()) =~= whole.subrange(0, start.len() as int));
    assert((start + rest).subrange(0, start.len() as int) =~= start);
}

/// What stands in a piece stands in every text in which the piece stands, that much
/// further on.
pub proof fn lemma_stands_within(
    text: Seq<char>,
    at: int,
    piece: Seq<char>,
    offset: int,
    part: Seq<char>,
)
    requires
        stands_at(text, at, piece),
        stands_at(piece, offset, part),
    ensures
        stands_at(text, at + offset, part),
{
    let whole = text.subrange(at, at + piece.len());
    assert(text.subrange(at + offset, at + offset + part.len()) =~= whole.subrange(
        offset,
        offset + part.len(),
    ));
}

/// The concatenation over a list splits at every position into the concatenation over
/// what stands before it and the concatenation over what stands from it on.
pub proof fn lemma_prefixed_concat_split(parts: Seq<Seq<char>>, sep: Seq<char>, at: int)
    requires
        0 <= at <= parts.len(),
    ensures
        prefixed_concat(parts, sep) == prefixed_concat(parts.take(at), sep) + prefixed_concat(
            parts.skip(at),
            sep,
        ),
    decreases parts.len(),
{
    if at == parts.len() {
        assert(parts.take(at) =~= parts);
        assert(parts.skip(at) =~= Seq::<Seq<char>>::empty());
        assert(prefixed_concat(parts, sep) =~= prefixed_concat(parts, sep) + Seq::<char>::empty());
    } else {
        let shorter = parts.drop_last();
        lemma_prefixed_concat_split(shorter, sep, at);
        assert(shorter.take(at) =~= parts.take(at));
        assert(parts.skip(at).drop_last() =~= shorter.skip(at));
        assert(parts.skip(at).last() == parts.last());
        assert(prefixed_concat(parts, sep) =~= prefixed_concat(parts.take(at), sep) + (
        prefixed_concat(shorter.skip(at), sep) + sep + parts.last()));
    }
}

/// Appending one slice to a list appends its text to the list's texts.
pub proof fn lemma_views_push(list: Seq<&str>, item: &str)
    ensures
        views(list.push(item)) == views(list).push(item@),
{
    assert(views(list.push(item)) =~= views(list).push(item@));
}

/// Joins the slices of `list`, putting `sep` between neighbours.
pub fn join_strs(list: &Vec<&str>, sep: &str) -> (res: String)
    ensures
        res@ == joined(views(list@), sep@),
{
    let mut res = String::new();
    let mut i: usize = 0;
    while i < list.len()
        invariant
            i <= list.len(),
            res@ == joined(views(list@).take(i as int), sep@),
        decreases list.len() - i,
    {
        let ghost done = views(list@).take(i as int);
        if i > 0 {
            res.append(sep);
        }
        res.append(list[i]);
        proof {
            assert(views(list@).take(i + 1) =~= done.push(list@[i as int]@));
            if i > 0 {
                lemma_joined_push(done, list@[i as int]@, sep@);
            } else {
                assert(done =~= Seq::<Seq<char>>::empty());
                lemma_joined_one(list@[i as int]@, sep@);
                assert(res@ =~= list@[i as int]@);
            }
        }
        i += 1;
    }
    assert(views(list@).take(list.len() as int) =~= views(list@));
    res
}

/// Joins the strings of `list`, putting `sep` between neighbours.
pub fn join_strings(list: &Vec<String>, sep: &str) -> (res: String)
    ensures
        res@ == joined(owned_views(list@), sep@),
{
    let mut res = String::new();
    let mut i: usize = 0;
    while i < list.len()
        invariant
            i <= list.len(),
            res@ == joined(owned_views(list@).take(i as int), sep@),
        decreases list.len() - i,
    {
        let ghost done = owned_views(list@).take(i as int);
        if i > 0 {
            res.append(sep);
        }
        res.append(list[i].as_str());
        proof {
            assert(owned_views(list@).take(i + 1) =~= done.push(list@[i as int]@));
            if i > 0 {
                lemma_joined_push(done, list@[i as int]@, sep@);
            } else {
                assert(done =~= Seq::<Seq<char>>::empty());
                lemma_joined_one(list@[i as int]@, sep@);
                assert(res@ =~= list@[i as int]@);
            }
        }
        i += 1;
    }
    assert(owned_views(list@).take(list.len() as int) =~= owned_views(list@));
    res
}

/// A copy of a list of string slices.
pub fn copy_strs<'a>(list: &Vec<&'a str>) -> (res: Vec<&'a str>)
    ensures
        res@ == list@,
{
    let mut res: Vec<&'a str> = Vec::new();
    let mut i: usize = 0;
    while i < list.len()
        invariant
            i <= list.len(),
            res@ == list@.take(i as int),
        decreases list.len() - i,
    {
        res.push(list[i]);
        assert(list@.take(i + 1) =~= list@.take(i as int).push(list@[i as int]));
        i += 1;
    }
    assert(list@.take(list.len() as int) =~= list@);
    res
}

} // verus!
