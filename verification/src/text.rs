//! Text as sequences of characters: reading the characters of a string and
//! splitting them on a separator.

use vstd::prelude::*;
use vstd::std_specs::iter::IteratorSpec;

verus! {

broadcast use vstd::string::group_string_axioms;

/// The fields of `s` when it is cut at every `sep`. There is always at least
/// one field; a separator at either end, or two in a row, give an empty field.
pub open spec fn split_on(s: Seq<char>, sep: char) -> Seq<Seq<char>>
    decreases s.len(),
{
    if s.len() == 0 {
        seq![Seq::<char>::empty()]
    } else {
        let before = split_on(s.drop_last(), sep);
        if s.last() == sep {
            before.push(Seq::<char>::empty())
        } else {
            before.update(before.len() - 1, before.last().push(s.last()))
        }
    }
}

/// `bounds` gives, field by field, where the fields of `s` lie in it.
pub open spec fn bounds_of_fields(s: Seq<char>, sep: char, bounds: Seq<(usize, usize)>) -> bool {
    &&& bounds.len() == split_on(s, sep).len()
    &&& forall|k: int|
        0 <= k < bounds.len() ==> {
            &&& (#[trigger] bounds[k]).0 <= bounds[k].1 <= s.len()
            &&& s.subrange(bounds[k].0 as int, bounds[k].1 as int) == split_on(s, sep)[k]
        }
}

/// The fields put back together, with `sep` between each two of them.
pub open spec fn join_with(fields: Seq<Seq<char>>, sep: char) -> Seq<char>
    decreases fields.len(),
{
    if fields.len() == 0 {
        Seq::<char>::empty()
    } else if fields.len() == 1 {
        fields[0]
    } else {
        join_with(fields.drop_last(), sep).push(sep) + fields.last()
    }
}

/// No field holds the separator.
pub open spec fn free_of(fields: Seq<Seq<char>>, sep: char) -> bool {
    forall|k: int, j: int|
        0 <= k < fields.len() && 0 <= j < fields[k].len() ==> #[trigger] fields[k][j] != sep
}

/// A split always has a first field, and no field of it holds the separator.
pub proof fn lemma_split_fields(s: Seq<char>, sep: char)
    ensures
        split_on(s, sep).len() >= 1,
        free_of(split_on(s, sep), sep),
    decreases s.len(),
{
    if s.len() > 0 {
        lemma_split_fields(s.drop_last(), sep);
    }
}

/// Joining the fields of a split with the separator gives the text back.
pub proof fn lemma_join_of_split(s: Seq<char>, sep: char)
    ensures
        join_with(split_on(s, sep), sep) == s,
    decreases s.len(),
{
    if s.len() == 0 {
        assert(join_with(split_on(s, sep), sep) =~= s);
    } else {
        let shorter = s.drop_last();
        let before = split_on(shorter, sep);
        let fields = split_on(s, sep);
        lemma_split_fields(shorter, sep);
        lemma_join_of_split(shorter, sep);
        if s.last() == sep {
            assert(fields.drop_last() =~= before);
            assert(join_with(fields, sep) =~= shorter.push(sep));
        } else if before.len() == 1 {
            assert(join_with(fields, sep) =~= shorter.push(s.last()));
        } else {
            assert(fields.drop_last() =~= before.drop_last());
            assert(join_with(fields, sep) =~= join_with(before, sep).push(s.last()));
        }
        assert(shorter.push(s.last()) =~= s);
    }
}

/// Splitting a joined text gives the fields back, where there is at least one
/// field and none holds the separator. With `lemma_join_of_split` this makes
/// the split the only such cut of a text.
pub proof fn lemma_split_of_join(fields: Seq<Seq<char>>, sep: char)
    requires
        fields.len() >= 1,
        free_of(fields, sep),
    ensures
        split_on(join_with(fields, sep), sep) == fields,
    decreases fields.len(), fields.last().len(),
{
    let text = join_with(fields, sep);
    let tail = fields.last();
    if tail.len() > 0 {
        let shorter = fields.update(fields.len() - 1, tail.drop_last());
        assert(free_of(shorter, sep)) by {
            assert forall|k: int, j: int|
                0 <= k < shorter.len() && 0 <= j < shorter[k].len() implies #[trigger] shorter[k][j]
                != sep by {
                assert(fields[k][j] != sep);
            }
        }
        lemma_split_of_join(shorter, sep);
        assert(tail[tail.len() - 1] != sep);
        if fields.len() == 1 {
            assert(join_with(shorter, sep) =~= text.drop_last());
        } else {
            assert(shorter.drop_last() =~= fields.drop_last());
            assert(join_with(shorter, sep) =~= text.drop_last());
        }
        assert(text.last() == tail.last());
        assert(tail.drop_last().push(tail.last()) =~= tail);
        assert(split_on(text, sep) =~= fields);
    } else if fields.len() == 1 {
        assert(tail =~= Seq::<char>::empty());
        assert(fields =~= seq![Seq::<char>::empty()]);
    } else {
        let shorter = fields.drop_last();
        assert(tail =~= Seq::<char>::empty());
        assert(free_of(shorter, sep)) by {
            assert forall|k: int, j: int|
                0 <= k < shorter.len() && 0 <= j < shorter[k].len() implies #[trigger] shorter[k][j]
                != sep by {
                assert(fields[k][j] != sep);
            }
        }
        lemma_split_of_join(shorter, sep);
        assert(text =~= join_with(shorter, sep).push(sep));
        assert(text.drop_last() =~= join_with(shorter, sep));
        assert(text.last() == sep);
        assert(shorter.push(tail) =~= fields);
        assert(split_on(text, sep) =~= fields);
    }
}

/// Collects the characters of `line`.
pub fn chars_of(line: &str) -> (chars: Vec<char>)
    ensures
        chars@ == line@,
{
    let mut chars: Vec<char> = Vec::new();
    let mut it = line.chars();
    loop
        invariant
            it.obeys_prophetic_iter_laws(),
            it.decrease() is Some,
            chars@ + it.remaining() == line@,
        ensures
            chars@ == line@,
        decreases it.decrease()->0,
    {
        match it.next() {
            Some(c) => {
                chars.push(c);
            },
            None => {
                break;
            },
        }
    }
    chars
}

/// Finds the fields of `chars`: for each field of the split, in order, the
/// index where it starts and the index just past its end.
pub fn field_bounds(chars: &Vec<char>, sep: char) -> (bounds: Vec<(usize, usize)>)
    ensures
        bounds_of_fields(chars@, sep, bounds@),
{
    let mut bounds: Vec<(usize, usize)> = Vec::new();
    let mut start: usize = 0;
    let mut i: usize = 0;
    while i < chars.len()
        invariant
            start <= i <= chars.len(),
            split_on(chars@.take(i as int), sep).len() == bounds.len() + 1,
            forall|k: int|
                0 <= k < bounds.len() ==> {
                    &&& (#[trigger] bounds[k]).0 <= bounds[k].1 <= i
                    &&& chars@.subrange(bounds[k].0 as int, bounds[k].1 as int) == split_on(
                        chars@.take(i as int),
                        sep,
                    )[k]
                },
            split_on(chars@.take(i as int), sep).last() == chars@.subrange(start as int, i as int),
        decreases chars.len() - i,
    {
        let ghost prefix = chars@.take(i as int);
        let ghost longer = chars@.take(i + 1);
        assert(longer.drop_last() =~= prefix);
        assert(longer.last() == chars@[i as int]);
        if chars[i] == sep {
            bounds.push((start, i));
            start = i + 1;
            assert(chars@.subrange(start as int, i + 1) =~= Seq::<char>::empty());
        } else {
            assert(chars@.subrange(start as int, i + 1) =~= chars@.subrange(
                start as int,
                i as int,
            ).push(chars@[i as int]));
        }
        i = i + 1;
    }
    assert(chars@.take(i as int) =~= chars@);
    bounds.push((start, i));
    bounds
}

} // verus!
