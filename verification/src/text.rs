//! Lists written as one text with commas between the items.

use vstd::prelude::*;
use vstd::std_specs::iter::IteratorSpec;
use vstd::string::StringSliceAdditionalSpecFns;
use vstd::utf8::encode_utf8_decode_utf8;

verus! {

/// Whether two texts hold the same characters.
pub fn str_eq(a: &str, b: &str) -> (same: bool)
    ensures
        same == (a@ == b@),
{
    let x: &[u8] = a.as_bytes();
    let y: &[u8] = b.as_bytes();
    proof {
        // two texts with the same bytes decode to the same characters
        encode_utf8_decode_utf8(a@);
        encode_utf8_decode_utf8(b@);
    }
    if x.len() != y.len() {
        return false;
    }
    let mut i: usize = 0;
    while i < x.len()
        invariant
            i <= x@.len(),
            x@.len() == y@.len(),
            x@.take(i as int) == y@.take(i as int),
            x@ == a.spec_bytes(),
            y@ == b.spec_bytes(),
            a@ == vstd::utf8::decode_utf8(a.spec_bytes()),
            b@ == vstd::utf8::decode_utf8(b.spec_bytes()),
        decreases x@.len() - i,
    {
        if x[i] != y[i] {
            return false;
        }
        i = i + 1;
    }
    assert(x@ =~= x@.take(i as int));
    assert(y@ =~= y@.take(i as int));
    true
}

/// The items of a comma-separated list, in order. Every comma ends one item
/// and starts the next, so a text with `k` commas has `k + 1` items, and an
/// item is empty where a comma stands first, last or next to another one.
/// Nothing is trimmed and nothing is dropped.
pub open spec fn split_commas(s: Seq<char>) -> Seq<Seq<char>>
    decreases s.len(),
{
    if s.len() == 0 {
        seq![Seq::<char>::empty()]
    } else {
        let before = split_commas(s.drop_last());
        if s.last() == ',' {
            before.push(Seq::<char>::empty())
        } else {
            before.drop_last().push(before.last().push(s.last()))
        }
    }
}

/// The text that lists `items` with a comma between each two neighbours.
pub open spec fn join_commas(items: Seq<Seq<char>>) -> Seq<char>
    decreases items.len(),
{
    if items.len() == 0 {
        Seq::<char>::empty()
    } else if items.len() == 1 {
        items[0]
    } else {
        join_commas(items.drop_last()).push(',') + items.last()
    }
}

/// Whether `s` holds no comma.
pub open spec fn comma_free(s: Seq<char>) -> bool {
    forall|i: int| 0 <= i < s.len() ==> #[trigger] s[i] != ','
}

/// How many commas `s` holds.
pub open spec fn count_commas(s: Seq<char>) -> nat
    decreases s.len(),
{
    if s.len() == 0 {
        0
    } else {
        count_commas(s.drop_last()) + if s.last() == ',' {
            1nat
        } else {
            0nat
        }
    }
}

/// Splits a comma-separated list into its items, each taken as it stands.
pub fn vec_from_str(s: &str) -> (items: Vec<String>)
    ensures
        items.deep_view() == split_commas(s@),
{
    broadcast use vstd::string::group_string_axioms;

    let n: usize = s.unicode_len();
    let mut items: Vec<String> = Vec::new();
    let mut chars = s.chars();
    let mut start: usize = 0;
    let mut i: usize = 0;
    assert(s@.take(0) =~= Seq::<char>::empty());
    loop
        invariant
            n == s@.len(),
            start <= i <= n,
            chars.remaining() == s@.skip(i as int),
            split_commas(s@.take(i as int)) == items.deep_view().push(
                s@.subrange(start as int, i as int),
            ),
        ensures
            i == n,
            start <= n,
            n == s@.len(),
            split_commas(s@) == items.deep_view().push(s@.subrange(start as int, n as int)),
        decreases n - i,
    {
        match chars.next() {
            Some(c) => {
                assert(s@.take(i + 1).drop_last() =~= s@.take(i as int));
                if c == ',' {
                    let item: String = s.substring_char(start, i).to_owned();
                    items.push(item);
                    start = i + 1;
                    assert(s@.subrange(start as int, i + 1) =~= Seq::<char>::empty());
                } else {
                    assert(s@.subrange(start as int, i + 1) =~= s@.subrange(
                        start as int,
                        i as int,
                    ).push(c));
                }
                i = i + 1;
            },
            None => {
                assert(s@.take(i as int) =~= s@);
                break ;
            },
        }
    }
    let last: String = s.substring_char(start, n).to_owned();
    items.push(last);
    items
}

/// A list always has an item, and one more item than the text has commas.
pub proof fn lemma_split_len(s: Seq<char>)
    ensures
        split_commas(s).len() == count_commas(s) + 1,
    decreases s.len(),
{
    if s.len() > 0 {
        lemma_split_len(s.drop_last());
    }
}

/// No item of a list holds a comma.
pub proof fn lemma_split_comma_free(s: Seq<char>)
    ensures
        forall|i: int| 0 <= i < split_commas(s).len() ==> comma_free(#[trigger] split_commas(s)[i]),
    decreases s.len(),
{
    if s.len() > 0 {
        lemma_split_comma_free(s.drop_last());
        lemma_split_len(s.drop_last());
    }
}

/// Adding a character to the last item adds it to the end of the text.
proof fn lemma_join_push_char(items: Seq<Seq<char>>, last: Seq<char>, c: char)
    ensures
        join_commas(items.push(last.push(c))) == join_commas(items.push(last)).push(c),
{
    assert(items.push(last).drop_last() =~= items);
    assert(items.push(last.push(c)).drop_last() =~= items);
}

/// Joining the items of a text gives the text back: nothing is lost in
/// splitting, no item, no empty item and no order.
pub proof fn lemma_join_split(s: Seq<char>)
    ensures
        join_commas(split_commas(s)) == s,
    decreases s.len(),
{
    if s.len() > 0 {
        let before = split_commas(s.drop_last());
        lemma_join_split(s.drop_last());
        lemma_split_len(s.drop_last());
        if s.last() == ',' {
            assert(before.push(Seq::<char>::empty()).drop_last() =~= before);
        } else {
            lemma_join_push_char(before.drop_last(), before.last(), s.last());
            assert(before.drop_last().push(before.last()) =~= before);
        }
    }
}

/// Text without a comma, put behind any text, only makes the last item longer.
proof fn lemma_split_append_item(head: Seq<char>, tail: Seq<char>)
    requires
        comma_free(tail),
    ensures
        split_commas(head + tail) == split_commas(head).drop_last().push(
            split_commas(head).last() + tail,
        ),
    decreases tail.len(),
{
    lemma_split_len(head);
    if tail.len() > 0 {
        let shorter = tail.drop_last();
        lemma_split_append_item(head, shorter);
        assert((head + tail).drop_last() =~= head + shorter);
        assert((split_commas(head).last() + shorter).push(tail.last()) =~= split_commas(
            head,
        ).last() + tail);
    }
}

/// Splitting what was joined gives the items back, for every list that has
/// at least one item and no comma inside an item.
pub proof fn lemma_split_join(items: Seq<Seq<char>>)
    requires
        items.len() > 0,
        forall|i: int| 0 <= i < items.len() ==> comma_free(#[trigger] items[i]),
    ensures
        split_commas(join_commas(items)) == items,
    decreases items.len(),
{
    if items.len() == 1 {
        lemma_split_append_item(Seq::<char>::empty(), items.last());
    } else {
        let front = items.drop_last();
        lemma_split_join(front);
        let head = join_commas(front).push(',');
        assert(head.drop_last() =~= join_commas(front));
        lemma_split_append_item(head, items.last());
    }
}

} // verus!
