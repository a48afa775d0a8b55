//! What holds of texts, numbers and paths in lists.
use vstd::prelude::*;
use vstd::utf8::{decode_utf8, valid_utf8};

use crate::path::{shown, shown_exactly_if_utf8, utf8_lossy, FsPath};
use crate::text::{decimal, joined, texts, words};

verus! {

/// A list of strings, or of string slices, has as many texts as items, and the text of
/// each item stands in its place.
pub proof fn law_texts_stand_in_place(strings: Seq<String>, slices: Seq<&str>)
    ensures
        texts(strings).len() == strings.len(),
        forall|i: int| 0 <= i < strings.len() ==> #[trigger] texts(strings)[i] == strings[i]@,
        words(slices).len() == slices.len(),
        forall|i: int| 0 <= i < slices.len() ==> #[trigger] words(slices)[i] == slices[i]@,
{
}

/// A list of paths is shown path by path, each in its place.
pub proof fn law_paths_are_shown_in_place(paths: Seq<&FsPath>)
    ensures
        shown(paths).len() == paths.len(),
        forall|i: int|
            0 <= i < paths.len() ==> #[trigger] shown(paths)[i] == utf8_lossy(paths[i]@),
{
}

/// To say of a path that it is shown exactly where it is UTF-8 says that of every path that
/// is UTF-8, and nothing of the others.
pub proof fn law_utf8_paths_are_shown_exactly(bytes: Seq<u8>)
    ensures
        valid_utf8(bytes) ==> (shown_exactly_if_utf8(bytes) <==> utf8_lossy(bytes) == decode_utf8(
            bytes,
        )),
        !valid_utf8(bytes) ==> shown_exactly_if_utf8(bytes),
{
}

/// To join nothing gives nothing; to join one item gives that item, without a separator.
pub proof fn law_join_of_none_and_one(item: Seq<char>, sep: Seq<char>)
    ensures
        joined(Seq::empty(), sep) == Seq::<char>::empty(),
        joined(seq![item], sep) == item,
{
}

/// To join two lists in a row is to join each, with one separator between the two.
pub proof fn law_join_of_lists_in_a_row(a: Seq<Seq<char>>, b: Seq<Seq<char>>, sep: Seq<char>)
    requires
        a.len() > 0,
        b.len() > 0,
    ensures
        joined(a + b, sep) == joined(a, sep) + sep + joined(b, sep),
    decreases a.len(),
{
    let all = a + b;
    assert(all[0] == a[0]);
    if a.len() == 1 {
        assert(all.skip(1) =~= b);
    } else {
        assert(all.skip(1) =~= a.skip(1) + b);
        law_join_of_lists_in_a_row(a.skip(1), b, sep);
    }
    assert(joined(all, sep) =~= joined(a, sep) + sep + joined(b, sep));
}

/// Each item stands in what is joined, behind the items before it and before the items
/// behind it, with one separator on each side where there is an item there.
pub proof fn law_each_item_is_joined_in(list: Seq<Seq<char>>, sep: Seq<char>, i: int)
    requires
        0 <= i < list.len(),
    ensures
        ({
            let before = if i == 0 {
                Seq::empty()
            } else {
                joined(list.take(i), sep) + sep
            };
            let behind = if i + 1 == list.len() {
                Seq::empty()
            } else {
                sep + joined(list.skip(i + 1), sep)
            };
            joined(list, sep) == before + list[i] + behind
        }),
{
    let rest = list.skip(i);
    let one = seq![list[i]];
    law_join_of_none_and_one(list[i], sep);
    if i + 1 < list.len() {
        assert(rest =~= one + list.skip(i + 1));
        law_join_of_lists_in_a_row(one, list.skip(i + 1), sep);
    } else {
        assert(rest =~= one);
    }
    if i > 0 {
        assert(list =~= list.take(i) + rest);
        law_join_of_lists_in_a_row(list.take(i), rest, sep);
    } else {
        assert(list =~= rest);
    }
    let before = if i == 0 {
        Seq::empty()
    } else {
        joined(list.take(i), sep) + sep
    };
    let behind = if i + 1 == list.len() {
        Seq::empty()
    } else {
        sep + joined(list.skip(i + 1), sep)
    };
    assert(joined(list, sep) =~= before + list[i] + behind);
}

/// A number under ten is written as the one digit that stands as far behind `0`. Ten
/// times a number, and `d` more, is written as that number with the digit for `d` behind
/// it.
pub proof fn law_decimal_grows_by_a_digit(n: nat, d: nat)
    requires
        d < 10,
    ensures
        decimal(d).len() == 1,
        decimal(d)[0] as int == '0' as int + d,
        n > 0 ==> decimal((10 * n + d) as nat) == decimal(n) + decimal(d),
{
    let whole = (10 * n + d) as nat;
    assert(whole / 10 == n && whole % 10 == d);
    if n > 0 {
        assert(decimal(whole) =~= decimal(n) + decimal(d));
    }
}

} // verus!
