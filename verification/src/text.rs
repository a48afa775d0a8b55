//! Text building blocks: lists of strings, joining, and decimal numbers.
use vstd::prelude::*;

verus! {

/// The texts of a list of strings.
pub open spec fn texts(list: Seq<String>) -> Seq<Seq<char>> {
    list.map_values(|s: String| s@)
}

/// The texts of a list of string slices.
pub open spec fn words(list: Seq<&str>) -> Seq<Seq<char>> {
    list.map_values(|s: &str| s@)
}

/// The items of `list` in order, with `sep` between each two neighbours.
pub open spec fn joined(list: Seq<Seq<char>>, sep: Seq<char>) -> Seq<char>
    decreases list.len(),
{
    if list.len() == 0 {
        Seq::empty()
    } else if list.len() == 1 {
        list[0]
    } else {
        list[0] + sep + joined(list.skip(1), sep)
    }
}

/// Joins `list` with `sep` between each two neighbours.
pub fn join(list: &Vec<String>, sep: &str) -> (res: String)
    ensures
        res@ == joined(texts(list@), sep@),
{
    let mut out = String::new();
    if list.len() == 0 {
        return out;
    }
    let ghost all = texts(list@);
    out.append(list[0].as_str());
    let mut i: usize = 1;
    while i < list.len()
        invariant
            1 <= i <= list.len(),
            all == texts(list@),
            i < list.len() ==> joined(all, sep@) == out@ + sep@ + joined(all.skip(i as int), sep@),
            i == list.len() ==> joined(all, sep@) == out@,
        decreases list.len() - i,
    {
        let ghost before = out@;
        let ghost rest = all.skip(i as int);
        out.append(sep);
        out.append(list[i].as_str());
        proof {
            assert(rest[0] == list[i as int]@);
            assert(rest.skip(1) =~= all.skip(i + 1));
            assert(out@ =~= before + sep@ + rest[0]);
            if i + 1 < list.len() {
                assert(joined(rest, sep@) == rest[0] + sep@ + joined(rest.skip(1), sep@));
                assert(joined(all, sep@) =~= out@ + sep@ + joined(rest.skip(1), sep@));
            }
        }
        i = i + 1;
    }
    out
}

/// The decimal digit for `d`.
pub open spec fn digit(d: int) -> char {
    seq!['0', '1', '2', '3', '4', '5', '6', '7', '8', '9'][d]
}

/// `n` written in decimal, without leading zeros.
pub open spec fn decimal(n: nat) -> Seq<char>
    decreases n,
{
    if n < 10 {
        seq![digit(n as int)]
    } else {
        decimal(n / 10).push(digit((n % 10) as int))
    }
}

fn digit_text(d: u16) -> (res: &'static str)
    requires
        d < 10,
    ensures
        res@ == seq![digit(d as int)],
{
    proof {
        reveal_strlit("0");
        reveal_strlit("1");
        reveal_strlit("2");
        reveal_strlit("3");
        reveal_strlit("4");
        reveal_strlit("5");
        reveal_strlit("6");
        reveal_strlit("7");
        reveal_strlit("8");
        reveal_strlit("9");
    }
    match d {
        0 => "0",
        1 => "1",
        2 => "2",
        3 => "3",
        4 => "4",
        5 => "5",
        6 => "6",
        7 => "7",
        8 => "8",
        _ => "9",
    }
}

/// Writes `n` in decimal.
pub fn to_decimal(n: u16) -> (res: String)
    ensures
        res@ == decimal(n as nat),
    decreases n,
{
    if n < 10 {
        digit_text(n).to_owned()
    } else {
        let mut out = to_decimal(n / 10);
        out.append(digit_text(n % 10));
        out
    }
}

} // verus!
