use vstd::prelude::*;

verus! {

/// The character sequences of a sequence of strings.
pub open spec fn views(s: Seq<String>) -> Seq<Seq<char>> {
    s.map_values(|x: String| x@)
}

/// `items` separated by `sep`, as `[a, b, c].join(sep)` would give.
pub open spec fn join(items: Seq<Seq<char>>, sep: Seq<char>) -> Seq<char>
    decreases items.len(),
{
    if items.len() == 0 {
        Seq::empty()
    } else if items.len() == 1 {
        items[0]
    } else {
        join(items.drop_last(), sep) + sep + items.last()
    }
}

/// `items` run together with nothing between them.
pub open spec fn concat_text(items: Seq<Seq<char>>) -> Seq<char> {
    join(items, Seq::empty())
}

/// Joins `items` with `sep` between consecutive elements.
pub fn join_strings(items: &Vec<String>, sep: &str) -> (res: String)
    ensures
        res@ == join(views(items@), sep@),
{
    let mut out = String::new();
    let n = items.len();
    let mut i: usize = 0;
    while i < n
        invariant
            i <= n,
            n == items@.len(),
            out@ == join(views(items@).take(i as int), sep@),
        decreases n - i,
    {
        let ghost before = views(items@).take(i as int);
        if i > 0 {
            out.append(sep);
        }
        out.append(items[i].as_str());
        proof {
            let now = views(items@).take(i + 1);
            assert(now.drop_last() =~= before);
            if i == 0 {
                assert(before =~= Seq::<Seq<char>>::empty());
            }
        }
        i = i + 1;
    }
    proof {
        assert(views(items@).take(n as int) =~= views(items@));
    }
    out
}

/// Runs `items` together.
pub fn concat_strings(items: &Vec<String>) -> (res: String)
    ensures
        res@ == concat_text(views(items@)),
{
    proof {
        reveal_strlit("");
        assert(""@ =~= Seq::<char>::empty());
    }
    join_strings(items, "")
}

/// Outer attributes as they stand before an item: each followed by a space.
pub open spec fn attrs_text(attrs: Seq<String>) -> Seq<char> {
    concat_text(views(attrs).map_values(|a: Seq<char>| a + " "@))
}

/// Renders outer attributes, each followed by a space.
pub fn attrs_string(attrs: &Vec<String>) -> (res: String)
    ensures
        res@ == attrs_text(attrs@),
{
    let n = attrs.len();
    let mut parts: Vec<String> = Vec::new();
    let mut i: usize = 0;
    while i < n
        invariant
            i <= n,
            n == attrs@.len(),
            parts@.len() == i,
            forall|j: int| 0 <= j < i ==> #[trigger] parts@[j]@ == attrs@[j]@ + " "@,
        decreases n - i,
    {
        let mut p = attrs[i].clone();
        p.append(" ");
        parts.push(p);
        i = i + 1;
    }
    assert(views(parts@) =~= views(attrs@).map_values(|a: Seq<char>| a + " "@));
    concat_strings(&parts)
}

/// The decimal digit `d` as text.
pub open spec fn digit_text(d: nat) -> Seq<char> {
    if d == 0 {
        "0"@
    } else if d == 1 {
        "1"@
    } else if d == 2 {
        "2"@
    } else if d == 3 {
        "3"@
    } else if d == 4 {
        "4"@
    } else if d == 5 {
        "5"@
    } else if d == 6 {
        "6"@
    } else if d == 7 {
        "7"@
    } else if d == 8 {
        "8"@
    } else {
        "9"@
    }
}

/// The decimal representation of `n`, without leading zeros.
pub open spec fn decimal(n: nat) -> Seq<char>
    decreases n,
{
    if n < 10 {
        digit_text(n)
    } else {
        decimal(n / 10) + digit_text(n % 10)
    }
}

fn digit_str(d: usize) -> (res: &'static str)
    requires
        d < 10,
    ensures
        res@ == digit_text(d as nat),
{
    if d == 0 {
        "0"
    } else if d == 1 {
        "1"
    } else if d == 2 {
        "2"
    } else if d == 3 {
        "3"
    } else if d == 4 {
        "4"
    } else if d == 5 {
        "5"
    } else if d == 6 {
        "6"
    } else if d == 7 {
        "7"
    } else if d == 8 {
        "8"
    } else {
        "9"
    }
}

/// Writes `n` in decimal.
pub fn decimal_string(n: usize) -> (res: String)
    ensures
        res@ == decimal(n as nat),
    decreases n,
{
    if n < 10 {
        String::from_str(digit_str(n))
    } else {
        let mut s = decimal_string(n / 10);
        s.append(digit_str(n % 10));
        s
    }
}

} // verus!
