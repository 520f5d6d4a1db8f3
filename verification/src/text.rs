use vstd::prelude::*;

verus! {

/// The pieces of `s` between single spaces, in the order and number that
/// `str::split(' ')` yields them: one piece more than there are spaces.
pub open spec fn split_spaces(s: Seq<char>) -> Seq<Seq<char>>
    decreases s.len(),
{
    if s.len() == 0 {
        seq![Seq::<char>::empty()]
    } else {
        let head = split_spaces(s.drop_last());
        if s.last() == ' ' {
            head.push(Seq::<char>::empty())
        } else {
            head.update(head.len() - 1, head.last().push(s.last()))
        }
    }
}

/// `split_spaces` always yields at least one piece.
pub proof fn lemma_split_nonempty(s: Seq<char>)
    ensures
        split_spaces(s).len() >= 1,
    decreases s.len(),
{
    if s.len() > 0 {
        lemma_split_nonempty(s.drop_last());
    }
}

/// The characters of `s`, one by one.
pub fn chars_of(s: &str) -> (out: Vec<char>)
    ensures
        out@ == s@,
{
    let n = s.unicode_len();
    let mut out: Vec<char> = Vec::new();
    let mut i: usize = 0;
    while i < n
        invariant
            n == s@.len(),
            i <= n,
            out@ == s@.take(i as int),
        decreases n - i,
    {
        let c = s.get_char(i);
        out.push(c);
        i = i + 1;
        assert(out@ =~= s@.take(i as int));
    }
    assert(out@ =~= s@);
    out
}

/// Splits a character sequence on every single space, as `str::split(' ')` does.
pub fn split_chars(s: &Vec<char>) -> (parts: Vec<Vec<char>>)
    ensures
        parts@.len() == split_spaces(s@).len(),
        forall|i: int| 0 <= i < parts@.len() ==> #[trigger] parts@[i]@ == split_spaces(s@)[i],
{
    let mut done: Vec<Vec<char>> = Vec::new();
    let mut cur: Vec<char> = Vec::new();
    let n = s.len();
    let mut i: usize = 0;
    while i < n
        invariant
            n == s@.len(),
            i <= n,
            done@.len() + 1 == split_spaces(s@.take(i as int)).len(),
            forall|k: int| 0 <= k < done@.len() ==> #[trigger] done@[k]@ == split_spaces(s@.take(i as int))[k],
            cur@ == split_spaces(s@.take(i as int))[done@.len() as int],
        decreases n - i,
    {
        let c = s[i];
        proof {
            assert(s@.take(i + 1).drop_last() =~= s@.take(i as int));
            lemma_split_nonempty(s@.take(i as int));
        }
        if c == ' ' {
            done.push(cur);
            cur = Vec::new();
        } else {
            cur.push(c);
        }
        i = i + 1;
    }
    assert(s@.take(n as int) =~= s@);
    done.push(cur);
    done
}

} // verus!

verus! {

/// The character of the decimal digit `d` (below 10).
pub open spec fn digit_char(d: nat) -> char {
    ((48 + d) as u32) as char
}

/// The decimal numeral of `n`, without sign or leading zeros.
pub open spec fn decimal(n: nat) -> Seq<char>
    decreases n,
{
    if n < 10 {
        seq![digit_char(n)]
    } else {
        decimal(n / 10).push(digit_char(n % 10))
    }
}

fn digit(d: u64) -> (c: char)
    requires
        d < 10,
    ensures
        c == digit_char(d as nat),
{
    match d {
        0 => '0',
        1 => '1',
        2 => '2',
        3 => '3',
        4 => '4',
        5 => '5',
        6 => '6',
        7 => '7',
        8 => '8',
        _ => '9',
    }
}

fn push_decimal(n: u64, out: &mut Vec<char>)
    ensures
        final(out)@ == old(out)@ + decimal(n as nat),
    decreases n,
{
    if n >= 10 {
        push_decimal(n / 10, out);
    }
    out.push(digit(n % 10));
}

/// The decimal numeral of `n`, as `format!("{}", n)` writes it.
pub fn decimal_string(n: u64) -> (s: String)
    ensures
        s@ == decimal(n as nat),
{
    let mut out: Vec<char> = Vec::new();
    push_decimal(n, &mut out);
    assert(out@ =~= decimal(n as nat));
    crate::codec::string_of(out.as_slice())
}

} // verus!

verus! {

/// `needle` occurs in `hay` as a contiguous run (the empty text occurs everywhere).
pub open spec fn occurs_in(hay: Seq<char>, needle: Seq<char>) -> bool {
    exists|i: int| 0 <= i <= hay.len() - needle.len() && #[trigger] hay.subrange(i, i + needle.len()) == needle
}

fn matches_at(hay: &Vec<char>, needle: &Vec<char>, i: usize) -> (m: bool)
    requires
        i + needle@.len() <= hay@.len(),
    ensures
        m == (hay@.subrange(i as int, i + needle@.len()) == needle@),
{
    let n = needle.len();
    let mut j: usize = 0;
    while j < n
        invariant
            n == needle@.len(),
            i + n <= hay.len(),
            hay@.len() == hay.len(),
            j <= n,
            forall|k: int| 0 <= k < j ==> hay@[i + k] == needle@[k],
        decreases n - j,
    {
        if hay[i + j] != needle[j] {
            assert(hay@.subrange(i as int, i + n)[j as int] != needle@[j as int]);
            return false;
        }
        j = j + 1;
    }
    assert(hay@.subrange(i as int, i + n) =~= needle@);
    true
}

/// Whether `needle` occurs in `hay`, as `str::contains` answers it.
pub fn contains_text(hay: &str, needle: &str) -> (found: bool)
    ensures
        found == occurs_in(hay@, needle@),
{
    let h = chars_of(hay);
    let n = chars_of(needle);
    if n.len() > h.len() {
        assert forall|i: int| 0 <= i <= h@.len() - n@.len() implies #[trigger] h@.subrange(i, i + n@.len()) != n@ by {
        }
        return false;
    }
    let last = h.len() - n.len();
    let mut i: usize = 0;
    loop
        invariant
            h@ == hay@,
            n@ == needle@,
            last == h@.len() - n@.len(),
            i <= last,
            forall|k: int| 0 <= k < i ==> #[trigger] h@.subrange(k, k + n@.len()) != n@,
        decreases last - i,
    {
        if matches_at(&h, &n, i) {
            return true;
        }
        if i == last {
            return false;
        }
        i = i + 1;
    }
}

} // verus!

verus! {

/// Appending text without spaces to `s` extends the last piece of `s`.
pub proof fn lemma_split_append_plain(s: Seq<char>, t: Seq<char>)
    requires
        !t.contains(' '),
    ensures
        split_spaces(s + t) == split_spaces(s).update(split_spaces(s).len() - 1, split_spaces(s).last() + t),
    decreases t.len(),
{
    lemma_split_nonempty(s);
    if t.len() == 0 {
        assert(s + t =~= s);
        assert(split_spaces(s).last() + t =~= split_spaces(s).last());
        assert(split_spaces(s).update(split_spaces(s).len() - 1, split_spaces(s).last()) =~= split_spaces(s));
    } else {
        let u = t.drop_last();
        assert(!u.contains(' ')) by {
            if u.contains(' ') {
                let i = choose|i: int| 0 <= i < u.len() && u[i] == ' ';
                assert(t[i] == ' ');
            }
        }
        assert(t.last() != ' ') by {
            assert(t[t.len() - 1] == t.last());
        }
        lemma_split_append_plain(s, u);
        assert((s + t).drop_last() =~= s + u);
        assert((s + t).last() == t.last());
        assert((split_spaces(s).last() + u).push(t.last()) =~= split_spaces(s).last() + t);
        assert(split_spaces(s + t) =~= split_spaces(s).update(split_spaces(s).len() - 1, split_spaces(s).last() + t));
    }
}

/// Three pieces without spaces, joined by single spaces, split back into
/// themselves.
pub proof fn lemma_split_three(a: Seq<char>, b: Seq<char>, c: Seq<char>)
    requires
        !a.contains(' '),
        !b.contains(' '),
        !c.contains(' '),
    ensures
        split_spaces(a + seq![' '] + b + seq![' '] + c) == seq![a, b, c],
{
    let e = Seq::<char>::empty();
    lemma_split_append_plain(e, a);
    assert(e + a =~= a);
    assert(split_spaces(a) =~= seq![a]);
    let a1 = a + seq![' '];
    assert(a1.drop_last() =~= a);
    assert(split_spaces(a1) =~= seq![a, e]);
    lemma_split_append_plain(a1, b);
    assert(split_spaces(a1 + b) =~= seq![a, b]);
    let b1 = a1 + b + seq![' '];
    assert(b1.drop_last() =~= a1 + b);
    assert(split_spaces(b1) =~= seq![a, b, e]);
    lemma_split_append_plain(b1, c);
    assert(split_spaces(b1 + c) =~= seq![a, b, c]);
}

} // verus!
