use vstd::prelude::*;

verus! {

/// Whether `needle` stands in `hay` at position `i`.
pub open spec fn occurs_at(needle: Seq<char>, hay: Seq<char>, i: int) -> bool {
    &&& 0 <= i
    &&& i + needle.len() <= hay.len()
    &&& hay.subrange(i, i + needle.len()) == needle
}

/// Whether `needle` occurs in `hay` as a contiguous run of characters.
/// The comparison is exact: no case folding and no normalisation.
pub open spec fn is_substring(needle: Seq<char>, hay: Seq<char>) -> bool {
    exists|i: int| occurs_at(needle, hay, i)
}

/// The empty text occurs in every text.
pub proof fn lemma_empty_is_substring(hay: Seq<char>)
    ensures
        is_substring(Seq::<char>::empty(), hay),
{
    assert(hay.subrange(0, 0) =~= Seq::<char>::empty());
    assert(occurs_at(Seq::<char>::empty(), hay, 0));
}

/// The characters of a string, in order.
pub fn chars_of(s: &str) -> (r: Vec<char>)
    ensures
        r@ == s@,
{
    let n: usize = s.unicode_len();
    let mut r: Vec<char> = Vec::new();
    let mut i: usize = 0;
    while i < n
        invariant
            n == s@.len(),
            i <= n,
            r@ == s@.subrange(0, i as int),
        decreases n - i,
    {
        let c = s.get_char(i);
        r.push(c);
        assert(r@ =~= s@.subrange(0, i + 1));
        i = i + 1;
    }
    assert(r@ =~= s@);
    r
}

/// Whether `needle` stands in `hay` at position `start`.
fn matches_at(hay: &Vec<char>, needle: &Vec<char>, start: usize) -> (r: bool)
    requires
        start + needle@.len() <= hay@.len(),
    ensures
        r == occurs_at(needle@, hay@, start as int),
{
    let n: usize = hay.len();
    let m: usize = needle.len();
    let mut j: usize = 0;
    while j < m
        invariant
            n == hay@.len(),
            m == needle@.len(),
            j <= m,
            start + m <= n,
            forall|k: int| 0 <= k < j ==> hay@[start + k] == needle@[k],
        decreases m - j,
    {
        if hay[start + j] != needle[j] {
            proof {
                let window = hay@.subrange(start as int, start + m);
                assert(window[j as int] == hay@[start + j]);
            }
            return false;
        }
        j = j + 1;
    }
    assert(hay@.subrange(start as int, start + m) =~= needle@);
    true
}

/// Whether `hay` contains `needle`, character for character.
pub fn contains(hay: &str, needle: &str) -> (r: bool)
    ensures
        r == is_substring(needle@, hay@),
{
    let h = chars_of(hay);
    let p = chars_of(needle);
    if p.len() > h.len() {
        return false;
    }
    let last: usize = h.len() - p.len();
    let mut i: usize = 0;
    while i < last
        invariant
            h@ == hay@,
            p@ == needle@,
            last == h@.len() - p@.len(),
            i <= last,
            forall|k: int| 0 <= k < i ==> !occurs_at(p@, h@, k),
        decreases last - i,
    {
        if matches_at(&h, &p, i) {
            return true;
        }
        i = i + 1;
    }
    matches_at(&h, &p, last)
}

/// The character that writes the digit `d`.
pub open spec fn digit_char(d: nat) -> char {
    if d == 0 {
        '0'
    } else if d == 1 {
        '1'
    } else if d == 2 {
        '2'
    } else if d == 3 {
        '3'
    } else if d == 4 {
        '4'
    } else if d == 5 {
        '5'
    } else if d == 6 {
        '6'
    } else if d == 7 {
        '7'
    } else if d == 8 {
        '8'
    } else {
        '9'
    }
}

/// The digit that `c` writes; zero for a character that writes none.
pub open spec fn digit_value(c: char) -> nat {
    if c == '1' {
        1
    } else if c == '2' {
        2
    } else if c == '3' {
        3
    } else if c == '4' {
        4
    } else if c == '5' {
        5
    } else if c == '6' {
        6
    } else if c == '7' {
        7
    } else if c == '8' {
        8
    } else if c == '9' {
        9
    } else {
        0
    }
}

/// Whether `c` is one of the ten decimal digits.
pub open spec fn is_digit(c: char) -> bool {
    c == digit_char(digit_value(c))
}

/// The decimal numeral of `n`: most significant digit first, no sign, no
/// padding, and a single `0` for zero.
pub open spec fn decimal(n: nat) -> Seq<char>
    decreases n,
{
    if n < 10 {
        seq![digit_char(n)]
    } else {
        decimal(n / 10).push(digit_char(n % 10))
    }
}

/// The number that a run of decimal digits writes.
pub open spec fn decimal_value(s: Seq<char>) -> nat
    decreases s.len(),
{
    if s.len() == 0 {
        0
    } else {
        decimal_value(s.drop_last()) * 10 + digit_value(s.last())
    }
}

/// A decimal numeral is made of digits only, so it holds no whitespace and no
/// sign, and reading it back gives the number it was written from.
pub proof fn lemma_decimal_reads_back(n: nat)
    ensures
        decimal(n).len() >= 1,
        forall|i: int| 0 <= i < decimal(n).len() ==> is_digit(#[trigger] decimal(n)[i]),
        decimal_value(decimal(n)) == n,
    decreases n,
{
    if n < 10 {
        let s = seq![digit_char(n)];
        assert(s.drop_last() =~= Seq::<char>::empty());
        assert(decimal_value(s.drop_last()) == 0);
        assert(s.last() == digit_char(n));
    } else {
        lemma_decimal_reads_back(n / 10);
        let head = decimal(n / 10);
        let s = head.push(digit_char(n % 10));
        assert(s.drop_last() =~= head);
        assert(s.last() == digit_char(n % 10));
        assert(digit_value(digit_char(n % 10)) == n % 10);
        assert forall|i: int| 0 <= i < s.len() implies is_digit(#[trigger] s[i]) by {
            if i < head.len() {
                assert(s[i] == head[i]);
            }
        }
    }
}

/// The one-character text that writes the digit `d`.
fn digit_text(d: u32) -> (r: &'static str)
    requires
        d < 10,
    ensures
        r@ == seq![digit_char(d as nat)],
{
    proof {
        reveal_strlit("0");
        reveal_strlit("1");
        reveal_strlit("2");
        reveal_strlit("3");
        reveal_strlit("4");
        reveal_strlit("5");
        reveal_strlit("6");
        reveal_strlit("7");
        reveal_strlit("8");
        reveal_strlit("9");
    }
    let r = if d == 0 {
        "0"
    } else if d == 1 {
        "1"
    } else if d == 2 {
        "2"
    } else if d == 3 {
        "3"
    } else if d == 4 {
        "4"
    } else if d == 5 {
        "5"
    } else if d == 6 {
        "6"
    } else if d == 7 {
        "7"
    } else if d == 8 {
        "8"
    } else {
        "9"
    };
    assert(r@ =~= seq![digit_char(d as nat)]);
    r
}

/// Writes `n` as a decimal numeral.
pub fn decimal_string(n: u32) -> (r: String)
    ensures
        r@ == decimal(n as nat),
    decreases n,
{
    if n < 10 {
        String::from_str(digit_text(n))
    } else {
        let mut r = decimal_string(n / 10);
        r.append(digit_text(n % 10));
        assert(r@ =~= decimal((n / 10) as nat).push(digit_char((n % 10) as nat)));
        r
    }
}

/// The texts of a list of strings, in order.
pub open spec fn texts(v: Seq<String>) -> Seq<Seq<char>> {
    v.map_values(|s: String| s@)
}

/// The text of an optional string.
pub open spec fn opt_text(o: Option<String>) -> Option<Seq<char>> {
    match o {
        Some(s) => Some(s@),
        None => None,
    }
}

/// Those of `names` that contain `filter`, in the order in which they stand
/// in `names`.
pub open spec fn matching(names: Seq<Seq<char>>, filter: Seq<char>) -> Seq<Seq<char>> {
    names.filter(|n: Seq<char>| is_substring(filter, n))
}

/// Copies out those of `names` that contain `filter`, keeping their order.
pub fn matching_names(names: &Vec<String>, filter: &str) -> (r: Vec<String>)
    ensures
        texts(r@) == matching(texts(names@), filter@),
{
    let ghost pred = |n: Seq<char>| is_substring(filter@, n);
    let ghost all = texts(names@);
    let n: usize = names.len();
    let mut r: Vec<String> = Vec::new();
    let mut i: usize = 0;
    proof {
        reveal(Seq::filter);
        assert(all.take(0) =~= Seq::<Seq<char>>::empty());
        assert(texts(r@) =~= all.take(0).filter(pred));
    }
    while i < n
        invariant
            n == names@.len(),
            i <= n,
            all == texts(names@),
            pred == (|n: Seq<char>| is_substring(filter@, n)),
            texts(r@) == all.take(i as int).filter(pred),
        decreases n - i,
    {
        let ghost before = r@;
        let keep = contains(names[i].as_str(), filter);
        proof {
            assert(all.take(i + 1) =~= all.take(i as int).push(all[i as int]));
            all.take(i as int).lemma_filter_push(all[i as int], pred);
            assert(pred(all[i as int]) == keep);
        }
        if keep {
            r.push(names[i].clone());
            assert(texts(r@) =~= texts(before).push(all[i as int]));
        }
        i = i + 1;
    }
    assert(all.take(n as int) =~= all);
    r
}

/// Whether `at` gives, for each item of `sub`, a position in `all` at which
/// that item stands, the positions rising from each item to the next.
pub open spec fn embeds(sub: Seq<Seq<char>>, all: Seq<Seq<char>>, at: Seq<int>) -> bool {
    &&& at.len() == sub.len()
    &&& forall|k: int|
        0 <= k < sub.len() ==> 0 <= #[trigger] at[k] < all.len() && all[at[k]] == sub[k]
    &&& forall|j: int, k: int| 0 <= j < k < sub.len() ==> at[j] < at[k]
}

/// Whether `sub` is made of items of `all`, each taken once, in the order in
/// which they stand in `all`.
pub open spec fn keeps_order(sub: Seq<Seq<char>>, all: Seq<Seq<char>>) -> bool {
    exists|at: Seq<int>| embeds(sub, all, at)
}

/// A list stands in its own order.
pub proof fn lemma_keeps_own_order(names: Seq<Seq<char>>)
    ensures
        keeps_order(names, names),
{
    let at = Seq::new(names.len(), |k: int| k);
    assert(embeds(names, names, at));
}

/// With the empty filter every name matches: the list comes back whole.
pub proof fn lemma_matching_empty_filter(names: Seq<Seq<char>>)
    ensures
        matching(names, Seq::<char>::empty()) == names,
    decreases names.len(),
{
    reveal(Seq::filter);
    if names.len() > 0 {
        lemma_matching_empty_filter(names.drop_last());
        lemma_empty_is_substring(names.last());
        assert(names.drop_last().push(names.last()) =~= names);
    }
}

/// What matches is exactly what contains the filter: every name that is
/// offered contains it, and every name that contains it is offered.
pub proof fn lemma_matching_sound_and_complete(names: Seq<Seq<char>>, filter: Seq<char>)
    ensures
        forall|i: int|
            0 <= i < matching(names, filter).len() ==> is_substring(
                filter,
                #[trigger] matching(names, filter)[i],
            ),
        forall|i: int|
            0 <= i < names.len() && is_substring(filter, names[i]) ==> matching(
                names,
                filter,
            ).contains(#[trigger] names[i]),
{
    let pred = |n: Seq<char>| is_substring(filter, n);
    let found = matching(names, filter);
    assert forall|i: int| 0 <= i < found.len() implies is_substring(
        filter,
        #[trigger] found[i],
    ) by {
        names.lemma_filter_pred(pred, i);
    }
    assert forall|i: int|
        0 <= i < names.len() && is_substring(filter, names[i]) implies found.contains(
        #[trigger] names[i],
    ) by {
        names.lemma_filter_contains(pred, i);
    }
}

/// What matches stands in the order of the list that was filtered.
pub proof fn lemma_matching_keeps_order(names: Seq<Seq<char>>, filter: Seq<char>)
    ensures
        keeps_order(matching(names, filter), names),
    decreases names.len(),
{
    reveal(Seq::filter);
    let found = matching(names, filter);
    if names.len() == 0 {
        assert(embeds(found, names, Seq::<int>::empty()));
    } else {
        let shorter = names.drop_last();
        lemma_matching_keeps_order(shorter, filter);
        let at = choose|at: Seq<int>| embeds(matching(shorter, filter), shorter, at);
        if is_substring(filter, names.last()) {
            let longer = at.push(names.len() - 1);
            assert forall|k: int| 0 <= k < found.len() implies 0 <= #[trigger] longer[k]
                < names.len() && names[longer[k]] == found[k] by {
                if k < at.len() {
                    assert(longer[k] == at[k]);
                    assert(shorter[at[k]] == names[at[k]]);
                }
            }
            assert forall|j: int, k: int| 0 <= j < k < found.len() implies longer[j]
                < longer[k] by {
                assert(longer[j] == at[j]);
                if k < at.len() {
                    assert(longer[k] == at[k]);
                }
            }
            assert(embeds(found, names, longer));
        } else {
            assert forall|k: int| 0 <= k < found.len() implies 0 <= #[trigger] at[k]
                < names.len() && names[at[k]] == found[k] by {
                assert(shorter[at[k]] == names[at[k]]);
            }
            assert(embeds(found, names, at));
        }
    }
}

} // verus!
