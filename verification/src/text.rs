//! Searching and slicing text, modelled as sequences of characters.
//!
//! Positions are character positions. Every search is specified by a predicate that
//! has at most one solution, so a contract that names a position pins it down.

use vstd::prelude::*;
use vstd::string::*;

verus! {

/// `pat` stands in `s` at position `i`.
pub open spec fn occurs_at(s: Seq<char>, pat: Seq<char>, i: int) -> bool {
    &&& 0 <= i
    &&& i + pat.len() <= s.len()
    &&& s.subrange(i, i + pat.len()) == pat
}

/// `i` is the leftmost position at which `pat` stands in `s`.
pub open spec fn is_first_occurrence(s: Seq<char>, pat: Seq<char>, i: int) -> bool {
    &&& occurs_at(s, pat, i)
    &&& forall|j: int| 0 <= j < i ==> !occurs_at(s, pat, j)
}

/// The leftmost position at which `pat` stands in `s`, if it stands anywhere.
pub open spec fn first_occurrence(s: Seq<char>, pat: Seq<char>) -> Option<int> {
    if exists|i: int| is_first_occurrence(s, pat, i) {
        Some(choose|i: int| is_first_occurrence(s, pat, i))
    } else {
        None
    }
}

/// `i` is the leftmost position at or after `from` that holds `c`.
pub open spec fn is_first_index_from(s: Seq<char>, c: char, from: int, i: int) -> bool {
    &&& 0 <= from <= i < s.len()
    &&& s[i] == c
    &&& forall|j: int| from <= j < i ==> s[j] != c
}

/// The leftmost position at or after `from` that holds `c`, if there is one.
pub open spec fn first_index_from(s: Seq<char>, c: char, from: int) -> Option<int> {
    if exists|i: int| is_first_index_from(s, c, from, i) {
        Some(choose|i: int| is_first_index_from(s, c, from, i))
    } else {
        None
    }
}

/// `i` is the rightmost position that holds `c`.
pub open spec fn is_last_index(s: Seq<char>, c: char, i: int) -> bool {
    &&& 0 <= i < s.len()
    &&& s[i] == c
    &&& forall|j: int| i < j < s.len() ==> s[j] != c
}

/// The rightmost position that holds `c`, if there is one.
pub open spec fn last_index(s: Seq<char>, c: char) -> Option<int> {
    if exists|i: int| is_last_index(s, c, i) {
        Some(choose|i: int| is_last_index(s, c, i))
    } else {
        None
    }
}

/// A leftmost occurrence is the value of `first_occurrence`.
pub proof fn lemma_first_occurrence_is(s: Seq<char>, pat: Seq<char>, i: int)
    requires
        is_first_occurrence(s, pat, i),
    ensures
        first_occurrence(s, pat) == Some(i),
{
    let j = choose|j: int| is_first_occurrence(s, pat, j);
    assert(j == i) by {
        if j < i {
            assert(!occurs_at(s, pat, j));
        } else if i < j {
            assert(!occurs_at(s, pat, i));
        }
    }
}

/// The value of `first_occurrence` is a leftmost occurrence.
pub proof fn lemma_first_occurrence_some(s: Seq<char>, pat: Seq<char>)
    ensures
        first_occurrence(s, pat) matches Some(i) ==> is_first_occurrence(s, pat, i),
        first_occurrence(s, pat) is None ==> forall|j: int| !occurs_at(s, pat, j),
{
    if first_occurrence(s, pat) is None {
        assert forall|j: int| !occurs_at(s, pat, j) by {
            if occurs_at(s, pat, j) {
                lemma_first_occurrence_exists(s, pat, j);
            }
        }
    }
}

/// Where `pat` stands at `k`, it has a leftmost occurrence, at `k` or before.
pub proof fn lemma_first_occurrence_exists(s: Seq<char>, pat: Seq<char>, k: int)
    requires
        occurs_at(s, pat, k),
    ensures
        first_occurrence(s, pat) matches Some(i) && i <= k,
    decreases k,
{
    if exists|j: int| 0 <= j < k && occurs_at(s, pat, j) {
        let j = choose|j: int| 0 <= j < k && occurs_at(s, pat, j);
        lemma_first_occurrence_exists(s, pat, j);
    } else {
        assert(is_first_occurrence(s, pat, k));
        lemma_first_occurrence_is(s, pat, k);
    }
}

/// Where `pat` stands nowhere, `first_occurrence` has no value.
pub proof fn lemma_first_occurrence_none(s: Seq<char>, pat: Seq<char>)
    requires
        forall|j: int| !occurs_at(s, pat, j),
    ensures
        first_occurrence(s, pat) is None,
{
}

/// A leftmost position from `from` is the value of `first_index_from`.
pub proof fn lemma_first_index_from_is(s: Seq<char>, c: char, from: int, i: int)
    requires
        is_first_index_from(s, c, from, i),
    ensures
        first_index_from(s, c, from) == Some(i),
{
    let j = choose|j: int| is_first_index_from(s, c, from, j);
    assert(j == i) by {
        if j < i {
            assert(s[j] != c);
        } else if i < j {
            assert(s[i] != c);
        }
    }
}

/// The value of `first_index_from` is a leftmost position from `from`.
pub proof fn lemma_first_index_from_some(s: Seq<char>, c: char, from: int)
    ensures
        first_index_from(s, c, from) matches Some(i) ==> is_first_index_from(s, c, from, i),
{
}

/// Where no position from `from` on holds `c`, `first_index_from` has no value.
pub proof fn lemma_first_index_from_none(s: Seq<char>, c: char, from: int)
    requires
        forall|j: int| from <= j < s.len() ==> s[j] != c,
    ensures
        first_index_from(s, c, from) is None,
{
}

/// A rightmost position is the value of `last_index`.
pub proof fn lemma_last_index_is(s: Seq<char>, c: char, i: int)
    requires
        is_last_index(s, c, i),
    ensures
        last_index(s, c) == Some(i),
{
    let j = choose|j: int| is_last_index(s, c, j);
    assert(j == i) by {
        if j < i {
            assert(s[i] != c);
        } else if i < j {
            assert(s[j] != c);
        }
    }
}

/// The value of `last_index` is a rightmost position.
pub proof fn lemma_last_index_some(s: Seq<char>, c: char)
    ensures
        last_index(s, c) matches Some(i) ==> is_last_index(s, c, i),
{
}

/// Where no position holds `c`, `last_index` has no value.
pub proof fn lemma_last_index_none(s: Seq<char>, c: char)
    requires
        !s.contains(c),
    ensures
        last_index(s, c) is None,
{
    assert forall|i: int| !is_last_index(s, c, i) by {
        if 0 <= i < s.len() && s[i] == c {
            assert(s.contains(c));
        }
    }
}

/// Copies the characters of `s` into a vector, so that they can be indexed in constant time.
pub fn to_chars(s: &str) -> (v: Vec<char>)
    ensures
        v@ == s@,
{
    let mut v: Vec<char> = Vec::new();
    for c in it: s.chars()
        invariant
            it.seq() == s@,
            v@ == s@.subrange(0, it.index() as int),
    {
        v.push(c);
        assert(v@ =~= s@.subrange(0, it.index() + 1));
    }
    assert(s@.subrange(0, s@.len() as int) =~= s@);
    v
}

/// Whether `pat` stands in `hay` at position `i`.
pub fn stands_at(hay: &Vec<char>, pat: &Vec<char>, i: usize) -> (b: bool)
    requires
        i + pat.len() <= hay.len(),
    ensures
        b == occurs_at(hay@, pat@, i as int),
{
    let m: usize = pat.len();
    let mut k: usize = 0;
    while k < m
        invariant
            m == pat.len(),
            i + m <= hay.len(),
            k <= m,
            forall|t: int| 0 <= t < k ==> hay@[i + t] == pat@[t],
        decreases m - k,
    {
        if hay[i + k] != pat[k] {
            proof {
                let sub = hay@.subrange(i as int, i + m);
                assert(sub[k as int] == hay@[i + k]);
            }
            return false;
        }
        k = k + 1;
    }
    assert(hay@.subrange(i as int, i + m) =~= pat@);
    true
}

/// The leftmost position at which `pat` stands in `hay`.
pub fn find(hay: &Vec<char>, pat: &Vec<char>) -> (r: Option<usize>)
    ensures
        match r {
            Some(i) => first_occurrence(hay@, pat@) == Some(i as int),
            None => first_occurrence(hay@, pat@) is None,
        },
{
    let n: usize = hay.len();
    let m: usize = pat.len();
    if m > n {
        proof {
            lemma_first_occurrence_none(hay@, pat@);
        }
        return None;
    }
    let last: usize = n - m;
    let mut i: usize = 0;
    while i < last
        invariant
            n == hay.len(),
            m == pat.len(),
            last == n - m,
            i <= last,
            forall|j: int| 0 <= j < i ==> !occurs_at(hay@, pat@, j),
        decreases last - i,
    {
        if stands_at(hay, pat, i) {
            proof {
                lemma_first_occurrence_is(hay@, pat@, i as int);
            }
            return Some(i);
        }
        i = i + 1;
    }
    if stands_at(hay, pat, last) {
        proof {
            lemma_first_occurrence_is(hay@, pat@, last as int);
        }
        return Some(last);
    }
    proof {
        lemma_first_occurrence_none(hay@, pat@);
    }
    None
}

/// The leftmost position at or after `from` that holds `c`.
pub fn find_char_from(hay: &Vec<char>, c: char, from: usize) -> (r: Option<usize>)
    requires
        from <= hay.len(),
    ensures
        match r {
            Some(i) => first_index_from(hay@, c, from as int) == Some(i as int),
            None => first_index_from(hay@, c, from as int) is None,
        },
{
    let n: usize = hay.len();
    let mut i: usize = from;
    while i < n
        invariant
            n == hay.len(),
            from <= i <= n,
            forall|j: int| from <= j < i ==> hay@[j] != c,
        decreases n - i,
    {
        if hay[i] == c {
            proof {
                lemma_first_index_from_is(hay@, c, from as int, i as int);
            }
            return Some(i);
        }
        i = i + 1;
    }
    proof {
        lemma_first_index_from_none(hay@, c, from as int);
    }
    None
}

/// The rightmost position that holds `c`.
pub fn rfind_char(hay: &Vec<char>, c: char) -> (r: Option<usize>)
    ensures
        match r {
            Some(i) => last_index(hay@, c) == Some(i as int),
            None => last_index(hay@, c) is None,
        },
{
    let n: usize = hay.len();
    let mut i: usize = n;
    while i > 0
        invariant
            n == hay.len(),
            i <= n,
            forall|j: int| i <= j < n ==> hay@[j] != c,
        decreases i,
    {
        i = i - 1;
        if hay[i] == c {
            proof {
                lemma_last_index_is(hay@, c, i as int);
            }
            return Some(i);
        }
    }
    proof {
        assert(!hay@.contains(c));
        lemma_last_index_none(hay@, c);
    }
    None
}

/// Whether `s` holds the character `c`.
pub fn contains_char(s: &str, c: char) -> (b: bool)
    ensures
        b == s@.contains(c),
{
    let v = to_chars(s);
    match find_char_from(&v, c, 0) {
        Some(i) => {
            assert(v@[i as int] == c);
            true
        },
        None => {
            assert forall|j: int| 0 <= j < v@.len() implies v@[j] != c by {
                if v@[j] == c {
                    // the leftmost such position would be a value of `first_index_from`
                    lemma_some_index_from(v@, c, 0, j);
                }
            }
            false
        },
    }
}

/// Where some position from `from` on holds `c`, there is a leftmost one.
pub proof fn lemma_some_index_from(s: Seq<char>, c: char, from: int, k: int)
    requires
        0 <= from <= k < s.len(),
        s[k] == c,
    ensures
        first_index_from(s, c, from) is Some,
    decreases k - from,
{
    if s[from] == c {
        assert(is_first_index_from(s, c, from, from));
    } else {
        let next = from + 1;
        lemma_some_index_from(s, c, next, k);
        let i = choose|i: int| is_first_index_from(s, c, next, i);
        assert(is_first_index_from(s, c, from, i));
    }
}

/// The text `a` followed by `b` and `c`.
pub fn join3(a: &str, b: &str, c: &str) -> (r: String)
    ensures
        r@ == a@ + b@ + c@,
{
    let mut r = String::from_str(a);
    r.append(b);
    r.append(c);
    r
}

/// `s` with the characters from `from` up to `to` replaced by `with`.
pub fn splice(s: &str, from: usize, to: usize, with: &str) -> (r: String)
    requires
        from <= to <= s@.len(),
    ensures
        r@ == s@.subrange(0, from as int) + with@ + s@.subrange(to as int, s@.len() as int),
{
    let n: usize = s.unicode_len();
    let head = s.substring_char(0, from);
    let tail = s.substring_char(to, n);
    join3(head, with, tail)
}

/// The character that writes the digit `d`.
pub open spec fn digit(d: nat) -> char {
    if d == 0 {
        '0'
    } else if d == 1 {
        '1'
    } else if d == 2 {
        '2'
    } else if d == 3 {
        '3'
    } else if d == 4 {
        '4'
    } else if d == 5 {
        '5'
    } else if d == 6 {
        '6'
    } else if d == 7 {
        '7'
    } else if d == 8 {
        '8'
    } else {
        '9'
    }
}

/// `n` written in base ten, without leading zeros.
pub open spec fn decimal(n: nat) -> Seq<char>
    decreases n,
{
    if n < 10 {
        seq![digit(n)]
    } else {
        decimal(n / 10).push(digit(n % 10))
    }
}

/// `b` written as `true` or `false`.
pub open spec fn bool_text(b: bool) -> Seq<char> {
    if b {
        "true"@
    } else {
        "false"@
    }
}

/// The one-character text of a digit.
fn digit_text(d: u32) -> (r: &'static str)
    requires
        d < 10,
    ensures
        r@ == seq![digit(d as nat)],
{
    proof {
        reveal_strlit("0");
        reveal_strlit("1");
        reveal_strlit("2");
        reveal_strlit("3");
        reveal_strlit("4");
        reveal_strlit("5");
        reveal_strlit("6");
        reveal_strlit("7");
        reveal_strlit("8");
        reveal_strlit("9");
    }
    let r = if d == 0 {
        "0"
    } else if d == 1 {
        "1"
    } else if d == 2 {
        "2"
    } else if d == 3 {
        "3"
    } else if d == 4 {
        "4"
    } else if d == 5 {
        "5"
    } else if d == 6 {
        "6"
    } else if d == 7 {
        "7"
    } else if d == 8 {
        "8"
    } else {
        "9"
    };
    assert(r@ =~= seq![digit(d as nat)]);
    r
}

/// Writes `n` in base ten.
pub fn decimal_text(n: u32) -> (r: String)
    ensures
        r@ == decimal(n as nat),
    decreases n,
{
    if n < 10 {
        String::from_str(digit_text(n))
    } else {
        let mut r = decimal_text(n / 10);
        r.append(digit_text(n % 10));
        assert(r@ =~= decimal((n / 10) as nat).push(digit((n % 10) as nat)));
        r
    }
}

/// Writes `b` as `true` or `false`.
pub fn bool_str(b: bool) -> (r: &'static str)
    ensures
        r@ == bool_text(b),
{
    if b {
        "true"
    } else {
        "false"
    }
}

/// `String::push` of the standard library: the character is appended to the text.
pub assume_specification[ String::push ](s: &mut String, c: char)
    ensures
        final(s)@ == old(s)@.push(c),
;

/// The characters of `chars` from `from` up to `to`, as a text.
pub fn text_of(chars: &Vec<char>, from: usize, to: usize) -> (r: String)
    requires
        from <= to <= chars.len(),
    ensures
        r@ == chars@.subrange(from as int, to as int),
{
    let mut r = String::new();
    let mut i: usize = from;
    while i < to
        invariant
            from <= i <= to <= chars.len(),
            r@ == chars@.subrange(from as int, i as int),
        decreases to - i,
    {
        r.push(chars[i]);
        i = i + 1;
        assert(r@ =~= chars@.subrange(from as int, i as int));
    }
    r
}

/// Whether `c` is white space, as `char::is_whitespace` of the standard library finds
/// it: by the Unicode property White_Space.
pub uninterp spec fn white_space(c: char) -> bool;

/// `char::is_whitespace` of the standard library. Its answer depends on the character
/// alone, and is given the name `white_space`; nothing else is claimed.
pub assume_specification[ char::is_whitespace ](c: char) -> (b: bool)
    ensures
        b == white_space(c),
;

/// `s` without the white space it begins with.
pub open spec fn trim_start(s: Seq<char>) -> Seq<char>
    decreases s.len(),
{
    if s.len() > 0 && white_space(s[0]) {
        trim_start(s.drop_first())
    } else {
        s
    }
}

/// `s` without the white space it ends with.
pub open spec fn trim_end(s: Seq<char>) -> Seq<char>
    decreases s.len(),
{
    if s.len() > 0 && white_space(s.last()) {
        trim_end(s.drop_last())
    } else {
        s
    }
}

/// `s` without the white space at either end.
pub open spec fn trimmed(s: Seq<char>) -> Seq<char> {
    trim_end(trim_start(s))
}

/// Where the part of `chars` from `from` up to `to` begins and ends once the white
/// space at either end is left out.
pub fn trim_range(chars: &Vec<char>, from: usize, to: usize) -> (r: (usize, usize))
    requires
        from <= to <= chars.len(),
    ensures
        from <= r.0 <= r.1 <= to,
        chars@.subrange(r.0 as int, r.1 as int) == trimmed(
            chars@.subrange(from as int, to as int),
        ),
{
    let mut a: usize = from;
    while a < to && chars[a].is_whitespace()
        invariant
            from <= a <= to <= chars.len(),
            trim_start(chars@.subrange(from as int, to as int)) == trim_start(
                chars@.subrange(a as int, to as int),
            ),
        decreases to - a,
    {
        assert(chars@.subrange(a as int, to as int).drop_first() =~= chars@.subrange(
            a + 1,
            to as int,
        ));
        a = a + 1;
    }
    let mut b: usize = to;
    while a < b && chars[b - 1].is_whitespace()
        invariant
            a <= b <= to <= chars.len(),
            trim_end(chars@.subrange(a as int, to as int)) == trim_end(
                chars@.subrange(a as int, b as int),
            ),
        decreases b - a,
    {
        assert(chars@.subrange(a as int, b as int).drop_last() =~= chars@.subrange(
            a as int,
            b - 1,
        ));
        b = b - 1;
    }
    (a, b)
}

/// Where the piece of `s` that begins at `from` ends, when `s` is cut at every
/// `sep`: at the next `sep`, or at the end of `s`.
pub open spec fn piece_end(s: Seq<char>, sep: char, from: int) -> int {
    match first_index_from(s, sep, from) {
        Some(i) => i,
        None => s.len() as int,
    }
}

/// The piece number `k`, counted from 0, of those that `s` falls into when it is cut
/// at every `sep`; nothing where there are `k` pieces or fewer. A text without `sep`
/// is one piece, and so is the empty text.
pub open spec fn piece(s: Seq<char>, sep: char, k: nat) -> Option<Seq<char>>
    decreases k,
{
    let end = piece_end(s, sep, 0);
    if k == 0 {
        Some(s.subrange(0, end))
    } else if end == s.len() {
        None
    } else {
        piece(s.subrange(end + 1, s.len() as int), sep, (k - 1) as nat)
    }
}

/// Cutting the rest of a text from `from` on is cutting the text from `from` on.
pub proof fn lemma_piece_end_of_rest(s: Seq<char>, sep: char, from: int)
    requires
        0 <= from <= s.len(),
    ensures
        piece_end(s.subrange(from, s.len() as int), sep, 0) + from == piece_end(s, sep, from),
        from <= piece_end(s, sep, from) <= s.len(),
{
    let rest = s.subrange(from, s.len() as int);
    lemma_first_index_from_some(rest, sep, 0);
    lemma_first_index_from_some(s, sep, from);
    match first_index_from(s, sep, from) {
        Some(i) => {
            assert(is_first_index_from(rest, sep, 0, i - from)) by {
                assert(rest[i - from] == s[i]);
                assert forall|j: int| 0 <= j < i - from implies rest[j] != sep by {
                    assert(rest[j] == s[j + from]);
                }
            }
            lemma_first_index_from_is(rest, sep, 0, i - from);
        },
        None => {
            if first_index_from(rest, sep, 0) is Some {
                let k = first_index_from(rest, sep, 0)->0;
                assert(rest[k] == s[k + from]);
                lemma_some_index_from(s, sep, from, k + from);
            }
        },
    }
}

/// Where the piece of `chars` that begins at `from` ends.
pub fn find_piece_end(chars: &Vec<char>, sep: char, from: usize) -> (end: usize)
    requires
        from <= chars.len(),
    ensures
        end == piece_end(chars@, sep, from as int),
        from <= end <= chars.len(),
{
    proof {
        lemma_first_index_from_some(chars@, sep, from as int);
    }
    match find_char_from(chars, sep, from) {
        Some(i) => i,
        None => chars.len(),
    }
}

/// The piece number `k` of `chars` when cut at every `sep`.
pub fn piece_text(chars: &Vec<char>, sep: char, k: usize) -> (r: Option<String>)
    ensures
        match piece(chars@, sep, k as nat) {
            Some(p) => r matches Some(t) && t@ == p,
            None => r is None,
        },
{
    let n: usize = chars.len();
    let mut from: usize = 0;
    let mut left: usize = k;
    assert(chars@.subrange(0, n as int) =~= chars@);
    loop
        invariant
            n == chars.len(),
            from <= n,
            left <= k,
            piece(chars@, sep, k as nat) == piece(
                chars@.subrange(from as int, n as int),
                sep,
                left as nat,
            ),
        decreases left,
    {
        let end = find_piece_end(chars, sep, from);
        proof {
            lemma_piece_end_of_rest(chars@, sep, from as int);
            let rest = chars@.subrange(from as int, n as int);
            assert(rest.subrange(0, end - from) =~= chars@.subrange(from as int, end as int));
            if end < n {
                assert(rest.subrange(end - from + 1, rest.len() as int) =~= chars@.subrange(
                    end + 1,
                    n as int,
                ));
            }
        }
        if left == 0 {
            return Some(text_of(chars, from, end));
        }
        if end == n {
            return None;
        }
        from = end + 1;
        left = left - 1;
    }
}

} // verus!
