//! Small verified text helpers.
use vstd::prelude::*;

verus! {

/// The elements of `list` separated by `sep`.
pub open spec fn join_spec(list: Seq<Seq<char>>, sep: Seq<char>) -> Seq<char>
    decreases list.len(),
{
    if list.len() == 0 {
        Seq::empty()
    } else if list.len() == 1 {
        list[0]
    } else {
        join_spec(list.drop_last(), sep) + sep + list.last()
    }
}

/// Joins string slices with a separator.
pub fn join_strs(list: &Vec<&str>, sep: &str) -> (r: String)
    ensures
        r@ == join_spec(list@.map_values(|s: &str| s@), sep@),
{
    let mut out = String::new();
    let ghost views = list@.map_values(|s: &str| s@);
    let mut i: usize = 0;
    while i < list.len()
        invariant
            i <= list.len(),
            views == list@.map_values(|s: &str| s@),
            out@ == join_spec(views.subrange(0, i as int), sep@),
        decreases list.len() - i,
    {
        proof {
            assert(views.subrange(0, i + 1).drop_last() =~= views.subrange(0, i as int));
        }
        if i > 0 {
            out.append(sep);
        }
        out.append(list[i]);
        i = i + 1;
    }
    proof {
        assert(views.subrange(0, views.len() as int) =~= views);
    }
    out
}

} // verus!

verus! {

/// Whether two strings hold the same characters.
pub fn text_eq(a: &str, b: &str) -> (r: bool)
    ensures
        r == (a@ == b@),
{
    let n = a.unicode_len();
    if n != b.unicode_len() {
        return false;
    }
    let mut i: usize = 0;
    while i < n
        invariant
            n == a@.len(),
            n == b@.len(),
            i <= n,
            forall|k: int| 0 <= k < i ==> a@[k] == b@[k],
        decreases n - i,
    {
        if a.get_char(i) != b.get_char(i) {
            return false;
        }
        i = i + 1;
    }
    assert(a@ =~= b@);
    true
}

} // verus!

verus! {

/// Whether `needle` stands in `hay` starting at character `i`.
pub open spec fn text_occurs_at(hay: Seq<char>, needle: Seq<char>, i: int) -> bool {
    0 <= i && i + needle.len() <= hay.len() && hay.subrange(i, i + needle.len()) == needle
}

/// Whether `needle` occurs in `hay`.
pub fn text_contains(hay: &str, needle: &str) -> (r: bool)
    ensures
        r == exists|i: int| text_occurs_at(hay@, needle@, i),
{
    let n = hay.unicode_len();
    let m = needle.unicode_len();
    if m > n {
        assert forall|i: int| !text_occurs_at(hay@, needle@, i) by {}
        return false;
    }
    let mut i: usize = 0;
    while i <= n - m
        invariant
            n == hay@.len(),
            m == needle@.len(),
            m <= n,
            i <= n - m + 1,
            forall|j: int| 0 <= j < i ==> !text_occurs_at(hay@, needle@, j),
        decreases n - m + 1 - i,
    {
        let mut k: usize = 0;
        let mut same = true;
        while k < m
            invariant
                n == hay@.len(),
                m == needle@.len(),
                i + m <= n,
                k <= m,
                same == forall|t: int| 0 <= t < k ==> hay@[i + t] == needle@[t],
            decreases m - k,
        {
            if hay.get_char(i + k) != needle.get_char(k) {
                same = false;
            }
            k = k + 1;
        }
        if same {
            assert(hay@.subrange(i as int, i + m) =~= needle@);
            assert(text_occurs_at(hay@, needle@, i as int));
            return true;
        }
        assert(!text_occurs_at(hay@, needle@, i as int)) by {
            if hay@.subrange(i as int, i + m) == needle@ {
                let t = choose|t: int| 0 <= t < m && hay@[i + t] != needle@[t];
                assert(hay@.subrange(i as int, i + m)[t] == needle@[t]);
            }
        }
        i = i + 1;
    }
    assert forall|j: int| !text_occurs_at(hay@, needle@, j) by {
        if 0 <= j && j < i {
        }
    }
    false
}

} // verus!

verus! {

pub open spec fn strip_leading(s: Seq<char>, c: char) -> Seq<char>
    decreases s.len(),
{
    if s.len() > 0 && s[0] == c {
        strip_leading(s.drop_first(), c)
    } else {
        s
    }
}

pub open spec fn strip_trailing(s: Seq<char>, c: char) -> Seq<char>
    decreases s.len(),
{
    if s.len() > 0 && s.last() == c {
        strip_trailing(s.drop_last(), c)
    } else {
        s
    }
}

/// Every `c` removed at both ends of `s`.
pub open spec fn strip_char_ends(s: Seq<char>, c: char) -> Seq<char> {
    strip_trailing(strip_leading(s, c), c)
}

proof fn lemma_strip_leading_step(s: Seq<char>, i: int, c: char)
    requires
        0 <= i < s.len(),
        s[i] == c,
    ensures
        strip_leading(s.subrange(i, s.len() as int), c) == strip_leading(
            s.subrange(i + 1, s.len() as int),
            c,
        ),
{
    assert(s.subrange(i, s.len() as int).drop_first() =~= s.subrange(i + 1, s.len() as int));
}

proof fn lemma_strip_trailing_step(s: Seq<char>, j: int, c: char)
    requires
        0 < j <= s.len(),
        s[j - 1] == c,
    ensures
        strip_trailing(s.subrange(0, j), c) == strip_trailing(s.subrange(0, j - 1), c),
{
    assert(s.subrange(0, j).drop_last() =~= s.subrange(0, j - 1));
}

/// Removes every `c` at both ends of a text (as `str::trim_matches(c)` does).
pub fn strip_char(s: &str, c: char) -> (r: String)
    ensures
        r@ == strip_char_ends(s@, c),
{
    let n = s.unicode_len();
    let mut i: usize = 0;
    assert(s@.subrange(0, n as int) =~= s@);
    while i < n && s.get_char(i) == c
        invariant
            n == s@.len(),
            i <= n,
            strip_leading(s@, c) == strip_leading(s@.subrange(i as int, n as int), c),
        decreases n - i,
    {
        proof {
            lemma_strip_leading_step(s@, i as int, c);
        }
        i = i + 1;
    }
    let ghost lead = s@.subrange(i as int, n as int);
    assert(strip_leading(s@, c) == lead);
    let mut j: usize = n;
    assert(lead.subrange(0, (j - i) as int) =~= lead);
    while j > i && s.get_char(j - 1) == c
        invariant
            n == s@.len(),
            i <= j <= n,
            lead == s@.subrange(i as int, n as int),
            strip_trailing(lead, c) == strip_trailing(lead.subrange(0, (j - i) as int), c),
        decreases j,
    {
        proof {
            lemma_strip_trailing_step(lead, (j - i) as int, c);
            assert(lead.subrange(0, (j - i - 1) as int) =~= lead.subrange(0, (j - 1 - i) as int));
        }
        j = j - 1;
    }
    assert(lead.subrange(0, (j - i) as int) =~= s@.subrange(i as int, j as int));
    String::from_str(s.substring_char(i, j))
}

/// Unicode `White_Space`: the characters `str::trim` removes.
pub open spec fn is_white_space(c: char) -> bool {
    let u = c as u32;
    ||| 0x09 <= u <= 0x0d
    ||| u == 0x20
    ||| u == 0x85
    ||| u == 0xa0
    ||| u == 0x1680
    ||| 0x2000 <= u <= 0x200a
    ||| u == 0x2028
    ||| u == 0x2029
    ||| u == 0x202f
    ||| u == 0x205f
    ||| u == 0x3000
}

pub open spec fn trim_leading_ws(s: Seq<char>) -> Seq<char>
    decreases s.len(),
{
    if s.len() > 0 && is_white_space(s[0]) {
        trim_leading_ws(s.drop_first())
    } else {
        s
    }
}

pub open spec fn trim_trailing_ws(s: Seq<char>) -> Seq<char>
    decreases s.len(),
{
    if s.len() > 0 && is_white_space(s.last()) {
        trim_trailing_ws(s.drop_last())
    } else {
        s
    }
}

/// `s` without its leading and trailing white space, as `str::trim` gives it.
pub open spec fn trimmed_text(s: Seq<char>) -> Seq<char> {
    trim_trailing_ws(trim_leading_ws(s))
}

/// Whether a character is Unicode white space.
pub fn white_space_char(c: char) -> (r: bool)
    ensures
        r == is_white_space(c),
{
    let u = c as u32;
    (0x09 <= u && u <= 0x0d) || u == 0x20 || u == 0x85 || u == 0xa0 || u == 0x1680
        || (0x2000 <= u && u <= 0x200a) || u == 0x2028 || u == 0x2029 || u == 0x202f
        || u == 0x205f || u == 0x3000
}

proof fn lemma_trim_leading_step(s: Seq<char>, i: int)
    requires
        0 <= i < s.len(),
        is_white_space(s[i]),
    ensures
        trim_leading_ws(s.subrange(i, s.len() as int)) == trim_leading_ws(
            s.subrange(i + 1, s.len() as int),
        ),
{
    assert(s.subrange(i, s.len() as int).drop_first() =~= s.subrange(i + 1, s.len() as int));
}

proof fn lemma_trim_trailing_step(s: Seq<char>, j: int)
    requires
        0 < j <= s.len(),
        is_white_space(s[j - 1]),
    ensures
        trim_trailing_ws(s.subrange(0, j)) == trim_trailing_ws(s.subrange(0, j - 1)),
{
    assert(s.subrange(0, j).drop_last() =~= s.subrange(0, j - 1));
}

/// Removes the leading and trailing Unicode white space of a text.
pub fn trim_text(s: &str) -> (r: String)
    ensures
        r@ == trimmed_text(s@),
{
    let n = s.unicode_len();
    let mut i: usize = 0;
    assert(s@.subrange(0, n as int) =~= s@);
    while i < n && white_space_char(s.get_char(i))
        invariant
            n == s@.len(),
            i <= n,
            trim_leading_ws(s@) == trim_leading_ws(s@.subrange(i as int, n as int)),
        decreases n - i,
    {
        proof {
            lemma_trim_leading_step(s@, i as int);
        }
        i = i + 1;
    }
    let ghost lead = s@.subrange(i as int, n as int);
    assert(trim_leading_ws(s@) == lead);
    let mut j: usize = n;
    assert(lead.subrange(0, (j - i) as int) =~= lead);
    while j > i && white_space_char(s.get_char(j - 1))
        invariant
            n == s@.len(),
            i <= j <= n,
            lead == s@.subrange(i as int, n as int),
            trim_trailing_ws(lead) == trim_trailing_ws(lead.subrange(0, (j - i) as int)),
        decreases j,
    {
        proof {
            lemma_trim_trailing_step(lead, (j - i) as int);
            assert(lead.subrange(0, (j - i - 1) as int) =~= lead.subrange(0, (j - 1 - i) as int));
        }
        j = j - 1;
    }
    assert(lead.subrange(0, (j - i) as int) =~= s@.subrange(i as int, j as int));
    String::from_str(s.substring_char(i, j))
}

/// The pieces of `s` between occurrences of `c` (one piece when `c` does not occur).
pub open spec fn split_spec(s: Seq<char>, c: char) -> Seq<Seq<char>>
    decreases s.len(),
{
    if s.len() == 0 {
        seq![Seq::<char>::empty()]
    } else {
        let prev = split_spec(s.drop_last(), c);
        if s.last() == c {
            prev.push(Seq::<char>::empty())
        } else {
            prev.update(prev.len() - 1, prev.last().push(s.last()))
        }
    }
}

proof fn lemma_split_nonempty(s: Seq<char>, c: char)
    ensures
        split_spec(s, c).len() >= 1,
    decreases s.len(),
{
    if s.len() > 0 {
        lemma_split_nonempty(s.drop_last(), c);
    }
}

/// Splits a text at every `c` (as `str::split(c)` does).
pub fn split_char(s: &str, c: char) -> (r: Vec<String>)
    ensures
        r@.map_values(|p: String| p@) == split_spec(s@, c),
{
    let n = s.unicode_len();
    let mut parts: Vec<String> = Vec::new();
    let mut cur: Vec<char> = Vec::new();
    let mut i: usize = 0;
    assert(s@.subrange(0, 0) =~= Seq::<char>::empty());
    assert(parts@.map_values(|p: String| p@).push(cur@) =~= split_spec(s@.subrange(0, 0), c));
    while i < n
        invariant
            n == s@.len(),
            i <= n,
            parts@.map_values(|p: String| p@).push(cur@) == split_spec(s@.subrange(0, i as int), c),
        decreases n - i,
    {
        let ch = s.get_char(i);
        let ghost pre = s@.subrange(0, i as int);
        assert(s@.subrange(0, i + 1).drop_last() =~= pre);
        proof {
            lemma_split_nonempty(pre, c);
        }
        if ch == c {
            let ghost before = parts@;
            let piece = crate::wrappers::chars_to_string(&cur);
            parts.push(piece);
            cur = Vec::new();
            assert(parts@.map_values(|p: String| p@) =~= before.map_values(|p: String| p@).push(
                piece@,
            ));
            assert(parts@.map_values(|p: String| p@).push(cur@) =~= split_spec(
                s@.subrange(0, i + 1),
                c,
            ));
        } else {
            let ghost old_cur = cur@;
            cur.push(ch);
            assert(parts@.map_values(|p: String| p@).push(cur@) =~= split_spec(
                s@.subrange(0, i + 1),
                c,
            ));
        }
        i = i + 1;
    }
    assert(s@.subrange(0, n as int) =~= s@);
    let ghost before = parts@;
    let piece = crate::wrappers::chars_to_string(&cur);
    parts.push(piece);
    assert(parts@.map_values(|p: String| p@) =~= before.map_values(|p: String| p@).push(cur@));
    parts
}

/// Whether `needle` occurs in `hay`.
pub open spec fn text_contains_spec(hay: Seq<char>, needle: Seq<char>) -> bool {
    exists|i: int| text_occurs_at(hay, needle, i)
}

/// Whether `s` starts with `prefix`.
pub fn text_starts_with(s: &str, prefix: &str) -> (r: bool)
    ensures
        r == text_occurs_at(s@, prefix@, 0),
{
    let n = s.unicode_len();
    let m = prefix.unicode_len();
    if m > n {
        return false;
    }
    let mut k: usize = 0;
    while k < m
        invariant
            n == s@.len(),
            m == prefix@.len(),
            m <= n,
            k <= m,
            forall|t: int| 0 <= t < k ==> s@[t] == prefix@[t],
        decreases m - k,
    {
        if s.get_char(k) != prefix.get_char(k) {
            assert(s@.subrange(0, m as int)[k as int] != prefix@[k as int]);
            return false;
        }
        k = k + 1;
    }
    assert(s@.subrange(0, m as int) =~= prefix@);
    true
}

/// Decimal digits of a natural number, most significant first, no sign.
pub open spec fn decimal_text(n: nat) -> Seq<char>
    decreases n,
{
    if n < 10 {
        seq![digit_char(n)]
    } else {
        decimal_text(n / 10).push(digit_char(n % 10))
    }
}

pub open spec fn digit_char(d: nat) -> char {
    if d == 0 { '0' }
    else if d == 1 { '1' }
    else if d == 2 { '2' }
    else if d == 3 { '3' }
    else if d == 4 { '4' }
    else if d == 5 { '5' }
    else if d == 6 { '6' }
    else if d == 7 { '7' }
    else if d == 8 { '8' }
    else { '9' }
}

fn digit(d: u64) -> (r: char)
    requires
        d < 10,
    ensures
        r == digit_char(d as nat),
{
    if d == 0 { '0' }
    else if d == 1 { '1' }
    else if d == 2 { '2' }
    else if d == 3 { '3' }
    else if d == 4 { '4' }
    else if d == 5 { '5' }
    else if d == 6 { '6' }
    else if d == 7 { '7' }
    else if d == 8 { '8' }
    else { '9' }
}

fn decimal_digits(n: u64) -> (r: Vec<char>)
    ensures
        r@ == decimal_text(n as nat),
    decreases n,
{
    if n < 10 {
        let mut v: Vec<char> = Vec::new();
        v.push(digit(n));
        v
    } else {
        let mut v = decimal_digits(n / 10);
        v.push(digit(n % 10));
        v
    }
}

/// The decimal text of a number, as `Display` for integers writes it.
pub fn u64_to_text(n: u64) -> (r: String)
    ensures
        r@ == decimal_text(n as nat),
{
    let digits = decimal_digits(n);
    crate::wrappers::chars_to_string(&digits)
}

proof fn lemma_leading_white_space(s: Seq<char>) -> (i: int)
    ensures
        0 <= i <= s.len(),
        trim_leading_ws(s) == s.subrange(i, s.len() as int),
        forall|k: int| 0 <= k < i ==> is_white_space(#[trigger] s[k]),
        i < s.len() ==> !is_white_space(s[i]),
    decreases s.len(),
{
    if s.len() > 0 && is_white_space(s[0]) {
        let t = s.drop_first();
        let i1 = lemma_leading_white_space(t);
        assert(t.subrange(i1, t.len() as int) =~= s.subrange(i1 + 1, s.len() as int));
        assert forall|k: int| 0 <= k < i1 + 1 implies is_white_space(#[trigger] s[k]) by {
            if k > 0 {
                assert(s[k] == t[k - 1]);
            }
        }
        if i1 + 1 < s.len() {
            assert(s[i1 + 1] == t[i1]);
        }
        i1 + 1
    } else {
        assert(s.subrange(0, s.len() as int) =~= s);
        0
    }
}

proof fn lemma_trailing_white_space(s: Seq<char>) -> (j: int)
    ensures
        0 <= j <= s.len(),
        trim_trailing_ws(s) == s.subrange(0, j),
        forall|k: int| j <= k < s.len() ==> is_white_space(#[trigger] s[k]),
        j > 0 ==> !is_white_space(s[j - 1]),
    decreases s.len(),
{
    if s.len() > 0 && is_white_space(s.last()) {
        let t = s.drop_last();
        let j1 = lemma_trailing_white_space(t);
        assert(t.subrange(0, j1) =~= s.subrange(0, j1));
        assert forall|k: int| j1 <= k < s.len() implies is_white_space(#[trigger] s[k]) by {
            if k < s.len() - 1 {
                assert(s[k] == t[k]);
            }
        }
        if j1 > 0 {
            assert(s[j1 - 1] == t[j1 - 1]);
        }
        j1
    } else {
        assert(s.subrange(0, s.len() as int) =~= s);
        s.len() as int
    }
}

/// Trimming removes exactly the white space at both ends: what is left is a
/// run of the text, everything cut before and after it is white space, and
/// it neither starts nor ends with white space; so a text is trimmed to
/// nothing exactly when it is white space through and through. Spaces,
/// tabs, line breaks, no-break and ideographic spaces are white space;
/// letters and the zero-width space are not.
pub proof fn law_trim_removes_exactly_the_white_space_ends(s: Seq<char>)
    ensures
        exists|i: int, j: int|
            0 <= i <= j <= s.len() && trimmed_text(s) == s.subrange(i, j) && (forall|k: int|
                0 <= k < i ==> is_white_space(#[trigger] s[k])) && (forall|k: int|
                j <= k < s.len() ==> is_white_space(#[trigger] s[k])),
        trimmed_text(s).len() > 0 ==> !is_white_space(trimmed_text(s)[0]) && !is_white_space(
            trimmed_text(s).last(),
        ),
        (forall|k: int| 0 <= k < s.len() ==> is_white_space(#[trigger] s[k])) <==> trimmed_text(s).len() == 0,
        is_white_space(' ') && is_white_space('\t') && is_white_space('\n') && is_white_space('\r'),
        is_white_space('\u{a0}') && is_white_space('\u{3000}') && is_white_space('\u{2028}'),
        !is_white_space('a') && !is_white_space('0') && !is_white_space('\u{200b}'),
{
    let i = lemma_leading_white_space(s);
    let lead = s.subrange(i, s.len() as int);
    let j1 = lemma_trailing_white_space(lead);
    let j = i + j1;
    assert(lead.subrange(0, j1) =~= s.subrange(i, j));
    assert forall|k: int| j <= k < s.len() implies is_white_space(#[trigger] s[k]) by {
        assert(s[k] == lead[k - i]);
    }
    let t = trimmed_text(s);
    assert(t == s.subrange(i, j));
    if t.len() > 0 {
        assert(t[0] == s[i]);
        assert(t.last() == s[j - 1]);
        assert(lead[j1 - 1] == s[j - 1]);
    }
    if forall|k: int| 0 <= k < s.len() ==> is_white_space(#[trigger] s[k]) {
        if i < s.len() {
            assert(is_white_space(s[i]));
        }
    }
    if t.len() == 0 {
        assert forall|k: int| 0 <= k < s.len() implies is_white_space(#[trigger] s[k]) by {
            if k >= i && k < j {
                assert(false);
            }
        }
    }
    assert(' ' as u32 == 0x20);
    assert('a' as u32 == 0x61);
}

} // verus!
