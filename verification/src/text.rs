use vstd::prelude::*;

verus! {

// ---------------------------------------------------------------------------
// Character classes
// ---------------------------------------------------------------------------

/// Unicode `White_Space`, the class that `str::trim` and
/// `str::split_whitespace` strip and split on.
pub open spec fn is_ws(c: char) -> bool {
    let n = c as u32;
    (0x9 <= n && n <= 0xd) || n == 0x20 || n == 0x85 || n == 0xa0 || n == 0x1680 || (0x2000 <= n
        && n <= 0x200a) || n == 0x2028 || n == 0x2029 || n == 0x202f || n == 0x205f || n == 0x3000
}

pub open spec fn is_digit(c: char) -> bool {
    '0' <= c && c <= '9'
}

pub open spec fn digit_val(c: char) -> nat {
    ((c as u32) - ('0' as u32)) as nat
}

pub open spec fn ascii_lower(c: char) -> char {
    if 'A' <= c && c <= 'Z' {
        (((c as u32) + 32) as u8) as char
    } else {
        c
    }
}

pub open spec fn ascii_upper(c: char) -> char {
    if 'a' <= c && c <= 'z' {
        (((c as u32) - 32) as u8) as char
    } else {
        c
    }
}

pub open spec fn lower_seq(s: Seq<char>) -> Seq<char> {
    s.map_values(|c: char| ascii_lower(c))
}

pub open spec fn upper_seq(s: Seq<char>) -> Seq<char> {
    s.map_values(|c: char| ascii_upper(c))
}

pub fn is_whitespace(c: char) -> (r: bool)
    ensures
        r == is_ws(c),
{
    let n = c as u32;
    (0x9 <= n && n <= 0xd) || n == 0x20 || n == 0x85 || n == 0xa0 || n == 0x1680 || (0x2000 <= n
        && n <= 0x200a) || n == 0x2028 || n == 0x2029 || n == 0x202f || n == 0x205f || n == 0x3000
}

pub fn lower_char(c: char) -> (r: char)
    ensures
        r == ascii_lower(c),
{
    if 'A' <= c && c <= 'Z' {
        let b = c as u8;
        (b + 32) as char
    } else {
        c
    }
}

pub fn upper_char(c: char) -> (r: char)
    ensures
        r == ascii_upper(c),
{
    if 'a' <= c && c <= 'z' {
        let b = c as u8;
        (b - 32) as char
    } else {
        c
    }
}

// ---------------------------------------------------------------------------
// Views of optional and repeated strings
// ---------------------------------------------------------------------------

pub open spec fn opt_str_view(o: Option<&str>) -> Option<Seq<char>> {
    match o {
        Some(s) => Some(s@),
        None => None,
    }
}

pub open spec fn opt_string_view(o: Option<String>) -> Option<Seq<char>> {
    match o {
        Some(s) => Some(s@),
        None => None,
    }
}

pub open spec fn string_views(v: Seq<String>) -> Seq<Seq<char>> {
    v.map_values(|s: String| s@)
}

// ---------------------------------------------------------------------------
// Conversions between strings and character vectors
// ---------------------------------------------------------------------------

/// Collects the characters of a string slice into a vector.
pub fn chars_of(s: &str) -> (v: Vec<char>)
    ensures
        v@ == s@,
{
    let mut v: Vec<char> = Vec::new();
    for c in it: s.chars()
        invariant
            v@ == it.seq().take(it.index() as int),
    {
        v.push(c);
    }
    v
}

/// `String::push`.
#[verifier::external_body]
pub(crate) fn push_char(s: &mut String, c: char)
    ensures
        final(s)@ == old(s)@.push(c),
{
    s.push(c);
}

/// Builds a string from the characters `v[from..to]`.
pub fn string_from_range(v: &Vec<char>, from: usize, to: usize) -> (s: String)
    requires
        from <= to <= v.len(),
    ensures
        s@ == v@.subrange(from as int, to as int),
{
    let mut s = String::new();
    let mut i = from;
    while i < to
        invariant
            from <= i <= to <= v.len(),
            s@ == v@.subrange(from as int, i as int),
        decreases to - i,
    {
        push_char(&mut s, v[i]);
        assert(v@.subrange(from as int, i + 1) =~= v@.subrange(from as int, i as int).push(v@[i as int]));
        i = i + 1;
    }
    s
}

pub fn string_from_chars(v: &Vec<char>) -> (s: String)
    ensures
        s@ == v@,
{
    let s = string_from_range(v, 0, v.len());
    assert(v@.subrange(0, v@.len() as int) =~= v@);
    s
}

pub fn str_to_string(s: &str) -> (r: String)
    ensures
        r@ == s@,
{
    String::from_str(s)
}

/// Concatenation of two strings.
pub fn concat2(a: &str, b: &str) -> (r: String)
    ensures
        r@ == a@ + b@,
{
    let mut r = String::from_str(a);
    r.append(b);
    r
}

pub fn concat3(a: &str, b: &str, c: &str) -> (r: String)
    ensures
        r@ == a@ + b@ + c@,
{
    let mut r = String::from_str(a);
    r.append(b);
    r.append(c);
    r
}

// ---------------------------------------------------------------------------
// Equality and prefixes
// ---------------------------------------------------------------------------

pub fn seq_eq(a: &Vec<char>, b: &Vec<char>) -> (r: bool)
    ensures
        r == (a@ == b@),
{
    if a.len() != b.len() {
        return false;
    }
    let mut i: usize = 0;
    while i < a.len()
        invariant
            a.len() == b.len(),
            i <= a.len(),
            forall|k: int| 0 <= k < i ==> a@[k] == b@[k],
        decreases a.len() - i,
    {
        if a[i] != b[i] {
            return false;
        }
        i = i + 1;
    }
    assert(a@ =~= b@);
    true
}

pub fn str_eq(a: &str, b: &str) -> (r: bool)
    ensures
        r == (a@ == b@),
{
    let va = chars_of(a);
    let vb = chars_of(b);
    seq_eq(&va, &vb)
}

pub open spec fn has_prefix(s: Seq<char>, p: Seq<char>) -> bool {
    p.len() <= s.len() && s.subrange(0, p.len() as int) == p
}

pub fn vec_has_prefix(s: &Vec<char>, p: &str) -> (r: bool)
    ensures
        r == has_prefix(s@, p@),
{
    let pv = chars_of(p);
    if pv.len() > s.len() {
        return false;
    }
    let mut i: usize = 0;
    while i < pv.len()
        invariant
            pv@ == p@,
            pv.len() <= s.len(),
            i <= pv.len(),
            forall|k: int| 0 <= k < i ==> s@[k] == pv@[k],
        decreases pv.len() - i,
    {
        if s[i] != pv[i] {
            assert(s@.subrange(0, pv@.len() as int)[i as int] != pv@[i as int]);
            return false;
        }
        i = i + 1;
    }
    assert(s@.subrange(0, pv@.len() as int) =~= pv@);
    true
}

pub fn starts_with(s: &str, p: &str) -> (r: bool)
    ensures
        r == has_prefix(s@, p@),
{
    let v = chars_of(s);
    vec_has_prefix(&v, p)
}

// ---------------------------------------------------------------------------
// Trimming
// ---------------------------------------------------------------------------

pub open spec fn trim_start_spec(s: Seq<char>) -> Seq<char>
    decreases s.len(),
{
    if s.len() > 0 && is_ws(s[0]) {
        trim_start_spec(s.drop_first())
    } else {
        s
    }
}

pub open spec fn trim_end_spec(s: Seq<char>) -> Seq<char>
    decreases s.len(),
{
    if s.len() > 0 && is_ws(s.last()) {
        trim_end_spec(s.drop_last())
    } else {
        s
    }
}

/// What `str::trim` returns: whitespace removed from both ends.
pub open spec fn trim_spec(s: Seq<char>) -> Seq<char> {
    trim_end_spec(trim_start_spec(s))
}

pub open spec fn is_blank(s: Seq<char>) -> bool {
    trim_spec(s).len() == 0
}

pub proof fn lemma_trim_start_first(s: Seq<char>)
    ensures
        trim_start_spec(s).len() > 0 ==> !is_ws(trim_start_spec(s)[0]),
    decreases s.len(),
{
    if s.len() > 0 && is_ws(s[0]) {
        lemma_trim_start_first(s.drop_first());
    }
}

pub proof fn lemma_trim_end_prefix(s: Seq<char>)
    ensures
        trim_end_spec(s).len() <= s.len(),
        trim_end_spec(s) == s.subrange(0, trim_end_spec(s).len() as int),
        trim_end_spec(s).len() > 0 ==> !is_ws(trim_end_spec(s).last()),
    decreases s.len(),
{
    if s.len() > 0 && is_ws(s.last()) {
        lemma_trim_end_prefix(s.drop_last());
        assert(s.drop_last().subrange(0, trim_end_spec(s).len() as int) =~= s.subrange(
            0,
            trim_end_spec(s).len() as int,
        ));
    } else {
        assert(s.subrange(0, s.len() as int) =~= s);
    }
}

/// A trimmed text that is not empty begins and ends with a character that
/// is not whitespace.
pub proof fn lemma_trimmed_ends(s: Seq<char>)
    ensures
        trim_spec(s).len() > 0 ==> !is_ws(trim_spec(s)[0]) && !is_ws(trim_spec(s).last()),
{
    let u = trim_start_spec(s);
    lemma_trim_start_first(s);
    lemma_trim_end_prefix(u);
    if trim_spec(s).len() > 0 {
        assert(trim_spec(s)[0] == u[0]);
    }
}

/// A text that begins and ends with a character that is not whitespace is
/// its own trim.
pub proof fn lemma_trim_fixed(s: Seq<char>)
    requires
        s.len() > 0 ==> !is_ws(s[0]) && !is_ws(s.last()),
    ensures
        trim_spec(s) == s,
{
}

/// The bounds `(a, b)` such that `v[a..b]` is `v` trimmed.
pub fn trim_bounds(v: &Vec<char>) -> (r: (usize, usize))
    ensures
        r.0 <= r.1 <= v.len(),
        v@.subrange(r.0 as int, r.1 as int) == trim_spec(v@),
{
    let n = v.len();
    let mut i: usize = 0;
    assert(v@.subrange(0, n as int) =~= v@);
    while i < n && is_whitespace(v[i])
        invariant
            i <= n == v.len(),
            trim_start_spec(v@) == trim_start_spec(v@.subrange(i as int, n as int)),
        decreases n - i,
    {
        assert(v@.subrange(i as int, n as int).drop_first() =~= v@.subrange(i + 1, n as int));
        i = i + 1;
    }
    assert(trim_start_spec(v@) == v@.subrange(i as int, n as int));
    let mut j: usize = n;
    while j > i && is_whitespace(v[j - 1])
        invariant
            i <= j <= n == v.len(),
            trim_end_spec(v@.subrange(i as int, n as int)) == trim_end_spec(
                v@.subrange(i as int, j as int),
            ),
        decreases j,
    {
        assert(v@.subrange(i as int, j as int).drop_last() =~= v@.subrange(i as int, j - 1));
        j = j - 1;
    }
    (i, j)
}

/// `str::trim`.
pub fn trim(s: &str) -> (r: &str)
    ensures
        r@ == trim_spec(s@),
{
    let v = chars_of(s);
    let (a, b) = trim_bounds(&v);
    s.substring_char(a, b)
}

pub fn trimmed_string(s: &str) -> (r: String)
    ensures
        r@ == trim_spec(s@),
{
    let v = chars_of(s);
    let (a, b) = trim_bounds(&v);
    string_from_range(&v, a, b)
}

/// `s.trim().is_empty()`.
pub fn blank(s: &str) -> (r: bool)
    ensures
        r == is_blank(s@),
{
    let v = chars_of(s);
    let (a, b) = trim_bounds(&v);
    a == b
}

// ---------------------------------------------------------------------------
// ASCII case mapping
// ---------------------------------------------------------------------------

pub fn lower_vec(v: &Vec<char>) -> (r: Vec<char>)
    ensures
        r@ == lower_seq(v@),
{
    let mut r: Vec<char> = Vec::new();
    let mut i: usize = 0;
    while i < v.len()
        invariant
            i <= v.len(),
            r@ == lower_seq(v@.subrange(0, i as int)),
        decreases v.len() - i,
    {
        r.push(lower_char(v[i]));
        assert(lower_seq(v@.subrange(0, i + 1)) =~= lower_seq(v@.subrange(0, i as int)).push(
            ascii_lower(v@[i as int]),
        ));
        i = i + 1;
    }
    assert(v@.subrange(0, v@.len() as int) =~= v@);
    r
}

pub fn upper_vec(v: &Vec<char>) -> (r: Vec<char>)
    ensures
        r@ == upper_seq(v@),
{
    let mut r: Vec<char> = Vec::new();
    let mut i: usize = 0;
    while i < v.len()
        invariant
            i <= v.len(),
            r@ == upper_seq(v@.subrange(0, i as int)),
        decreases v.len() - i,
    {
        r.push(upper_char(v[i]));
        assert(upper_seq(v@.subrange(0, i + 1)) =~= upper_seq(v@.subrange(0, i as int)).push(
            ascii_upper(v@[i as int]),
        ));
        i = i + 1;
    }
    assert(v@.subrange(0, v@.len() as int) =~= v@);
    r
}

/// The characters of `s.trim().to_ascii_lowercase()`.
pub fn trimmed_lower(s: &str) -> (r: Vec<char>)
    ensures
        r@ == lower_seq(trim_spec(s@)),
{
    let t = chars_of(trim(s));
    lower_vec(&t)
}

/// The characters of `s.trim().to_ascii_uppercase()`.
pub fn trimmed_upper(s: &str) -> (r: Vec<char>)
    ensures
        r@ == upper_seq(trim_spec(s@)),
{
    let t = chars_of(trim(s));
    upper_vec(&t)
}

/// Compares a character vector with a string literal.
pub fn vec_is(v: &Vec<char>, lit: &str) -> (r: bool)
    ensures
        r == (v@ == lit@),
{
    let l = chars_of(lit);
    seq_eq(v, &l)
}

// ---------------------------------------------------------------------------
// Searching
// ---------------------------------------------------------------------------

/// Index of the first `c` in `s`, or `s.len()` when there is none.
pub open spec fn find_char(s: Seq<char>, c: char) -> int
    decreases s.len(),
{
    if s.len() == 0 {
        0
    } else if s[0] == c {
        0
    } else {
        1 + find_char(s.drop_first(), c)
    }
}

pub proof fn lemma_find_char(s: Seq<char>, c: char, j: int)
    requires
        0 <= j <= s.len(),
        forall|k: int| 0 <= k < j ==> s[k] != c,
        j == s.len() || s[j] == c,
    ensures
        find_char(s, c) == j,
    decreases s.len(),
{
    if s.len() > 0 && j > 0 {
        assert forall|k: int| 0 <= k < j - 1 implies s.drop_first()[k] != c by {
            assert(s[k + 1] != c);
        }
        lemma_find_char(s.drop_first(), c, j - 1);
    }
}

pub proof fn lemma_find_char_bounds(s: Seq<char>, c: char)
    ensures
        0 <= find_char(s, c) <= s.len(),
        find_char(s, c) < s.len() ==> s[find_char(s, c)] == c,
        forall|k: int| 0 <= k < find_char(s, c) ==> s[k] != c,
    decreases s.len(),
{
    if s.len() > 0 && s[0] != c {
        lemma_find_char_bounds(s.drop_first(), c);
        assert forall|k: int| 0 <= k < find_char(s, c) implies s[k] != c by {
            if k > 0 {
                assert(s.drop_first()[k - 1] == s[k]);
            }
        }
    }
}

pub fn find_char_in(v: &Vec<char>, from: usize, c: char) -> (r: usize)
    requires
        from <= v.len(),
    ensures
        from <= r <= v.len(),
        r == from + find_char(v@.subrange(from as int, v@.len() as int), c),
{
    let mut i = from;
    while i < v.len() && v[i] != c
        invariant
            from <= i <= v.len(),
            forall|k: int| from <= k < i ==> v@[k] != c,
        decreases v.len() - i,
    {
        i = i + 1;
    }
    proof {
        lemma_find_char(v@.subrange(from as int, v@.len() as int), c, i - from);
    }
    i
}

// ---------------------------------------------------------------------------
// Lines and fields
// ---------------------------------------------------------------------------

/// The character sequences held by a vector of character vectors.
pub open spec fn views(r: Seq<Vec<char>>) -> Seq<Seq<char>> {
    r.map_values(|x: Vec<char>| x@)
}

pub open spec fn strip_cr(s: Seq<char>) -> Seq<char> {
    if s.len() > 0 && s.last() == '\r' {
        s.drop_last()
    } else {
        s
    }
}

/// `str::lines`: pieces between `'\n'`, a `'\r'` before each `'\n'` removed,
/// no empty piece after a final `'\n'`.
pub open spec fn lines_spec(s: Seq<char>) -> Seq<Seq<char>>
    decreases s.len(),
{
    if s.len() == 0 {
        Seq::empty()
    } else {
        let i = find_char(s, '\n');
        if i >= s.len() || i < 0 {
            seq![s]
        } else {
            seq![strip_cr(s.subrange(0, i))] + lines_spec(s.subrange(i + 1, s.len() as int))
        }
    }
}

pub fn split_lines(v: &Vec<char>) -> (r: Vec<Vec<char>>)
    ensures
        views(r@) == lines_spec(v@),
{
    let n = v.len();
    let mut r: Vec<Vec<char>> = Vec::new();
    let mut start: usize = 0;
    assert(v@.subrange(0, n as int) =~= v@);
    while start < n
        invariant
            start <= n == v.len(),
            views(r@) + lines_spec(v@.subrange(start as int, n as int)) == lines_spec(v@),
        decreases n - start,
    {
        let ghost rest = v@.subrange(start as int, n as int);
        let i = find_char_in(v, start, '\n');
        proof {
            lemma_find_char_bounds(rest, '\n');
        }
        if i < n {
            let mut end = i;
            if end > start && v[end - 1] == '\r' {
                end = end - 1;
            }
            let line = vec_slice(v, start, end);
            assert(line@ == strip_cr(rest.subrange(0, i - start))) by {
                assert(rest.subrange(0, i - start) =~= v@.subrange(start as int, i as int));
                if i > start && v@[i - 1] == '\r' {
                    assert(v@.subrange(start as int, i as int).drop_last() =~= v@.subrange(
                        start as int,
                        i - 1,
                    ));
                }
            }
            let ghost old_r = views(r@);
            r.push(line);
            assert(rest.subrange(i - start + 1, rest.len() as int) =~= v@.subrange(i + 1, n as int));
            assert(views(r@) =~= old_r.push(line@));
            assert(lines_spec(rest) == seq![line@] + lines_spec(v@.subrange(i + 1, n as int)));
            assert(views(r@) + lines_spec(v@.subrange(i + 1, n as int)) =~= old_r + lines_spec(
                rest,
            ));
            start = i + 1;
        } else {
            let line = vec_slice(v, start, n);
            let ghost old_r = views(r@);
            r.push(line);
            assert(lines_spec(rest) == seq![rest]);
            assert(views(r@) =~= old_r.push(rest));
            assert(v@.subrange(n as int, n as int) =~= Seq::<char>::empty());
            assert(views(r@) + lines_spec(v@.subrange(n as int, n as int)) =~= old_r
                + lines_spec(rest));
            start = n;
        }
    }
    assert(v@.subrange(n as int, n as int) =~= Seq::<char>::empty());
    assert(views(r@) + Seq::<Seq<char>>::empty() =~= views(r@));
    r
}

pub fn vec_slice(v: &Vec<char>, from: usize, to: usize) -> (r: Vec<char>)
    requires
        from <= to <= v.len(),
    ensures
        r@ == v@.subrange(from as int, to as int),
{
    let mut r: Vec<char> = Vec::new();
    let mut i = from;
    while i < to
        invariant
            from <= i <= to <= v.len(),
            r@ == v@.subrange(from as int, i as int),
        decreases to - i,
    {
        r.push(v[i]);
        assert(v@.subrange(from as int, i + 1) =~= v@.subrange(from as int, i as int).push(
            v@[i as int],
        ));
        i = i + 1;
    }
    r
}

/// Length of the leading run of non-whitespace characters.
pub open spec fn word_len(s: Seq<char>) -> int
    decreases s.len(),
{
    if s.len() == 0 {
        0
    } else if is_ws(s[0]) {
        0
    } else {
        1 + word_len(s.drop_first())
    }
}

pub proof fn lemma_word_len(s: Seq<char>, j: int)
    requires
        0 <= j <= s.len(),
        forall|k: int| 0 <= k < j ==> !is_ws(s[k]),
        j == s.len() || is_ws(s[j]),
    ensures
        word_len(s) == j,
    decreases s.len(),
{
    if s.len() > 0 && j > 0 {
        assert forall|k: int| 0 <= k < j - 1 implies !is_ws(s.drop_first()[k]) by {
            assert(!is_ws(s[k + 1]));
        }
        lemma_word_len(s.drop_first(), j - 1);
    }
}

/// `str::split_whitespace`.
pub open spec fn fields_spec(s: Seq<char>) -> Seq<Seq<char>>
    decreases s.len(),
{
    if s.len() == 0 {
        Seq::empty()
    } else if is_ws(s[0]) {
        fields_spec(s.drop_first())
    } else {
        let w = word_len(s);
        if w <= 0 || w > s.len() {
            Seq::empty()
        } else {
            seq![s.subrange(0, w)] + fields_spec(s.subrange(w, s.len() as int))
        }
    }
}

pub proof fn lemma_word_len_bounds(s: Seq<char>)
    ensures
        0 <= word_len(s) <= s.len(),
        s.len() > 0 && !is_ws(s[0]) ==> word_len(s) >= 1,
    decreases s.len(),
{
    if s.len() > 0 && !is_ws(s[0]) {
        lemma_word_len_bounds(s.drop_first());
    }
}

pub fn split_fields(v: &Vec<char>) -> (r: Vec<Vec<char>>)
    ensures
        views(r@) == fields_spec(v@),
{
    let n = v.len();
    let mut r: Vec<Vec<char>> = Vec::new();
    let mut i: usize = 0;
    assert(v@.subrange(0, n as int) =~= v@);
    while i < n
        invariant
            i <= n == v.len(),
            views(r@) + fields_spec(v@.subrange(i as int, n as int)) == fields_spec(v@),
        decreases n - i,
    {
        let ghost rest = v@.subrange(i as int, n as int);
        if is_whitespace(v[i]) {
            assert(rest.drop_first() =~= v@.subrange(i + 1, n as int));
            i = i + 1;
        } else {
            let mut j = i;
            while j < n && !is_whitespace(v[j])
                invariant
                    i <= j <= n == v.len(),
                    forall|k: int| i <= k < j ==> !is_ws(v@[k]),
                decreases n - j,
            {
                j = j + 1;
            }
            proof {
                lemma_word_len(rest, j - i);
            }
            let word = vec_slice(v, i, j);
            let ghost old_r = views(r@);
            r.push(word);
            assert(rest.subrange(0, j - i) =~= word@);
            assert(rest.subrange(j - i, rest.len() as int) =~= v@.subrange(j as int, n as int));
            assert(views(r@) =~= old_r.push(word@));
            assert(views(r@) + fields_spec(v@.subrange(j as int, n as int)) =~= old_r
                + fields_spec(rest));
            i = j;
        }
    }
    assert(v@.subrange(n as int, n as int) =~= Seq::<char>::empty());
    assert(views(r@) + Seq::<Seq<char>>::empty() =~= views(r@));
    r
}

// ---------------------------------------------------------------------------
// Decimal numbers
// ---------------------------------------------------------------------------

pub open spec fn all_digits(s: Seq<char>) -> bool {
    forall|i: int| 0 <= i < s.len() ==> is_digit(#[trigger] s[i])
}

pub open spec fn digits_value(s: Seq<char>) -> nat
    decreases s.len(),
{
    if s.len() == 0 {
        0
    } else {
        digits_value(s.drop_last()) * 10 + digit_val(s.last())
    }
}

pub open spec fn unsigned_body(s: Seq<char>) -> Seq<char> {
    if s.len() > 0 && s[0] == '+' {
        s.drop_first()
    } else {
        s
    }
}

/// `u64::from_str`: an optional `+`, then one or more ASCII digits whose
/// value fits.
pub open spec fn parse_u64_spec(s: Seq<char>) -> Option<u64> {
    let b = unsigned_body(s);
    if b.len() > 0 && all_digits(b) && digits_value(b) <= u64::MAX {
        Some(digits_value(b) as u64)
    } else {
        None
    }
}

/// `i64::from_str`: an optional sign, then one or more ASCII digits whose
/// signed value fits.
pub open spec fn parse_i64_spec(s: Seq<char>) -> Option<i64> {
    if s.len() > 0 && s[0] == '-' {
        let b = s.drop_first();
        if b.len() > 0 && all_digits(b) && digits_value(b) <= 0x8000_0000_0000_0000 {
            Some((0 - digits_value(b)) as i64)
        } else {
            None
        }
    } else {
        let b = unsigned_body(s);
        if b.len() > 0 && all_digits(b) && digits_value(b) <= i64::MAX {
            Some(digits_value(b) as i64)
        } else {
            None
        }
    }
}

/// `i32::from_str`.
pub open spec fn parse_i32_spec(s: Seq<char>) -> Option<i32> {
    if s.len() > 0 && s[0] == '-' {
        let b = s.drop_first();
        if b.len() > 0 && all_digits(b) && digits_value(b) <= 0x8000_0000 {
            Some((0 - digits_value(b)) as i32)
        } else {
            None
        }
    } else {
        let b = unsigned_body(s);
        if b.len() > 0 && all_digits(b) && digits_value(b) <= i32::MAX {
            Some(digits_value(b) as i32)
        } else {
            None
        }
    }
}

pub proof fn lemma_digits_value_prefix_monotone(s: Seq<char>, i: int)
    requires
        0 <= i <= s.len(),
    ensures
        digits_value(s.subrange(0, i)) <= digits_value(s),
    decreases s.len() - i,
{
    if i < s.len() {
        lemma_digits_value_prefix_monotone(s, i + 1);
        assert(s.subrange(0, i + 1).drop_last() =~= s.subrange(0, i));
    } else {
        assert(s.subrange(0, i) =~= s);
    }
}

/// Value of the digit run `v[from..to]`, or `None` when it exceeds `limit`.
pub fn digits_upto(v: &Vec<char>, from: usize, to: usize, limit: u64) -> (r: Option<u64>)
    requires
        from <= to <= v.len(),
        all_digits(v@.subrange(from as int, to as int)),
        limit >= 9,
    ensures
        match r {
            Some(x) => x == digits_value(v@.subrange(from as int, to as int)) && x <= limit,
            None => digits_value(v@.subrange(from as int, to as int)) > limit,
        },
{
    let mut acc: u64 = 0;
    let mut i = from;
    while i < to
        invariant
            from <= i <= to <= v.len(),
            all_digits(v@.subrange(from as int, to as int)),
            acc == digits_value(v@.subrange(from as int, i as int)),
            acc <= limit,
            limit >= 9,
        decreases to - i,
    {
        assert(v@.subrange(from as int, to as int)[i - from] == v@[i as int]);
        assert(is_digit(v@.subrange(from as int, to as int)[i - from]));
        let c = v[i];
        let d = (c as u32 - '0' as u32) as u64;
        assert(v@.subrange(from as int, i + 1).drop_last() =~= v@.subrange(from as int, i as int));
        if acc > (limit - d) / 10 {
            proof {
                assert(acc * 10 + d > limit) by (nonlinear_arith)
                    requires
                        acc > (limit - d) / 10,
                        d <= 9,
                        d <= limit || d > limit,
                ;
                assert(v@.subrange(from as int, i + 1) =~= v@.subrange(from as int, to as int).subrange(
                    0,
                    i + 1 - from,
                ));
                lemma_digits_value_prefix_monotone(v@.subrange(from as int, to as int), i + 1 - from);
            }
            return None;
        }
        proof {
            assert(acc * 10 + d <= limit) by (nonlinear_arith)
                requires
                    acc <= (limit - d) / 10,
                    d <= 9,
            ;
        }
        acc = acc * 10 + d;
        i = i + 1;
    }
    Some(acc)
}

pub fn all_digits_in(v: &Vec<char>, from: usize, to: usize) -> (r: bool)
    requires
        from <= to <= v.len(),
    ensures
        r == all_digits(v@.subrange(from as int, to as int)),
{
    let mut i = from;
    while i < to
        invariant
            from <= i <= to <= v.len(),
            forall|k: int| from <= k < i ==> is_digit(v@[k]),
        decreases to - i,
    {
        if !('0' <= v[i] && v[i] <= '9') {
            assert(!is_digit(v@.subrange(from as int, to as int)[i - from]));
            return false;
        }
        i = i + 1;
    }
    assert forall|k: int| 0 <= k < to - from implies is_digit(
        #[trigger] v@.subrange(from as int, to as int)[k],
    ) by {
        assert(v@.subrange(from as int, to as int)[k] == v@[from + k]);
    }
    true
}

/// `s.parse::<u64>()`, the error reduced to `None`.
pub fn parse_u64(s: &str) -> (r: Option<u64>)
    ensures
        r == parse_u64_spec(s@),
{
    let v = chars_of(s);
    parse_u64_chars(&v)
}

pub fn parse_u64_chars(v: &Vec<char>) -> (r: Option<u64>)
    ensures
        r == parse_u64_spec(v@),
{
    let n = v.len();
    let start: usize = if n > 0 && v[0] == '+' {
        1
    } else {
        0
    };
    assert(unsigned_body(v@) =~= v@.subrange(start as int, n as int));
    if start == n || !all_digits_in(v, start, n) {
        return None;
    }
    digits_upto(v, start, n, u64::MAX)
}

pub fn parse_i64(s: &str) -> (r: Option<i64>)
    ensures
        r == parse_i64_spec(s@),
{
    let v = chars_of(s);
    parse_i64_chars(&v)
}

pub fn parse_i64_chars(v: &Vec<char>) -> (r: Option<i64>)
    ensures
        r == parse_i64_spec(v@),
{
    let n = v.len();
    if n > 0 && v[0] == '-' {
        assert(v@.drop_first() =~= v@.subrange(1, n as int));
        if n == 1 || !all_digits_in(v, 1, n) {
            return None;
        }
        match digits_upto(v, 1, n, 0x8000_0000_0000_0000) {
            Some(x) => {
                if x == 0x8000_0000_0000_0000 {
                    Some(i64::MIN)
                } else {
                    let y = x as i64;
                    Some(0 - y)
                }
            },
            None => None,
        }
    } else {
        let start: usize = if n > 0 && v[0] == '+' {
            1
        } else {
            0
        };
        assert(unsigned_body(v@) =~= v@.subrange(start as int, n as int));
        if start == n || !all_digits_in(v, start, n) {
            return None;
        }
        match digits_upto(v, start, n, 0x7fff_ffff_ffff_ffff) {
            Some(x) => Some(x as i64),
            None => None,
        }
    }
}

pub fn parse_i32(s: &str) -> (r: Option<i32>)
    ensures
        r == parse_i32_spec(s@),
{
    let v = chars_of(s);
    parse_i32_chars(&v)
}

pub fn parse_i32_chars(v: &Vec<char>) -> (r: Option<i32>)
    ensures
        r == parse_i32_spec(v@),
{
    let n = v.len();
    if n > 0 && v[0] == '-' {
        assert(v@.drop_first() =~= v@.subrange(1, n as int));
        if n == 1 || !all_digits_in(v, 1, n) {
            return None;
        }
        match digits_upto(v, 1, n, 0x8000_0000) {
            Some(x) => {
                let y = x as i64;
                Some((0 - y) as i32)
            },
            None => None,
        }
    } else {
        let start: usize = if n > 0 && v[0] == '+' {
            1
        } else {
            0
        };
        assert(unsigned_body(v@) =~= v@.subrange(start as int, n as int));
        if start == n || !all_digits_in(v, start, n) {
            return None;
        }
        match digits_upto(v, start, n, 0x7fff_ffff) {
            Some(x) => Some(x as i32),
            None => None,
        }
    }
}

pub open spec fn digit_char(d: nat) -> char {
    ((d + 48) as u8) as char
}

/// The decimal digits of `n`, as `u64`'s `Display` writes them.
pub open spec fn decimal_spec(n: nat) -> Seq<char>
    decreases n,
{
    if n < 10 {
        seq![digit_char(n)]
    } else {
        decimal_spec(n / 10).push(digit_char(n % 10))
    }
}

pub fn decimal_string(n: u64) -> (s: String)
    ensures
        s@ == decimal_spec(n as nat),
    decreases n,
{
    if n < 10 {
        let mut s = String::new();
        let c = ((n as u8) + 48) as char;
        push_char(&mut s, c);
        assert(s@ =~= seq![digit_char(n as nat)]);
        s
    } else {
        let mut s = decimal_string(n / 10);
        let c = (((n % 10) as u8) + 48) as char;
        push_char(&mut s, c);
        s
    }
}

} // verus!

verus! {

/// `s.strip_prefix(p)`.
pub open spec fn strip_prefix_spec(s: Seq<char>, p: Seq<char>) -> Option<Seq<char>> {
    if has_prefix(s, p) {
        Some(s.subrange(p.len() as int, s.len() as int))
    } else {
        None
    }
}

/// `s.trim_start_matches(p)`: every leading repetition of `p` removed.
pub open spec fn strip_all_prefix(s: Seq<char>, p: Seq<char>) -> Seq<char>
    decreases s.len(),
{
    if p.len() > 0 && has_prefix(s, p) {
        strip_all_prefix(s.subrange(p.len() as int, s.len() as int), p)
    } else {
        s
    }
}

/// What is left after stripping is a suffix of the text.
pub proof fn lemma_strip_all_prefix_suffix(s: Seq<char>, p: Seq<char>)
    ensures
        strip_all_prefix(s, p).len() <= s.len(),
        strip_all_prefix(s, p) == s.subrange(
            s.len() - strip_all_prefix(s, p).len(),
            s.len() as int,
        ),
    decreases s.len(),
{
    if p.len() > 0 && has_prefix(s, p) {
        let rest = s.subrange(p.len() as int, s.len() as int);
        lemma_strip_all_prefix_suffix(rest, p);
        assert(rest.subrange(rest.len() - strip_all_prefix(s, p).len(), rest.len() as int) =~= s.subrange(
            s.len() - strip_all_prefix(s, p).len(),
            s.len() as int,
        ));
    } else {
        assert(s.subrange(0, s.len() as int) =~= s);
    }
}

/// The part of `s` before the first `c` (all of `s` when there is none).
pub open spec fn before_char(s: Seq<char>, c: char) -> Seq<char> {
    s.subrange(0, find_char(s, c))
}

/// Whether `v[from..]` starts with `p`.
pub fn has_prefix_at(v: &Vec<char>, from: usize, p: &Vec<char>) -> (r: bool)
    requires
        from <= v.len(),
    ensures
        r == has_prefix(v@.subrange(from as int, v@.len() as int), p@),
{
    let ghost rest = v@.subrange(from as int, v@.len() as int);
    if p.len() > v.len() - from {
        return false;
    }
    let mut i: usize = 0;
    while i < p.len()
        invariant
            from + p.len() <= v.len(),
            rest == v@.subrange(from as int, v@.len() as int),
            i <= p.len(),
            forall|k: int| 0 <= k < i ==> v@[from + k] == p@[k],
        decreases p.len() - i,
    {
        if v[from + i] != p[i] {
            assert(rest.subrange(0, p@.len() as int)[i as int] != p@[i as int]);
            return false;
        }
        i = i + 1;
    }
    assert(rest.subrange(0, p@.len() as int) =~= p@);
    true
}

/// `v[from..]` with every leading repetition of `p` removed, as the index
/// where what is left begins.
pub fn skip_all_prefix(v: &Vec<char>, from: usize, p: &Vec<char>) -> (r: usize)
    requires
        from <= v.len(),
    ensures
        from <= r <= v.len(),
        v@.subrange(r as int, v@.len() as int) == strip_all_prefix(
            v@.subrange(from as int, v@.len() as int),
            p@,
        ),
{
    let mut i = from;
    if p.len() == 0 {
        return from;
    }
    while has_prefix_at(v, i, p)
        invariant
            from <= i <= v.len(),
            p@.len() > 0,
            strip_all_prefix(v@.subrange(from as int, v@.len() as int), p@) == strip_all_prefix(
                v@.subrange(i as int, v@.len() as int),
                p@,
            ),
        decreases v.len() - i,
    {
        assert(v@.subrange(i as int, v@.len() as int).subrange(
            p@.len() as int,
            v@.len() - i,
        ) =~= v@.subrange(i + p@.len(), v@.len() as int));
        i = i + p.len();
    }
    i
}

} // verus!

verus! {

/// Whether `sub` occurs in `s`.
pub open spec fn contains_seq(s: Seq<char>, sub: Seq<char>) -> bool {
    exists|i: int| 0 <= i && i + sub.len() <= s.len() && #[trigger] s.subrange(i, i + sub.len()) == sub
}

pub fn vec_contains(s: &Vec<char>, sub: &str) -> (r: bool)
    ensures
        r == contains_seq(s@, sub@),
{
    let p = chars_of(sub);
    if p.len() > s.len() {
        assert forall|i: int| 0 <= i && i + sub@.len() <= s@.len() implies #[trigger] s@.subrange(
            i,
            i + sub@.len(),
        ) != sub@ by {}
        return false;
    }
    let last = s.len() - p.len();
    let mut i: usize = 0;
    loop
        invariant
            p@ == sub@,
            p.len() <= s.len(),
            last == s.len() - p.len(),
            i <= last,
            forall|j: int| 0 <= j < i ==> #[trigger] s@.subrange(j, j + p@.len()) != p@,
        decreases last - i,
    {
        assert(s@.subrange(i as int, s@.len() as int).subrange(0, p@.len() as int) =~= s@.subrange(
            i as int,
            i + p@.len(),
        ));
        if has_prefix_at(s, i, &p) {
            return true;
        }
        if i == last {
            return false;
        }
        i = i + 1;
    }
}

/// The characters after the first `c` of `s`, or `None` when `s` holds no
/// `c`.
pub open spec fn after_char(s: Seq<char>, c: char) -> Option<Seq<char>> {
    let i = find_char(s, c);
    if 0 <= i < s.len() {
        Some(s.subrange(i + 1, s.len() as int))
    } else {
        None
    }
}

pub fn vec_after_char(v: &Vec<char>, c: char) -> (r: Option<Vec<char>>)
    ensures
        match r {
            Some(x) => after_char(v@, c) == Some(x@),
            None => after_char(v@, c) is None,
        },
{
    let i = find_char_in(v, 0, c);
    assert(v@.subrange(0, v@.len() as int) =~= v@);
    if i < v.len() {
        Some(vec_slice(v, i + 1, v.len()))
    } else {
        None
    }
}

pub fn vec_before_char(v: &Vec<char>, c: char) -> (r: Vec<char>)
    ensures
        r@ == before_char(v@, c),
{
    let i = find_char_in(v, 0, c);
    assert(v@.subrange(0, v@.len() as int) =~= v@);
    vec_slice(v, 0, i)
}

pub fn vec_trim(v: &Vec<char>) -> (r: Vec<char>)
    ensures
        r@ == trim_spec(v@),
{
    let (a, b) = trim_bounds(v);
    vec_slice(v, a, b)
}

} // verus!
