use vstd::prelude::*;

verus! {

/// Unicode `White_Space`, the property by which Rust's `char::is_whitespace`,
/// `str::trim` and `str::split_whitespace` recognise white space.
pub open spec fn is_white_space(c: char) -> bool {
    let v: u32 = c as u32;
    ||| 0x9 <= v <= 0xD
    ||| v == 0x20
    ||| v == 0x85
    ||| v == 0xA0
    ||| v == 0x1680
    ||| 0x2000 <= v <= 0x200A
    ||| v == 0x2028
    ||| v == 0x2029
    ||| v == 0x202F
    ||| v == 0x205F
    ||| v == 0x3000
}

pub open spec fn is_ascii_lower(c: char) -> bool {
    'a' <= c <= 'z'
}

pub open spec fn is_ascii_upper(c: char) -> bool {
    'A' <= c <= 'Z'
}

pub open spec fn is_ascii_digit(c: char) -> bool {
    '0' <= c <= '9'
}

pub open spec fn is_ascii_hex_digit(c: char) -> bool {
    is_ascii_digit(c) || 'a' <= c <= 'f' || 'A' <= c <= 'F'
}

/// The ASCII upper-case form of a character; other characters are unchanged.
pub open spec fn ascii_upper(c: char) -> char {
    if is_ascii_lower(c) {
        ((c as u32) - 32) as char
    } else {
        c
    }
}

pub open spec fn seq_ascii_upper(s: Seq<char>) -> Seq<char> {
    s.map_values(|c: char| ascii_upper(c))
}

/// `s` without its leading white space.
pub open spec fn trim_start(s: Seq<char>) -> Seq<char>
    decreases s.len(),
{
    if s.len() > 0 && is_white_space(s[0]) {
        trim_start(s.drop_first())
    } else {
        s
    }
}

/// `s` without its trailing white space.
pub open spec fn trim_end(s: Seq<char>) -> Seq<char>
    decreases s.len(),
{
    if s.len() > 0 && is_white_space(s.last()) {
        trim_end(s.drop_last())
    } else {
        s
    }
}

/// `s` without leading and trailing white space, as `str::trim` gives it.
pub open spec fn trim(s: Seq<char>) -> Seq<char> {
    trim_end(trim_start(s))
}

pub fn is_white_space_char(c: char) -> (b: bool)
    ensures
        b == is_white_space(c),
{
    let v: u32 = c as u32;
    (0x9 <= v && v <= 0xD) || v == 0x20 || v == 0x85 || v == 0xA0 || v == 0x1680 || (0x2000 <= v
        && v <= 0x200A) || v == 0x2028 || v == 0x2029 || v == 0x202F || v == 0x205F || v == 0x3000
}

pub fn ascii_upper_char(c: char) -> (r: char)
    ensures
        r == ascii_upper(c),
{
    if 'a' <= c && c <= 'z' {
        let v: u32 = (c as u32) - 32;
        proof {
            assert(v < 0xD800);
        }
        (v as u8) as char
    } else {
        c
    }
}

/// Appends one character to a string.
#[verifier::external_body]
pub fn push_char(s: &mut String, c: char)
    ensures
        final(s)@ == old(s)@.push(c),
{
    s.push(c);
}

/// The characters of a string, in order.
pub fn chars_of(s: &str) -> (r: Vec<char>)
    ensures
        r@ == s@,
{
    let mut out: Vec<char> = Vec::new();
    for c in it: s.chars()
        invariant
            out@ == it.seq().take(it.index() as int),
    {
        out.push(c);
    }
    out
}

/// The string made of `v[start..end]`.
pub fn string_of_range(v: &Vec<char>, start: usize, end: usize) -> (r: String)
    requires
        start <= end <= v.len(),
    ensures
        r@ == v@.subrange(start as int, end as int),
{
    let mut out = String::new();
    let mut k: usize = start;
    while k < end
        invariant
            start <= k <= end <= v.len(),
            out@ == v@.subrange(start as int, k as int),
        decreases end - k,
    {
        push_char(&mut out, v[k]);
        assert(v@.subrange(start as int, k + 1) =~= v@.subrange(start as int, k as int).push(v@[k as int]));
        k += 1;
    }
    out
}

/// The bounds `(i, j)` of the trimmed part of `v`.
pub fn trim_bounds(v: &Vec<char>) -> (r: (usize, usize))
    ensures
        r.0 <= r.1 <= v.len(),
        v@.subrange(r.0 as int, r.1 as int) == trim(v@),
{
    let n = v.len();
    let mut i: usize = 0;
    assert(v@.subrange(0, n as int) =~= v@);
    while i < n && is_white_space_char(v[i])
        invariant
            i <= n == v.len(),
            trim_start(v@) == trim_start(v@.subrange(i as int, n as int)),
        decreases n - i,
    {
        assert(v@.subrange(i as int, n as int).drop_first() =~= v@.subrange(i + 1, n as int));
        i += 1;
    }
    assert(trim_start(v@) == v@.subrange(i as int, n as int));
    let mut j: usize = n;
    while j > i && is_white_space_char(v[j - 1])
        invariant
            i <= j <= n == v.len(),
            trim_end(v@.subrange(i as int, n as int)) == trim_end(v@.subrange(i as int, j as int)),
        decreases j,
    {
        assert(v@.subrange(i as int, j as int).drop_last() =~= v@.subrange(i as int, j - 1));
        j -= 1;
    }
    (i, j)
}

/// `str::trim`, as an owned string.
pub fn trimmed(s: &str) -> (r: String)
    ensures
        r@ == trim(s@),
{
    let v = chars_of(s);
    let (i, j) = trim_bounds(&v);
    string_of_range(&v, i, j)
}

/// `s.trim().to_ascii_uppercase()`.
pub fn trimmed_upper(s: &str) -> (r: String)
    ensures
        r@ == seq_ascii_upper(trim(s@)),
{
    let v = chars_of(s);
    let (i, j) = trim_bounds(&v);
    let mut out = String::new();
    let mut k: usize = i;
    while k < j
        invariant
            i <= k <= j <= v.len(),
            out@ == seq_ascii_upper(v@.subrange(i as int, k as int)),
        decreases j - k,
    {
        let c = ascii_upper_char(v[k]);
        push_char(&mut out, c);
        assert(seq_ascii_upper(v@.subrange(i as int, k + 1)) =~= seq_ascii_upper(
            v@.subrange(i as int, k as int),
        ).push(c));
        k += 1;
    }
    assert(v@.subrange(i as int, j as int) == trim(s@));
    out
}

/// Whether two strings hold the same characters.
pub fn str_eq(a: &str, b: &str) -> (r: bool)
    ensures
        r == (a@ == b@),
{
    let x = chars_of(a);
    let y = chars_of(b);
    if x.len() != y.len() {
        return false;
    }
    let mut k: usize = 0;
    while k < x.len()
        invariant
            x@ == a@,
            y@ == b@,
            x.len() == y.len(),
            k <= x.len(),
            forall|m: int| 0 <= m < k ==> x@[m] == y@[m],
        decreases x.len() - k,
    {
        if x[k] != y[k] {
            assert(x@[k as int] != y@[k as int]);
            return false;
        }
        k += 1;
    }
    assert(x@ =~= y@);
    true
}

/// Appends the characters of `t` to `s`.
pub fn append_str(s: &mut String, t: &str)
    ensures
        final(s)@ == old(s)@ + t@,
{
    let v = chars_of(t);
    let ghost start = s@;
    let mut k: usize = 0;
    while k < v.len()
        invariant
            k <= v.len(),
            v@ == t@,
            s@ == start + v@.subrange(0, k as int),
        decreases v.len() - k,
    {
        push_char(s, v[k]);
        assert(v@.subrange(0, k + 1) =~= v@.subrange(0, k as int).push(v@[k as int]));
        k += 1;
    }
    assert(v@.subrange(0, v.len() as int) =~= v@);
}

/// An owned copy of a string slice.
pub fn owned(t: &str) -> (r: String)
    ensures
        r@ == t@,
{
    let mut s = String::new();
    append_str(&mut s, t);
    s
}

/// The words of `s` after the partial word `cur`: maximal runs of
/// characters that are not white space, in order, as `str::split_whitespace`
/// yields them.
pub open spec fn words_after(s: Seq<char>, cur: Seq<char>) -> Seq<Seq<char>>
    decreases s.len(),
{
    if s.len() == 0 {
        if cur.len() > 0 {
            seq![cur]
        } else {
            Seq::empty()
        }
    } else if is_white_space(s[0]) {
        (if cur.len() > 0 {
            seq![cur]
        } else {
            Seq::empty()
        }) + words_after(s.drop_first(), Seq::empty())
    } else {
        words_after(s.drop_first(), cur.push(s[0]))
    }
}

/// The white-space separated words of `s`.
pub open spec fn words(s: Seq<char>) -> Seq<Seq<char>> {
    words_after(s, Seq::empty())
}

/// The words joined by single spaces.
pub open spec fn join_words(ws: Seq<Seq<char>>) -> Seq<char>
    decreases ws.len(),
{
    if ws.len() == 0 {
        Seq::empty()
    } else if ws.len() == 1 {
        ws[0]
    } else {
        join_words(ws.drop_last()) + seq![' '] + ws.last()
    }
}

/// The lines of `s` after the partial line `cur`, split at line feeds; the
/// last line may be empty.
pub open spec fn lines_after(s: Seq<char>, cur: Seq<char>) -> Seq<Seq<char>>
    decreases s.len(),
{
    if s.len() == 0 {
        seq![cur]
    } else if s[0] == '\n' {
        seq![cur] + lines_after(s.drop_first(), Seq::empty())
    } else {
        lines_after(s.drop_first(), cur.push(s[0]))
    }
}

pub open spec fn lines(s: Seq<char>) -> Seq<Seq<char>> {
    lines_after(s, Seq::empty())
}

/// A character sequence held in a vector of vectors.
pub open spec fn nested_view(v: Seq<Vec<char>>) -> Seq<Seq<char>> {
    v.map_values(|w: Vec<char>| w@)
}

pub proof fn lemma_words_have_no_white_space(s: Seq<char>, cur: Seq<char>)
    requires
        forall|i: int| 0 <= i < cur.len() ==> !is_white_space(#[trigger] cur[i]),
    ensures
        forall|k: int, i: int|
            0 <= k < words_after(s, cur).len() && 0 <= i < words_after(s, cur)[k].len() ==> !is_white_space(
                #[trigger] words_after(s, cur)[k][i],
            ),
        forall|k: int| 0 <= k < words_after(s, cur).len() ==> #[trigger] words_after(s, cur)[k].len() > 0,
    decreases s.len(),
{
    if s.len() == 0 {
        if cur.len() > 0 {
            assert(words_after(s, cur) =~= seq![cur]);
        } else {
            assert(words_after(s, cur) =~= Seq::<Seq<char>>::empty());
        }
    } else {
        if is_white_space(s[0]) {
            lemma_words_have_no_white_space(s.drop_first(), Seq::empty());
            let head: Seq<Seq<char>> = if cur.len() > 0 {
                seq![cur]
            } else {
                Seq::empty()
            };
            assert(words_after(s, cur) == head + words_after(s.drop_first(), Seq::empty()));
            assert forall|k: int, i: int|
                0 <= k < words_after(s, cur).len() && 0 <= i < words_after(s, cur)[k].len() implies !is_white_space(
                #[trigger] words_after(s, cur)[k][i]) by {
                if k < head.len() {
                } else {
                    assert(words_after(s, cur)[k] == words_after(s.drop_first(), Seq::empty())[k - head.len()]);
                }
            }
            assert forall|k: int| 0 <= k < words_after(s, cur).len() implies #[trigger] words_after(s, cur)[k].len() > 0 by {
                if k >= head.len() {
                    assert(words_after(s, cur)[k] == words_after(s.drop_first(), Seq::empty())[k - head.len()]);
                }
            }
        } else {
            assert(words_after(s, cur) == words_after(s.drop_first(), cur.push(s[0])));
            assert forall|i: int| 0 <= i < cur.push(s[0]).len() implies !is_white_space(#[trigger] cur.push(s[0])[i]) by {
                if i < cur.len() {
                    assert(cur.push(s[0])[i] == cur[i]);
                }
            }
            lemma_words_have_no_white_space(s.drop_first(), cur.push(s[0]));
        }
    }
}

/// Every character of a word comes from the text or the partial word: where
/// the text's characters that are not white space, and the partial word's
/// characters, have a property, so do the words' characters.
pub proof fn lemma_words_keep(s: Seq<char>, cur: Seq<char>, p: spec_fn(char) -> bool)
    requires
        forall|i: int| 0 <= i < s.len() && !is_white_space(#[trigger] s[i]) ==> p(s[i]),
        forall|i: int| 0 <= i < cur.len() ==> p(#[trigger] cur[i]),
    ensures
        forall|k: int, i: int|
            0 <= k < words_after(s, cur).len() && 0 <= i < words_after(s, cur)[k].len() ==> p(
                #[trigger] words_after(s, cur)[k][i],
            ),
    decreases s.len(),
{
    if s.len() == 0 {
        if cur.len() > 0 {
            assert(words_after(s, cur) =~= seq![cur]);
        } else {
            assert(words_after(s, cur) =~= Seq::<Seq<char>>::empty());
        }
    } else {
        let rest = s.drop_first();
        assert forall|i: int| 0 <= i < rest.len() && !is_white_space(#[trigger] rest[i]) implies p(rest[i]) by {
            assert(rest[i] == s[i + 1]);
        }
        if is_white_space(s[0]) {
            lemma_words_keep(rest, Seq::empty(), p);
            let head: Seq<Seq<char>> = if cur.len() > 0 {
                seq![cur]
            } else {
                Seq::empty()
            };
            assert(words_after(s, cur) == head + words_after(rest, Seq::empty()));
            assert forall|k: int, i: int|
                0 <= k < words_after(s, cur).len() && 0 <= i < words_after(s, cur)[k].len() implies p(
                #[trigger] words_after(s, cur)[k][i]) by {
                if k >= head.len() {
                    assert(words_after(s, cur)[k] == words_after(rest, Seq::empty())[k - head.len()]);
                }
            }
        } else {
            assert(words_after(s, cur) == words_after(rest, cur.push(s[0])));
            assert forall|i: int| 0 <= i < cur.push(s[0]).len() implies p(#[trigger] cur.push(s[0])[i]) by {
                if i < cur.len() {
                    assert(cur.push(s[0])[i] == cur[i]);
                }
            }
            lemma_words_keep(rest, cur.push(s[0]), p);
        }
    }
}

/// Splits `v` into its white-space separated words.
pub fn words_of(v: &Vec<char>) -> (r: Vec<Vec<char>>)
    ensures
        nested_view(r@) == words(v@),
{
    let n = v.len();
    let mut done: Vec<Vec<char>> = Vec::new();
    let mut cur: Vec<char> = Vec::new();
    let mut k: usize = 0;
    assert(v@.subrange(0, n as int) =~= v@);
    while k < n
        invariant
            k <= n == v.len(),
            words(v@) == nested_view(done@) + words_after(v@.subrange(k as int, n as int), cur@),
        decreases n - k,
    {
        let ghost rest = v@.subrange(k as int, n as int);
        assert(rest.drop_first() =~= v@.subrange(k + 1, n as int));
        assert(rest[0] == v@[k as int]);
        if is_white_space_char(v[k]) {
            let ghost old_cur = cur@;
            let ghost nd = nested_view(done@);
            let ghost head: Seq<Seq<char>> = if old_cur.len() > 0 {
                seq![old_cur]
            } else {
                Seq::<Seq<char>>::empty()
            };
            assert(words_after(rest, old_cur) == head + words_after(rest.drop_first(), Seq::empty()));
            if cur.len() > 0 {
                let w = cur;
                done.push(w);
                assert(nested_view(done@) =~= nd + head);
                cur = Vec::new();
            } else {
                assert(nd + head =~= nd);
            }
            assert(cur@ =~= Seq::<char>::empty());
            assert(nested_view(done@) =~= nd + head);
            assert(words(v@) =~= nested_view(done@) + words_after(v@.subrange(k + 1, n as int), cur@));
        } else {
            cur.push(v[k]);
        }
        k += 1;
    }
    assert(v@.subrange(n as int, n as int) =~= Seq::<char>::empty());
    if cur.len() > 0 {
        let ghost before = nested_view(done@);
        let ghost last = cur@;
        done.push(cur);
        assert(nested_view(done@) =~= before + seq![last]);
    }
    assert(nested_view(done@) =~= words(v@));
    done
}

/// The text made of `ws` joined by single spaces.
pub fn join_with_spaces(ws: &Vec<Vec<char>>) -> (r: Vec<char>)
    ensures
        r@ == join_words(nested_view(ws@)),
{
    let mut out: Vec<char> = Vec::new();
    let mut i: usize = 0;
    while i < ws.len()
        invariant
            i <= ws.len(),
            out@ == join_words(nested_view(ws@).take(i as int)),
        decreases ws.len() - i,
    {
        let ghost before = out@;
        if i > 0 {
            out.push(' ');
        }
        let w = &ws[i];
        let mut j: usize = 0;
        while j < w.len()
            invariant
                j <= w.len(),
                i < ws.len(),
                w == ws@[i as int],
                out@ == (if i > 0 { before + seq![' '] } else { before }) + w@.take(j as int),
            decreases w.len() - j,
        {
            out.push(w[j]);
            assert(w@.take(j + 1) =~= w@.take(j as int).push(w@[j as int]));
            j += 1;
        }
        assert(w@.take(w.len() as int) =~= w@);
        let ghost t = nested_view(ws@).take(i + 1);
        assert(t.drop_last() =~= nested_view(ws@).take(i as int));
        assert(t.last() == w@);
        if i == 0 {
            assert(out@ =~= join_words(t));
        } else {
            assert(out@ =~= join_words(t));
        }
        i += 1;
    }
    assert(nested_view(ws@).take(ws.len() as int) =~= nested_view(ws@));
    out
}

/// Splits `v` at line feeds.
pub fn lines_of(v: &Vec<char>) -> (r: Vec<Vec<char>>)
    ensures
        nested_view(r@) == lines(v@),
{
    let n = v.len();
    let mut done: Vec<Vec<char>> = Vec::new();
    let mut cur: Vec<char> = Vec::new();
    let mut k: usize = 0;
    assert(v@.subrange(0, n as int) =~= v@);
    while k < n
        invariant
            k <= n == v.len(),
            lines(v@) == nested_view(done@) + lines_after(v@.subrange(k as int, n as int), cur@),
        decreases n - k,
    {
        let ghost rest = v@.subrange(k as int, n as int);
        assert(rest.drop_first() =~= v@.subrange(k + 1, n as int));
        if v[k] == '\n' {
            let ghost before = nested_view(done@);
            let w = cur;
            done.push(w);
            assert(nested_view(done@) =~= before + seq![cur@]);
            cur = Vec::new();
            assert(lines(v@) =~= nested_view(done@) + lines_after(v@.subrange(k + 1, n as int), cur@));
        } else {
            cur.push(v[k]);
        }
        k += 1;
    }
    assert(v@.subrange(n as int, n as int) =~= Seq::<char>::empty());
    let ghost before = nested_view(done@);
    let ghost last = cur@;
    done.push(cur);
    assert(nested_view(done@) =~= before + seq![last]);
    assert(nested_view(done@) =~= lines(v@));
    done
}

/// Whether two character vectors are equal.
pub fn chars_eq(a: &Vec<char>, b: &Vec<char>) -> (r: bool)
    ensures
        r == (a@ == b@),
{
    if a.len() != b.len() {
        return false;
    }
    let mut k: usize = 0;
    while k < a.len()
        invariant
            a.len() == b.len(),
            k <= a.len(),
            forall|m: int| 0 <= m < k ==> a@[m] == b@[m],
        decreases a.len() - k,
    {
        if a[k] != b[k] {
            assert(a@[k as int] != b@[k as int]);
            return false;
        }
        k += 1;
    }
    assert(a@ =~= b@);
    true
}

/// The decimal digit of a value below 10.
pub open spec fn decimal_digit(d: nat) -> char {
    ((48 + d) as u8) as char
}

/// The decimal digits of `n`, most significant first, without leading zeros.
pub open spec fn decimal_digits(n: nat) -> Seq<char>
    decreases n,
{
    if n < 10 {
        seq![decimal_digit(n)]
    } else {
        decimal_digits(n / 10).push(decimal_digit(n % 10))
    }
}

/// The decimal text of an integer, with a leading `-` when it is negative.
pub open spec fn decimal_text(n: int) -> Seq<char> {
    if n < 0 {
        seq!['-'] + decimal_digits((-n) as nat)
    } else {
        decimal_digits(n as nat)
    }
}

fn push_decimal_digits(s: &mut String, m: u64)
    ensures
        final(s)@ == old(s)@ + decimal_digits(m as nat),
    decreases m,
{
    if m >= 10 {
        push_decimal_digits(s, m / 10);
    }
    let d: u8 = (m % 10) as u8;
    push_char(s, (48u8 + d) as char);
    assert(decimal_digit((m % 10) as nat) == (48u8 + d) as char);
}

/// Appends the decimal text of `n` to `s`, as `Display` writes it.
pub fn push_decimal(s: &mut String, n: i64)
    ensures
        final(s)@ == old(s)@ + decimal_text(n as int),
{
    if n < 0 {
        push_char(s, '-');
        let m: u64 = (0i128 - (n as i128)) as u64;
        let ghost mid = s@;
        push_decimal_digits(s, m);
        assert(s@ =~= old(s)@ + (seq!['-'] + decimal_digits(m as nat)));
    } else {
        push_decimal_digits(s, n as u64);
    }
}

} // verus!
