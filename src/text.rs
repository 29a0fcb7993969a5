use vstd::prelude::*;
use vstd::string::*;

verus! {

/// Whether a character counts as white space: the 25 code points with the
/// Unicode `White_Space` property.
pub open spec fn white_space(c: char) -> bool {
    let n = c as u32;
    (0x09 <= n <= 0x0d) || n == 0x20 || n == 0x85 || n == 0xa0 || n == 0x1680 || (0x2000 <= n
        <= 0x200a) || n == 0x2028 || n == 0x2029 || n == 0x202f || n == 0x205f || n == 0x3000
}

/// The text that a byte buffer decodes to when invalid UTF-8 sequences are
/// replaced by U+FFFD.
pub uninterp spec fn lossy_text(b: Seq<u8>) -> Seq<char>;

/// Whether `c` is white space.
fn is_space(c: char) -> (r: bool)
    ensures
        r == white_space(c),
{
    let n = c as u32;
    (0x09 <= n && n <= 0x0d) || n == 0x20 || n == 0x85 || n == 0xa0 || n == 0x1680 || (0x2000
        <= n && n <= 0x200a) || n == 0x2028 || n == 0x2029 || n == 0x202f || n == 0x205f || n
        == 0x3000
}

/// Relies on `String::from_utf8_lossy`: the result depends on the bytes alone,
/// and no bytes decode to no text.
#[verifier::external_body]
pub(crate) fn decode_lossy(b: &Vec<u8>) -> (r: String)
    ensures
        r@ == lossy_text(b@),
        b@.len() == 0 ==> r@.len() == 0,
{
    String::from_utf8_lossy(b.as_slice()).into_owned()
}

/// `s` without its leading white space.
pub open spec fn trim_start(s: Seq<char>) -> Seq<char>
    decreases s.len(),
{
    if s.len() > 0 && white_space(s[0]) {
        trim_start(s.drop_first())
    } else {
        s
    }
}

/// `s` without its trailing white space.
pub open spec fn trim_end(s: Seq<char>) -> Seq<char>
    decreases s.len(),
{
    if s.len() > 0 && white_space(s.last()) {
        trim_end(s.drop_last())
    } else {
        s
    }
}

/// `s` without white space at either end.
pub open spec fn trimmed(s: Seq<char>) -> Seq<char> {
    trim_end(trim_start(s))
}

/// An answer that reads as "yes": a single `y`, in either case, once trimmed.
pub open spec fn is_yes_answer(s: Seq<char>) -> bool {
    trimmed(s) == seq!['y'] || trimmed(s) == seq!['Y']
}

/// `s` with every leading repetition of `p` taken off; an empty `p` takes nothing.
pub open spec fn strip_repeated(s: Seq<char>, p: Seq<char>) -> Seq<char>
    decreases s.len(),
{
    if 0 < p.len() <= s.len() && s.subrange(0, p.len() as int) == p {
        strip_repeated(s.subrange(p.len() as int, s.len() as int), p)
    } else {
        s
    }
}

/// The pieces of `s` between occurrences of `sep`: one more piece than there
/// are separators, so an empty text gives one empty piece.
pub open spec fn fields(s: Seq<char>, sep: char) -> Seq<Seq<char>>
    decreases s.len(),
{
    if s.len() == 0 {
        seq![Seq::<char>::empty()]
    } else {
        let rest = fields(s.drop_last(), sep);
        if s.last() == sep {
            rest.push(Seq::<char>::empty())
        } else {
            rest.update(rest.len() - 1, rest.last().push(s.last()))
        }
    }
}

/// The pieces joined, with `sep` between each two neighbours.
pub open spec fn joined(v: Seq<Seq<char>>, sep: Seq<char>) -> Seq<char>
    decreases v.len(),
{
    if v.len() == 0 {
        Seq::<char>::empty()
    } else if v.len() == 1 {
        v[0]
    } else {
        joined(v.drop_last(), sep) + sep + v.last()
    }
}

/// The texts that a list of strings holds.
pub open spec fn texts(v: Seq<String>) -> Seq<Seq<char>> {
    v.map_values(|x: String| x@)
}

/// An owned copy of `s`.
pub(crate) fn owned(s: &str) -> (r: String)
    ensures
        r@ == s@,
{
    String::from_str(s)
}

/// A list of one string.
pub(crate) fn list1(a: &str) -> (r: Vec<String>)
    ensures
        texts(r@) == seq![a@],
{
    let mut v: Vec<String> = Vec::new();
    v.push(owned(a));
    assert(texts(v@) =~= seq![a@]);
    v
}

/// A list of two strings.
pub(crate) fn list2(a: &str, b: &str) -> (r: Vec<String>)
    ensures
        texts(r@) == seq![a@, b@],
{
    let mut v: Vec<String> = Vec::new();
    v.push(owned(a));
    v.push(owned(b));
    assert(texts(v@) =~= seq![a@, b@]);
    v
}

/// A list of three strings.
pub(crate) fn list3(a: &str, b: &str, c: &str) -> (r: Vec<String>)
    ensures
        texts(r@) == seq![a@, b@, c@],
{
    let mut v: Vec<String> = Vec::new();
    v.push(owned(a));
    v.push(owned(b));
    v.push(owned(c));
    assert(texts(v@) =~= seq![a@, b@, c@]);
    v
}

/// Copies `s[from..to]` into a new string.
fn piece(s: &str, from: usize, to: usize) -> (r: String)
    requires
        from <= to <= s@.len(),
    ensures
        r@ == s@.subrange(from as int, to as int),
{
    owned(s.substring_char(from, to))
}

/// Removes white space from both ends of `s`.
pub fn trim(s: &str) -> (r: String)
    ensures
        r@ == trimmed(s@),
{
    let n = s.unicode_len();
    let ghost whole = s@;
    let mut i: usize = 0;
    assert(whole.subrange(0, n as int) =~= whole);
    while i < n && is_space(s.get_char(i))
        invariant
            n == whole.len(),
            whole == s@,
            i <= n,
            trim_start(whole) == trim_start(whole.subrange(i as int, n as int)),
        decreases n - i,
    {
        assert(whole.subrange(i as int, n as int).drop_first() =~= whole.subrange(
            i as int + 1,
            n as int,
        ));
        i = i + 1;
    }
    assert(trim_start(whole) == whole.subrange(i as int, n as int));
    let mut j: usize = n;
    while j > i && is_space(s.get_char(j - 1))
        invariant
            n == whole.len(),
            whole == s@,
            i <= j <= n,
            trim_end(whole.subrange(i as int, n as int)) == trim_end(
                whole.subrange(i as int, j as int),
            ),
        decreases j - i,
    {
        assert(whole.subrange(i as int, j as int).drop_last() =~= whole.subrange(
            i as int,
            j as int - 1,
        ));
        j = j - 1;
    }
    piece(s, i, j)
}

/// Whether `s` answers "yes" to a y/n question.
pub fn is_yes(s: &str) -> (r: bool)
    ensures
        r == is_yes_answer(s@),
{
    let t = trim(s);
    let ts = t.as_str();
    if ts.unicode_len() != 1 {
        return false;
    }
    let c = ts.get_char(0);
    if c == 'y' || c == 'Y' {
        assert(ts@ =~= seq![c]);
        true
    } else {
        assert(ts@ != seq!['y']);
        assert(ts@ != seq!['Y']);
        false
    }
}

/// Whether `p` occurs in `s` at position `at`.
fn occurs_at(s: &str, p: &str, at: usize, n: usize, m: usize) -> (r: bool)
    requires
        n == s@.len(),
        m == p@.len(),
        at + m <= n,
    ensures
        r == (s@.subrange(at as int, at + m) == p@),
{
    let mut k: usize = 0;
    while k < m
        invariant
            n == s@.len(),
            m == p@.len(),
            at + m <= n,
            k <= m,
            forall|t: int| 0 <= t < k ==> s@[at + t] == p@[t],
        decreases m - k,
    {
        if s.get_char(at + k) != p.get_char(k) {
            assert(s@.subrange(at as int, at + m)[k as int] != p@[k as int]);
            return false;
        }
        k = k + 1;
    }
    assert(s@.subrange(at as int, at + m) =~= p@);
    true
}

/// Takes every leading repetition of `p` off `s`.
pub fn strip_prefix_repeated(s: &str, p: &str) -> (r: String)
    ensures
        r@ == strip_repeated(s@, p@),
{
    let n = s.unicode_len();
    let m = p.unicode_len();
    let ghost whole = s@;
    let mut i: usize = 0;
    assert(whole.subrange(0, n as int) =~= whole);
    if m > 0 {
        while m <= n - i && occurs_at(s, p, i, n, m)
            invariant
                n == whole.len(),
                whole == s@,
                m == p@.len(),
                m > 0,
                i <= n,
                strip_repeated(whole, p@) == strip_repeated(
                    whole.subrange(i as int, n as int),
                    p@,
                ),
            decreases n - i,
        {
            let ghost rest = whole.subrange(i as int, n as int);
            assert(rest.subrange(0, m as int) =~= whole.subrange(i as int, i + m));
            assert(rest.subrange(m as int, rest.len() as int) =~= whole.subrange(
                i + m,
                n as int,
            ));
            i = i + m;
        }
        let ghost rest = whole.subrange(i as int, n as int);
        if m <= n - i {
            assert(rest.subrange(0, m as int) =~= whole.subrange(i as int, i + m));
        }
    }
    assert(strip_repeated(whole, p@) == whole.subrange(i as int, n as int)) by {
        if m == 0 {
            assert(whole.subrange(0, n as int) =~= whole);
        }
    }
    piece(s, i, n)
}

/// Splits `s` at every `sep`.
pub fn split_fields(s: &str, sep: char) -> (r: Vec<String>)
    ensures
        texts(r@) == fields(s@, sep),
{
    let n = s.unicode_len();
    let ghost whole = s@;
    let mut done: Vec<String> = Vec::new();
    let mut start: usize = 0;
    let mut i: usize = 0;
    assert(texts(done@) =~= Seq::<Seq<char>>::empty());
    assert(whole.subrange(0, 0) =~= Seq::<char>::empty());
    assert(fields(whole.subrange(0, 0), sep) =~= texts(done@).push(whole.subrange(0, 0)));
    while i < n
        invariant
            n == whole.len(),
            whole == s@,
            start <= i <= n,
            fields(whole.subrange(0, i as int), sep) == texts(done@).push(
                whole.subrange(start as int, i as int),
            ),
        decreases n - i,
    {
        let c = s.get_char(i);
        let ghost before = whole.subrange(0, i as int);
        let ghost after = whole.subrange(0, i + 1);
        assert(after.drop_last() =~= before);
        assert(after.last() == c);
        let ghost old_texts = texts(done@);
        if c == sep {
            let f = piece(s, start, i);
            let ghost fv = f@;
            done.push(f);
            start = i + 1;
            assert(texts(done@) =~= old_texts.push(fv));
            assert(whole.subrange(start as int, i + 1) =~= Seq::<char>::empty());
            assert(fields(after, sep) =~= texts(done@).push(
                whole.subrange(start as int, i + 1),
            ));
        } else {
            assert(whole.subrange(start as int, i + 1) =~= whole.subrange(
                start as int,
                i as int,
            ).push(c));
            assert(fields(after, sep) =~= texts(done@).push(
                whole.subrange(start as int, i + 1),
            ));
        }
        i = i + 1;
    }
    assert(whole.subrange(0, n as int) =~= whole);
    let ghost old_texts = texts(done@);
    let f = piece(s, start, n);
    let ghost fv = f@;
    done.push(f);
    assert(texts(done@) =~= old_texts.push(fv));
    done
}

/// Joins `v` with `sep` between each two neighbours.
pub fn join_with(v: &Vec<String>, sep: &str) -> (r: String)
    ensures
        r@ == joined(texts(v@), sep@),
{
    let mut out = String::new();
    let mut i: usize = 0;
    while i < v.len()
        invariant
            i <= v.len(),
            out@ == joined(texts(v@.subrange(0, i as int)), sep@),
        decreases v.len() - i,
    {
        let ghost prev = texts(v@.subrange(0, i as int));
        let ghost next = texts(v@.subrange(0, i + 1));
        assert(next.drop_last() =~= prev);
        assert(next.last() == v@[i as int]@);
        if i > 0 {
            out.append(sep);
        }
        out.append(v[i].as_str());
        i = i + 1;
    }
    assert(v@.subrange(0, v.len() as int) =~= v@);
    out
}

/// The decimal digit `d`.
pub open spec fn digit(d: nat) -> char {
    seq!['0', '1', '2', '3', '4', '5', '6', '7', '8', '9'][d as int]
}

/// The decimal digits of `n`, most significant first, without leading zeros.
pub open spec fn digits(n: nat) -> Seq<char>
    decreases n,
{
    if n < 10 {
        seq![digit(n)]
    } else {
        digits(n / 10).push(digit(n % 10))
    }
}

/// `n` written in decimal, with a leading `-` when negative.
pub open spec fn decimal(n: int) -> Seq<char> {
    if n < 0 {
        seq!['-'] + digits((-n) as nat)
    } else {
        digits(n as nat)
    }
}

fn digit_str(d: u32) -> (r: &'static str)
    requires
        d < 10,
    ensures
        r@ == seq![digit(d as nat)],
{
    proof {
        reveal_strlit("0");
        reveal_strlit("1");
        reveal_strlit("2");
        reveal_strlit("3");
        reveal_strlit("4");
        reveal_strlit("5");
        reveal_strlit("6");
        reveal_strlit("7");
        reveal_strlit("8");
        reveal_strlit("9");
    }
    let r = match d {
        0 => "0",
        1 => "1",
        2 => "2",
        3 => "3",
        4 => "4",
        5 => "5",
        6 => "6",
        7 => "7",
        8 => "8",
        _ => "9",
    };
    assert(r@ =~= seq![digit(d as nat)]);
    r
}

fn append_digits(out: &mut String, n: u32)
    ensures
        final(out)@ == old(out)@ + digits(n as nat),
    decreases n,
{
    if n >= 10 {
        append_digits(out, n / 10);
    }
    out.append(digit_str(n % 10));
    proof {
        if n >= 10 {
            assert(old(out)@ + digits(n as nat) =~= old(out)@ + digits((n / 10) as nat) + seq![
                digit((n % 10) as nat),
            ]);
        } else {
            assert(old(out)@ + digits(n as nat) =~= old(out)@ + seq![digit((n % 10) as nat)]);
        }
    }
}

/// `n` written in decimal.
pub fn decimal_text(n: i32) -> (r: String)
    ensures
        r@ == decimal(n as int),
{
    if n < 0 {
        let mut out = owned("-");
        proof {
            reveal_strlit("-");
        }
        assert(out@ =~= seq!['-']);
        let m: i64 = n as i64;
        append_digits(&mut out, (0 - m) as u32);
        out
    } else {
        let mut out = String::new();
        append_digits(&mut out, n as u32);
        assert(out@ =~= digits(n as nat));
        out
    }
}

} // verus!
