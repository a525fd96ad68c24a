//! Text as a sequence of characters: searching, cutting and filling templates.

use vstd::prelude::*;
use vstd::string::*;

verus! {

/// `String::push` appends one character to the end of the string.
pub assume_specification[ String::push ](s: &mut String, c: char)
    ensures
        final(s)@ == old(s)@.push(c),
;

/// The characters of a text, in order.
pub fn chars_of(s: &str) -> (v: Vec<char>)
    ensures
        v@ == s@,
{
    let mut v: Vec<char> = Vec::new();
    for c in it: s.chars()
        invariant
            v@ == it.seq().take(it.index()),
            it.seq() == s@,
    {
        assert(it.seq().take(it.index() + 1) =~= it.seq().take(it.index()).push(c));
        v.push(c);
    }
    assert(s@.take(s@.len() as int) =~= s@);
    v
}

/// The text made of the characters `v[from..to]`.
pub fn slice_text(v: &Vec<char>, from: usize, to: usize) -> (s: String)
    requires
        from <= to <= v@.len(),
    ensures
        s@ == v@.subrange(from as int, to as int),
{
    let mut s = String::new();
    let mut i: usize = from;
    while i < to
        invariant
            from <= i <= to <= v@.len(),
            s@ == v@.subrange(from as int, i as int),
        decreases to - i,
    {
        s.push(v[i]);
        assert(v@.subrange(from as int, i + 1) =~= v@.subrange(from as int, i as int).push(v@[i as int]));
        i = i + 1;
    }
    s
}


/// `needle` stands in `hay` at position `i`.
pub open spec fn occurs_at(hay: Seq<char>, needle: Seq<char>, i: int) -> bool {
    0 <= i && i + needle.len() <= hay.len() && hay.subrange(i, i + needle.len()) == needle
}

/// `needle` stands somewhere in `hay`.
pub open spec fn has(hay: Seq<char>, needle: Seq<char>) -> bool {
    exists|i: int| occurs_at(hay, needle, i)
}

/// `hay` begins with `prefix`.
pub open spec fn begins(hay: Seq<char>, prefix: Seq<char>) -> bool {
    occurs_at(hay, prefix, 0)
}

/// `s` with every occurrence of `pat`, from the left and without overlap, replaced by `with`.
pub open spec fn replaced(s: Seq<char>, pat: Seq<char>, with: Seq<char>) -> Seq<char>
    decreases s.len(),
{
    if pat.len() == 0 || s.len() < pat.len() {
        s
    } else if begins(s, pat) {
        with + replaced(s.skip(pat.len() as int), pat, with)
    } else {
        seq![s[0]] + replaced(s.skip(1), pat, with)
    }
}

/// The first `n` characters of `s`, or all of them.
pub open spec fn first(s: Seq<char>, n: nat) -> Seq<char> {
    if s.len() <= n {
        s
    } else {
        s.take(n as int)
    }
}

/// The characters with the Unicode property `White_Space`.
pub open spec fn white(c: char) -> bool {
    ||| '\u{9}' <= c <= '\u{d}'
    ||| c == ' '
    ||| c == '\u{85}'
    ||| c == '\u{a0}'
    ||| c == '\u{1680}'
    ||| '\u{2000}' <= c <= '\u{200a}'
    ||| c == '\u{2028}'
    ||| c == '\u{2029}'
    ||| c == '\u{202f}'
    ||| c == '\u{205f}'
    ||| c == '\u{3000}'
}

/// `s` without the white space before its first other character.
pub open spec fn trimmed_start(s: Seq<char>) -> Seq<char>
    decreases s.len(),
{
    if s.len() > 0 && white(s[0]) {
        trimmed_start(s.skip(1))
    } else {
        s
    }
}

/// `s` without the white space after its last other character.
pub open spec fn trimmed_end(s: Seq<char>) -> Seq<char>
    decreases s.len(),
{
    if s.len() > 0 && white(s.last()) {
        trimmed_end(s.drop_last())
    } else {
        s
    }
}

/// `s` without the white space at either end.
pub open spec fn trimmed(s: Seq<char>) -> Seq<char> {
    trimmed_end(trimmed_start(s))
}

/// The characters that part the components of a path, on any system.
pub open spec fn separator(c: char) -> bool {
    c == '/' || c == '\\'
}

/// What follows the last path separator of `s`; all of `s` where there is none.
pub open spec fn last_component(s: Seq<char>) -> Seq<char>
    decreases s.len(),
{
    if s.len() == 0 || separator(s.last()) {
        Seq::empty()
    } else {
        last_component(s.drop_last()).push(s.last())
    }
}

/// The character of a decimal digit.
pub open spec fn digit(d: nat) -> char {
    (48 + d) as char
}

/// `n` in decimal.
pub open spec fn decimal_of(n: nat) -> Seq<char>
    decreases n,
{
    if n < 10 {
        seq![digit(n)]
    } else {
        decimal_of(n / 10).push(digit(n % 10))
    }
}

/// `s` with zeros before it up to `width` characters.
pub open spec fn zero_filled(s: Seq<char>, width: nat) -> Seq<char>
    decreases width - s.len(),
{
    if s.len() >= width {
        s
    } else {
        zero_filled(seq!['0'] + s, width)
    }
}

/// `n` in decimal, at least `width` characters wide, the sign counted in, zeros behind the sign.
pub open spec fn padded_of(n: int, width: nat) -> Seq<char> {
    if n < 0 {
        seq!['-'] + zero_filled(decimal_of((-n) as nat), (width - 1) as nat)
    } else {
        zero_filled(decimal_of(n as nat), width)
    }
}

/// What holds no first character of the pattern is passed over unchanged.
pub proof fn lemma_replaced_passes(head: Seq<char>, rest: Seq<char>, pat: Seq<char>, with: Seq<char>)
    requires
        pat.len() > 0,
        forall|i: int| 0 <= i < head.len() ==> head[i] != pat[0],
    ensures
        replaced(head + rest, pat, with) == head + replaced(rest, pat, with),
    decreases head.len(),
{
    if head.len() == 0 {
        assert(head + rest =~= rest);
        assert(head + replaced(rest, pat, with) =~= replaced(rest, pat, with));
    } else {
        let s = head + rest;
        let tail = head.skip(1);
        lemma_replaced_passes(tail, rest, pat, with);
        assert(s.skip(1) =~= tail + rest);
        assert(seq![s[0]] + (tail + replaced(rest, pat, with)) =~= head + replaced(rest, pat, with));
        if s.len() < pat.len() {
            assert(seq![s[0]] + s.skip(1) =~= s);
        } else {
            assert(s.subrange(0, pat.len() as int)[0] != pat[0]);
        }
    }
}

/// The pattern at the start is replaced, then the rest.
pub proof fn lemma_replaced_hits(pat: Seq<char>, rest: Seq<char>, with: Seq<char>)
    requires
        pat.len() > 0,
    ensures
        replaced(pat + rest, pat, with) == with + replaced(rest, pat, with),
{
    let s = pat + rest;
    assert(s.subrange(0, pat.len() as int) =~= pat);
    assert(s.skip(pat.len() as int) =~= rest);
}

/// A text that holds the pattern once, with no first character of it around, is filled in there.
pub proof fn lemma_replaced_once(
    head: Seq<char>,
    tail: Seq<char>,
    pat: Seq<char>,
    with: Seq<char>,
)
    requires
        pat.len() > 0,
        forall|i: int| 0 <= i < head.len() ==> head[i] != pat[0],
        forall|i: int| 0 <= i < tail.len() ==> tail[i] != pat[0],
    ensures
        replaced(head + pat + tail, pat, with) == head + with + tail,
{
    assert(head + pat + tail =~= head + (pat + tail));
    lemma_replaced_passes(head, pat + tail, pat, with);
    lemma_replaced_hits(pat, tail, with);
    let none = Seq::<char>::empty();
    assert(tail + none =~= tail);
    lemma_replaced_passes(tail, none, pat, with);
    assert(head + (with + tail) =~= head + with + tail);
}

/// Every placeholder of a template is filled in, however often it stands there: where the first
/// character of the placeholder marks placeholders only, and what is filled in has none, none is
/// left.
pub proof fn lemma_all_placeholders_are_filled(s: Seq<char>, pat: Seq<char>, with: Seq<char>)
    requires
        pat.len() > 0,
        forall|i: int| 0 <= i < with.len() ==> with[i] != pat[0],
        forall|i: int| 0 <= i < s.len() && s[i] == pat[0] ==> occurs_at(s, pat, i),
    ensures
        forall|i: int| 0 <= i < replaced(s, pat, with).len() ==> replaced(s, pat, with)[i] != pat[0],
        !(has(replaced(s, pat, with), pat)),
    decreases s.len(),
{
    let r = replaced(s, pat, with);
    if s.len() >= pat.len() {
        let hit = begins(s, pat);
        let n = if hit {
            pat.len() as int
        } else {
            1
        };
        let rest = s.skip(n);
        assert forall|i: int| 0 <= i < rest.len() && rest[i] == pat[0] implies occurs_at(
            rest,
            pat,
            i,
        ) by {
            assert(s[n + i] == pat[0]);
            assert(occurs_at(s, pat, n + i));
            assert(rest.subrange(i, i + pat.len()) =~= s.subrange(n + i, n + i + pat.len()));
        }
        lemma_all_placeholders_are_filled(rest, pat, with);
        let tail = replaced(rest, pat, with);
        assert forall|i: int| 0 <= i < r.len() implies r[i] != pat[0] by {
            if hit {
                if i >= with.len() {
                    assert(r[i] == tail[i - with.len()]);
                }
            } else if i == 0 {
                if s[0] == pat[0] {
                    assert(occurs_at(s, pat, 0));
                }
            } else {
                assert(r[i] == tail[i - 1]);
            }
        }
    } else {
        assert forall|i: int| 0 <= i < r.len() implies r[i] != pat[0] by {
            if s[i] == pat[0] {
                assert(occurs_at(s, pat, i));
            }
        }
    }
    if has(r, pat) {
        let i = choose|i: int| occurs_at(r, pat, i);
        assert(r.subrange(i, i + pat.len())[0] == pat[0]);
        assert(r[i] == pat[0]);
    }
}

/// Whether two texts are the same.
pub fn same(a: &str, b: &str) -> (r: bool)
    ensures
        r == (a@ == b@),
{
    let a: Vec<char> = chars_of(a);
    let b: Vec<char> = chars_of(b);
    if a.len() != b.len() {
        return false;
    }
    let r = at(&a, &b, 0);
    assert(a@.subrange(0, b@.len() as int) =~= a@);
    r
}

/// Whether `needle` stands in `hay` at position `i`.
fn at(hay: &Vec<char>, needle: &Vec<char>, i: usize) -> (r: bool)
    requires
        i <= hay@.len(),
    ensures
        r == occurs_at(hay@, needle@, i as int),
{
    let total: usize = hay.len();
    if total - i < needle.len() {
        return false;
    }
    let mut k: usize = 0;
    while k < needle.len()
        invariant
            k <= needle@.len(),
            i + needle@.len() <= hay@.len() == total,
            forall|m: int| 0 <= m < k ==> hay@[i + m] == needle@[m],
        decreases needle@.len() - k,
    {
        if hay[i + k] != needle[k] {
            assert(hay@.subrange(i as int, i + needle@.len())[k as int] != needle@[k as int]);
            return false;
        }
        k = k + 1;
    }
    assert(hay@.subrange(i as int, i + needle@.len()) =~= needle@);
    true
}

/// Whether `s` begins with `prefix`.
pub fn starts_with(s: &str, prefix: &str) -> (r: bool)
    ensures
        r == begins(s@, prefix@),
{
    at(&chars_of(s), &chars_of(prefix), 0)
}

/// Whether `needle` stands somewhere in `hay`.
pub fn contains(hay: &str, needle: &str) -> (r: bool)
    ensures
        r == has(hay@, needle@),
{
    let h: Vec<char> = chars_of(hay);
    let n: Vec<char> = chars_of(needle);
    let mut i: usize = 0;
    loop
        invariant
            h@ == hay@,
            n@ == needle@,
            i <= h@.len(),
            forall|j: int| 0 <= j < i ==> !occurs_at(hay@, needle@, j),
        decreases h@.len() - i,
    {
        if at(&h, &n, i) {
            assert(occurs_at(hay@, needle@, i as int));
            return true;
        }
        if i == h.len() {
            assert forall|j: int| !occurs_at(hay@, needle@, j) by {
                if occurs_at(hay@, needle@, j) {
                    assert(j <= i);
                }
            }
            return false;
        }
        i = i + 1;
    }
}

/// `s` with every occurrence of `pat` replaced by `with`.
pub fn replace(s: &str, pat: &str, with: &str) -> (r: String)
    requires
        pat@.len() > 0,
    ensures
        r@ == replaced(s@, pat@, with@),
{
    let h: Vec<char> = chars_of(s);
    let p: Vec<char> = chars_of(pat);
    let mut r = String::new();
    let mut i: usize = 0;
    assert(h@.skip(0) =~= s@);
    while i < h.len()
        invariant
            h@ == s@,
            p@ == pat@,
            pat@.len() > 0,
            i <= h@.len(),
            r@ + replaced(h@.skip(i as int), pat@, with@) == replaced(s@, pat@, with@),
        decreases h@.len() - i,
    {
        let ghost rest = h@.skip(i as int);
        let ghost done = r@;
        assert(h@.subrange(i as int, i + p@.len()) =~= rest.subrange(0, p@.len() as int)
            || i + p@.len() > h@.len());
        if at(&h, &p, i) {
            r.append(with);
            i = i + p.len();
            assert(rest.skip(pat@.len() as int) =~= h@.skip(i as int));
            assert(r@ + replaced(h@.skip(i as int), pat@, with@) =~= done + (with@ + replaced(
                h@.skip(i as int),
                pat@,
                with@,
            )));
        } else {
            r.push(h[i]);
            i = i + 1;
            assert(rest.skip(1) =~= h@.skip(i as int));
            assert(done.push(rest[0]) + replaced(h@.skip(i as int), pat@, with@) =~= done + (
            seq![rest[0]] + replaced(h@.skip(i as int), pat@, with@)));
            proof {
                if rest.len() < pat@.len() {
                    assert(replaced(h@.skip(i as int), pat@, with@) == h@.skip(i as int));
                    assert(rest =~= seq![rest[0]] + h@.skip(i as int));
                }
            }
        }
    }
    assert(h@.skip(i as int) =~= Seq::empty());
    assert(r@ + Seq::<char>::empty() =~= r@);
    r
}

/// The first `n` characters of `s`, or all of them.
pub fn take(s: &str, n: usize) -> (r: String)
    ensures
        r@ == first(s@, n as nat),
{
    let v: Vec<char> = chars_of(s);
    let to: usize = if v.len() <= n { v.len() } else { n };
    assert(s@.subrange(0, s@.len() as int) =~= s@);
    assert(to == n ==> s@.subrange(0, to as int) =~= s@.take(n as int));
    slice_text(&v, 0, to)
}

/// Whether `c` has the Unicode property `White_Space`.
pub fn is_white(c: char) -> (r: bool)
    ensures
        r == white(c),
{
    ('\u{9}' <= c && c <= '\u{d}') || c == ' ' || c == '\u{85}' || c == '\u{a0}' || c == '\u{1680}'
        || ('\u{2000}' <= c && c <= '\u{200a}') || c == '\u{2028}' || c == '\u{2029}' || c
        == '\u{202f}' || c == '\u{205f}' || c == '\u{3000}'
}

/// `s` without the white space at either end.
pub fn trim(s: &str) -> (r: String)
    ensures
        r@ == trimmed(s@),
{
    let v: Vec<char> = chars_of(s);
    let mut from: usize = 0;
    assert(v@.skip(0) =~= v@);
    while from < v.len() && is_white(v[from])
        invariant
            v@ == s@,
            from <= v@.len(),
            trimmed_start(v@.skip(from as int)) == trimmed_start(s@),
        decreases v@.len() - from,
    {
        assert(v@.skip(from as int).skip(1) =~= v@.skip(from + 1));
        from = from + 1;
    }
    assert(trimmed_start(s@) == v@.skip(from as int));
    let mut to: usize = v.len();
    assert(v@.subrange(from as int, to as int) =~= v@.skip(from as int));
    while from < to && is_white(v[to - 1])
        invariant
            from <= to <= v@.len(),
            trimmed_end(v@.subrange(from as int, to as int)) == trimmed(s@),
        decreases to,
    {
        assert(v@.subrange(from as int, to as int).drop_last() =~= v@.subrange(
            from as int,
            to - 1,
        ));
        to = to - 1;
    }
    slice_text(&v, from, to)
}

/// What follows the last path separator of `s`; all of `s` where there is none.
pub fn basename(s: &str) -> (r: String)
    ensures
        r@ == last_component(s@),
{
    let v: Vec<char> = chars_of(s);
    let mut from: usize = v.len();
    proof {
        assert(v@.take(from as int) =~= s@);
        assert(v@.subrange(from as int, v@.len() as int) =~= Seq::empty());
        assert(last_component(s@) + Seq::<char>::empty() =~= last_component(s@));
    }
    while from > 0 && v[from - 1] != '/' && v[from - 1] != '\\'
        invariant
            v@ == s@,
            from <= v@.len(),
            last_component(v@.take(from as int)) + v@.subrange(from as int, v@.len() as int)
                == last_component(s@),
        decreases from,
    {
        let ghost head = v@.take(from as int);
        assert(head.drop_last() =~= v@.take(from - 1));
        assert(last_component(v@.take(from - 1)).push(head.last()) + v@.subrange(
            from as int,
            v@.len() as int,
        ) =~= last_component(v@.take(from - 1)) + v@.subrange(from - 1, v@.len() as int));
        from = from - 1;
    }
    assert(last_component(v@.take(from as int)) =~= Seq::empty());
    assert(Seq::<char>::empty() + v@.subrange(from as int, v@.len() as int) =~= v@.subrange(
        from as int,
        v@.len() as int,
    ));
    let n: usize = v.len();
    slice_text(&v, from, n)
}

/// `n` in decimal.
pub fn decimal(n: u64) -> (r: String)
    ensures
        r@ == decimal_of(n as nat),
    decreases n,
{
    let mut r = if n < 10 {
        String::new()
    } else {
        decimal(n / 10)
    };
    let d: u8 = (n % 10) as u8;
    r.push((48 + d) as char);
    assert(n < 10 ==> r@ =~= seq![digit(n as nat)]);
    r
}

/// `s` with zeros before it up to `width` characters.
fn zero_fill(s: String, width: usize) -> (r: String)
    ensures
        r@ == zero_filled(s@, width as nat),
{
    let mut r = s;
    let mut n: usize = r.as_str().unicode_len();
    while n < width
        invariant
            n == r@.len(),
            zero_filled(r@, width as nat) == zero_filled(s@, width as nat),
        decreases width - n,
    {
        let mut next = String::new();
        next.push('0');
        next.append(r.as_str());
        assert(next@ =~= seq!['0'] + r@);
        r = next;
        n = n + 1;
    }
    r
}

/// `n` in decimal, at least `width` characters wide, the sign counted in, zeros behind the sign.
pub fn padded(n: i64, width: usize) -> (r: String)
    requires
        n > i64::MIN,
        width > 0,
    ensures
        r@ == padded_of(n as int, width as nat),
{
    if n < 0 {
        let mut r = String::new();
        r.push('-');
        let rest = zero_fill(decimal((-n) as u64), width - 1);
        r.append(rest.as_str());
        assert(r@ =~= seq!['-'] + rest@);
        r
    } else {
        zero_fill(decimal(n as u64), width)
    }
}

/// `a` followed by `b`.
pub fn join(a: &str, b: &str) -> (r: String)
    ensures
        r@ == a@ + b@,
{
    let mut r = String::new();
    r.append(a);
    r.append(b);
    assert(r@ =~= a@ + b@);
    r
}

/// A copy of a text.
pub fn owned(s: &str) -> (r: String)
    ensures
        r@ == s@,
{
    s.to_owned()
}

/// What an optional text holds.
pub open spec fn opt(s: Option<String>) -> Option<Seq<char>> {
    match s {
        Some(t) => Some(t@),
        None => None,
    }
}

/// What an optional borrowed text holds.
pub open spec fn opt_str(s: Option<&str>) -> Option<Seq<char>> {
    match s {
        Some(t) => Some(t@),
        None => None,
    }
}

/// A copy of an optional borrowed text.
pub fn owned_opt(s: Option<&str>) -> (r: Option<String>)
    ensures
        opt(r) == opt_str(s),
{
    match s {
        Some(t) => Some(owned(t)),
        None => None,
    }
}

/// A copy of an optional text.
pub fn copy_opt(s: &Option<String>) -> (r: Option<String>)
    ensures
        r == *s,
{
    match s {
        Some(t) => Some(t.clone()),
        None => None,
    }
}

/// The text holds ASCII characters only.
pub open spec fn ascii(s: Seq<char>) -> bool {
    forall|i: int| 0 <= i < s.len() ==> (#[trigger] s[i]) as u32 <= 127
}

/// The ASCII letter in lower case, any other character as it is.
pub open spec fn lower_letter(c: char) -> char {
    if 65 <= c as u32 <= 90 {
        (c as u32 + 32) as char
    } else {
        c
    }
}

/// The text with its ASCII letters in lower case.
pub open spec fn lowered(s: Seq<char>) -> Seq<char> {
    s.map_values(|c: char| lower_letter(c))
}

/// The ASCII letter in upper case, any other character as it is.
pub open spec fn upper_letter(c: char) -> char {
    if 97 <= c as u32 <= 122 {
        (c as u32 - 32) as char
    } else {
        c
    }
}

/// The text with its ASCII letters in upper case.
pub open spec fn uppered(s: Seq<char>) -> Seq<char> {
    s.map_values(|c: char| upper_letter(c))
}

/// The lower-case form of a text that is not all ASCII.
pub uninterp spec fn unicode_lowercase(s: Seq<char>) -> Seq<char>;

/// The lower-case form of a text.
pub open spec fn lowercase_of(s: Seq<char>) -> Seq<char> {
    if ascii(s) {
        lowered(s)
    } else {
        unicode_lowercase(s)
    }
}

/// `str::to_lowercase` maps a text to its lower-case form by the Unicode rules. Of an ASCII text it
/// maps the letters `A` to `Z` to `a` to `z` and keeps the rest; of any other the form depends on
/// the text alone, and nothing more is said of it.
#[verifier::external_body]
pub(crate) fn lowercase(s: &str) -> (r: String)
    ensures
        ascii(s@) ==> r@ == lowered(s@),
        !ascii(s@) ==> r@ == unicode_lowercase(s@),
{
    s.to_lowercase()
}

/// The letters and numbers of Unicode beyond ASCII.
pub uninterp spec fn unicode_alphanumeric(c: char) -> bool;

/// The ASCII letters and digits.
pub open spec fn ascii_alphanumeric(c: char) -> bool {
    ||| 48 <= c as u32 <= 57
    ||| 65 <= c as u32 <= 90
    ||| 97 <= c as u32 <= 122
}

/// The letters and numbers of Unicode.
pub open spec fn alphanumeric(c: char) -> bool {
    if c as u32 <= 127 {
        ascii_alphanumeric(c)
    } else {
        unicode_alphanumeric(c)
    }
}

/// `char::is_alphanumeric` tells the letters and numbers of Unicode. Of the ASCII characters these
/// are the letters and the digits; of any other the answer depends on the character alone.
pub assume_specification[ char::is_alphanumeric ](c: char) -> (r: bool)
    ensures
        c as u32 <= 127 ==> r == ascii_alphanumeric(c),
        c as u32 > 127 ==> r == unicode_alphanumeric(c),
;

/// Lower case is reached in one go: an ASCII text in lower case is its own lower-case form, and it
/// is ASCII still.
pub proof fn lemma_lowercase_is_kept(s: Seq<char>)
    requires
        ascii(s),
    ensures
        ascii(lowercase_of(s)),
        lowercase_of(lowercase_of(s)) == lowercase_of(s),
{
    let l = lowercase_of(s);
    assert forall|i: int| 0 <= i < l.len() implies (#[trigger] l[i]) as u32 <= 127 by {
        assert(s[i] as u32 <= 127);
    }
    assert(lowered(l) =~= l);
}

/// What stands between two texts is found there, and what stands in front is what the whole begins
/// with.
pub proof fn lemma_parts_are_found(a: Seq<char>, part: Seq<char>, b: Seq<char>)
    ensures
        has(a + part + b, part),
        begins(part + b, part),
{
    let whole = a + part + b;
    assert(whole.subrange(a.len() as int, (a.len() + part.len()) as int) =~= part);
    assert(occurs_at(whole, part, a.len() as int));
    assert((part + b).subrange(0, part.len() as int) =~= part);
}

/// What is found in a text can be cut out of it.
pub proof fn lemma_found_is_there(hay: Seq<char>, needle: Seq<char>)
    ensures
        has(hay, needle) ==> exists|a: Seq<char>, b: Seq<char>| hay == #[trigger] ((a + needle) + b),
        begins(hay, needle) ==> hay == needle + hay.skip(needle.len() as int),
{
    if has(hay, needle) {
        let i = choose|i: int| occurs_at(hay, needle, i);
        let (a, b) = (hay.take(i), hay.skip(i + needle.len()));
        assert(hay.subrange(i, i + needle.len()) == needle);
        assert(hay =~= (a + needle) + b);
    }
    if begins(hay, needle) {
        assert(hay.subrange(0, needle.len() as int) == needle);
        assert(hay =~= needle + hay.skip(needle.len() as int));
    }
}

/// A text without the pattern stays as it is.
pub proof fn lemma_nothing_to_replace(s: Seq<char>, pat: Seq<char>, with: Seq<char>)
    requires
        !(has(s, pat)),
    ensures
        replaced(s, pat, with) == s,
    decreases s.len(),
{
    if pat.len() > 0 && s.len() >= pat.len() {
        assert(!occurs_at(s, pat, 0));
        let rest = s.skip(1);
        assert(!(has(rest, pat))) by {
            if has(rest, pat) {
                let i = choose|i: int| occurs_at(rest, pat, i);
                assert(s.subrange(i + 1, i + 1 + pat.len()) =~= rest.subrange(i, i + pat.len()));
                assert(occurs_at(s, pat, i + 1));
            }
        }
        lemma_nothing_to_replace(rest, pat, with);
        assert(seq![s[0]] + rest =~= s);
    }
}

/// A text is cut to its first characters, and only where it is longer.
pub proof fn lemma_cut_text(s: Seq<char>, n: nat)
    ensures
        s.len() <= n ==> first(s, n) == s,
        s.len() > n ==> first(s, n).len() == n,
        forall|i: int| 0 <= i < first(s, n).len() ==> #[trigger] first(s, n)[i] == s[i],
{
}

/// Blanks, tabs and line ends are white space; the visible ASCII characters are not.
pub proof fn lemma_white_space(c: char)
    ensures
        c == ' ' || c == '\t' || c == '\n' || c == '\r' ==> white(c),
        33 <= c as u32 <= 126 ==> !white(c),
{
}

proof fn lemma_trimmed_start_of(before: Seq<char>, rest: Seq<char>)
    requires
        forall|i: int| 0 <= i < before.len() ==> white(#[trigger] before[i]),
    ensures
        trimmed_start(before + rest) == trimmed_start(rest),
    decreases before.len(),
{
    if before.len() == 0 {
        assert(before + rest =~= rest);
    } else {
        let s = before + rest;
        assert(s[0] == before[0]);
        assert(s.skip(1) =~= before.skip(1) + rest);
        lemma_trimmed_start_of(before.skip(1), rest);
    }
}

proof fn lemma_trimmed_end_of(rest: Seq<char>, after: Seq<char>)
    requires
        forall|i: int| 0 <= i < after.len() ==> white(#[trigger] after[i]),
    ensures
        trimmed_end(rest + after) == trimmed_end(rest),
    decreases after.len(),
{
    if after.len() == 0 {
        assert(rest + after =~= rest);
    } else {
        let s = rest + after;
        assert(s.last() == after[after.len() - 1]);
        assert(s.drop_last() =~= rest + after.drop_last());
        lemma_trimmed_end_of(rest, after.drop_last());
    }
}

/// The white space at either end goes and nothing else does: what lies between, from its first
/// character that is no white space to its last, is what is left.
pub proof fn lemma_trimmed_core(before: Seq<char>, core: Seq<char>, after: Seq<char>)
    requires
        forall|i: int| 0 <= i < before.len() ==> white(#[trigger] before[i]),
        forall|i: int| 0 <= i < after.len() ==> white(#[trigger] after[i]),
        core.len() == 0 || (!white(core[0]) && !white(core.last())),
    ensures
        trimmed(before + core + after) == core,
{
    assert(before + core + after =~= before + (core + after));
    lemma_trimmed_start_of(before, core + after);
    if core.len() == 0 {
        assert(core + after =~= after);
        assert(after + core =~= after);
        lemma_trimmed_start_of(after, core);
    } else {
        assert((core + after)[0] == core[0]);
        lemma_trimmed_end_of(core, after);
    }
}

/// What follows the last separator of a path is its last component, whatever comes before; a name
/// without a separator is its own.
pub proof fn lemma_last_component_of(dir: Seq<char>, name: Seq<char>)
    requires
        forall|i: int| 0 <= i < name.len() ==> #[trigger] name[i] != '/' && name[i] != '\\',
    ensures
        last_component(name) == name,
        last_component(dir + seq!['/'] + name) == name,
        last_component(dir + seq!['\\'] + name) == name,
    decreases name.len(),
{
    let (a, b) = (dir + seq!['/'] + name, dir + seq!['\\'] + name);
    if name.len() == 0 {
        assert(a.last() == '/');
        assert(b.last() == '\\');
        assert(last_component(name) =~= name);
        assert(last_component(a) =~= name);
        assert(last_component(b) =~= name);
    } else {
        let head = name.drop_last();
        assert(name[name.len() - 1] == name.last());
        assert forall|i: int| 0 <= i < head.len() implies #[trigger] head[i] != '/' && head[i]
            != '\\' by {
            assert(name[i] == head[i]);
        }
        lemma_last_component_of(dir, head);
        assert(a.last() == name.last() && b.last() == name.last());
        assert(a.drop_last() =~= dir + seq!['/'] + head);
        assert(b.drop_last() =~= dir + seq!['\\'] + head);
        assert(head.push(name.last()) =~= name);
    }
}

/// The number that decimal digits stand for.
pub open spec fn number_read(s: Seq<char>) -> int
    decreases s.len(),
{
    if s.len() == 0 {
        0
    } else {
        number_read(s.drop_last()) * 10 + (s.last() as int - 48)
    }
}

/// A number in decimal reads as that number: digits only, at least one, and none too many at the
/// front.
pub proof fn lemma_decimal_reads_back(n: nat)
    ensures
        number_read(decimal_of(n)) == n,
        decimal_of(n).len() > 0,
        decimal_of(n)[0] == '0' ==> n == 0,
        n < 10 ==> decimal_of(n).len() == 1,
        forall|i: int| 0 <= i < decimal_of(n).len() ==> '0' <= #[trigger] decimal_of(n)[i] <= '9',
    decreases n,
{
    let s = decimal_of(n);
    if n < 10 {
        assert(s.drop_last() =~= Seq::empty());
        assert(number_read(s.drop_last()) == 0);
    } else {
        lemma_decimal_reads_back(n / 10);
        assert(s.drop_last() =~= decimal_of(n / 10));
        assert(s[0] == decimal_of(n / 10)[0]);
    }
}

proof fn lemma_zeros_read_as_nothing(s: Seq<char>)
    ensures
        number_read(seq!['0'] + s) == number_read(s),
    decreases s.len(),
{
    let t = seq!['0'] + s;
    if s.len() == 0 {
        assert(t.drop_last() =~= Seq::empty());
        assert(number_read(t.drop_last()) == 0);
    } else {
        assert(t.drop_last() =~= seq!['0'] + s.drop_last());
        lemma_zeros_read_as_nothing(s.drop_last());
        assert(t.last() == s.last());
    }
}

/// Zeros in front fill a text up to the width that is asked for, and change no number.
pub proof fn lemma_zero_filled(s: Seq<char>, width: nat)
    ensures
        number_read(zero_filled(s, width)) == number_read(s),
        s.len() >= width ==> zero_filled(s, width) == s,
        s.len() < width ==> zero_filled(s, width).len() == width,
    decreases width - s.len(),
{
    if s.len() < width {
        lemma_zeros_read_as_nothing(s);
        lemma_zero_filled(seq!['0'] + s, width);
    }
}

/// A padded number reads as that number, behind its sign where it is below zero, and is as wide as
/// asked at least.
pub proof fn lemma_padded_reads_back(n: int, width: nat)
    requires
        width > 0,
    ensures
        padded_of(n, width).len() >= width,
        n >= 0 ==> number_read(padded_of(n, width)) == n,
        n < 0 ==> padded_of(n, width)[0] == '-' && number_read(padded_of(n, width).skip(1)) == -n,
{
    if n >= 0 {
        lemma_decimal_reads_back(n as nat);
        lemma_zero_filled(decimal_of(n as nat), width);
    } else {
        let digits = zero_filled(decimal_of((-n) as nat), (width - 1) as nat);
        lemma_decimal_reads_back((-n) as nat);
        lemma_zero_filled(decimal_of((-n) as nat), (width - 1) as nat);
        assert((seq!['-'] + digits).skip(1) =~= digits);
    }
}

/// The white space beyond ASCII, by its code points, and nothing else beyond it.
pub proof fn lemma_white_space_beyond_ascii(c: char)
    requires
        c as u32 > 127,
    ensures
        white(c) <==> {
            let n = c as u32;
            ||| n == 0x85 || n == 0xa0 || n == 0x1680
            ||| 0x2000 <= n <= 0x200a
            ||| n == 0x2028 || n == 0x2029 || n == 0x202f || n == 0x205f || n == 0x3000
        },
{
}

/// The parts of a path are parted by slashes of either kind, and by nothing else.
pub proof fn lemma_slashes_part_paths(c: char)
    ensures
        separator(c) <==> c as u32 == 47 || c as u32 == 92,
{
}

/// The ASCII letters and digits are those from zero to nine and from A to Z in either case; only
/// those in upper case have another in lower case, the letter of the same place.
pub proof fn lemma_ascii_letters_and_digits(c: char)
    ensures
        ascii_alphanumeric(c) <==> '0' <= c <= '9' || 'A' <= c <= 'Z' || 'a' <= c <= 'z',
        c as u32 <= 127 ==> alphanumeric(c) == ascii_alphanumeric(c),
        'A' <= c <= 'Z' ==> lower_letter(c) as int - 'a' as int == c as int - 'A' as int,
        !('A' <= c <= 'Z') ==> lower_letter(c) == c,
{
}

} // verus!
