use vstd::prelude::*;
use vstd::string::StrSliceExecFns;

verus! {

broadcast use vstd::string::group_string_axioms;

/// Unicode's `White_Space` property, the notion of blank that `str::trim` uses.
pub open spec fn is_white_space(c: char) -> bool {
    ||| '\u{9}' <= c <= '\u{d}'
    ||| c == ' '
    ||| c == '\u{85}'
    ||| c == '\u{a0}'
    ||| c == '\u{1680}'
    ||| '\u{2000}' <= c <= '\u{200a}'
    ||| c == '\u{2028}'
    ||| c == '\u{2029}'
    ||| c == '\u{202f}'
    ||| c == '\u{205f}'
    ||| c == '\u{3000}'
}

/// The length in bytes of the UTF-8 form of `s`, as `str::len` reports it
/// (vstd states `str::len` as this length taken as a `usize`).
pub open spec fn byte_len(s: Seq<char>) -> usize {
    vstd::utf8::encode_utf8(s).len() as usize
}

/// Number of white space characters at the start of `s`.
pub open spec fn leading_blanks(s: Seq<char>) -> nat
    decreases s.len(),
{
    if s.len() > 0 && is_white_space(s[0]) {
        1 + leading_blanks(s.drop_first())
    } else {
        0
    }
}

/// Number of white space characters at the end of `s`.
pub open spec fn trailing_blanks(s: Seq<char>) -> nat
    decreases s.len(),
{
    if s.len() > 0 && is_white_space(s.last()) {
        1 + trailing_blanks(s.drop_last())
    } else {
        0
    }
}

/// `s` without its leading and trailing white space.
pub open spec fn trimmed(s: Seq<char>) -> Seq<char> {
    if leading_blanks(s) == s.len() {
        Seq::empty()
    } else {
        s.subrange(leading_blanks(s) as int, s.len() - trailing_blanks(s))
    }
}

/// The first `n` characters of `s`, or all of `s` when it is shorter.
pub open spec fn first_chars(s: Seq<char>, n: nat) -> Seq<char> {
    if s.len() <= n {
        s
    } else {
        s.take(n as int)
    }
}

/// The ASCII lowercase form of one character: `A`..`Z` become `a`..`z`.
pub open spec fn ascii_lower(c: char) -> char {
    if 'A' <= c <= 'Z' {
        ((c as u32) + 32) as char
    } else {
        c
    }
}

/// Whether `c` is an ASCII capital letter.
pub open spec fn is_ascii_capital(c: char) -> bool {
    'A' <= c <= 'Z'
}

/// The ASCII uppercase form of one character: `a`..`z` become `A`..`Z`.
pub open spec fn ascii_upper(c: char) -> char {
    if 'a' <= c <= 'z' {
        ((c as u32) - 32) as char
    } else {
        c
    }
}

/// What `str::to_lowercase` returns for text that is not all ASCII (Unicode's
/// lowercase mapping).
pub uninterp spec fn unicode_lowercase(s: Seq<char>) -> Seq<char>;

/// What `str::to_lowercase` returns for `s`: on ASCII text the documented
/// Unicode mapping is the ASCII one, character by character; on other text it
/// is `unicode_lowercase`, which holds no ASCII capital letter (lowering it
/// once more changes nothing).
pub open spec fn lowercase(s: Seq<char>) -> Seq<char> {
    if vstd::utf8::is_ascii_chars(s) {
        s.map_values(|c: char| ascii_lower(c))
    } else {
        unicode_lowercase(s).map_values(|c: char| ascii_lower(c))
    }
}

/// `ascii_lower` leaves no capital letter and changes nothing else.
pub proof fn lemma_ascii_lower(c: char)
    ensures
        !is_ascii_capital(ascii_lower(c)),
        !is_ascii_capital(c) ==> ascii_lower(c) == c,
        ascii_lower(ascii_upper(c)) == ascii_lower(c),
        is_white_space(ascii_upper(c)) == is_white_space(c),
        (c as u32) < 128 ==> (ascii_upper(c) as u32) < 128,
{
    assert(('A' as u32) == 65 && ('Z' as u32) == 90 && ('a' as u32) == 97 && ('z' as u32) == 122);
    if is_ascii_capital(c) {
        assert(65 <= (c as u32) <= 90);
        assert(97 <= ((c as u32) + 32) <= 122);
        vstd::utf8::char_u32_cast(ascii_lower(c), ((c as u32) + 32) as u32);
    }
    if 'a' <= c <= 'z' {
        assert(97 <= (c as u32) <= 122);
        vstd::utf8::char_u32_cast(ascii_upper(c), ((c as u32) - 32) as u32);
        vstd::utf8::char_u32_cast(ascii_lower(ascii_upper(c)), (((c as u32) - 32) + 32) as u32);
    }
}

/// Lowercased text holds no ASCII capital letter.
pub proof fn lemma_lowercase_has_no_capitals(s: Seq<char>)
    ensures
        forall|i: int| 0 <= i < lowercase(s).len() ==> !is_ascii_capital(#[trigger] lowercase(s)[i]),
{
    assert forall|i: int| 0 <= i < lowercase(s).len() implies !is_ascii_capital(
        #[trigger] lowercase(s)[i],
    ) by {
        if vstd::utf8::is_ascii_chars(s) {
            lemma_ascii_lower(s[i]);
        } else {
            lemma_ascii_lower(unicode_lowercase(s)[i]);
        }
    }
}

pub proof fn lemma_leading_blanks_bound(s: Seq<char>)
    ensures
        leading_blanks(s) <= s.len(),
        forall|i: int| 0 <= i < leading_blanks(s) ==> is_white_space(#[trigger] s[i]),
        leading_blanks(s) < s.len() ==> !is_white_space(s[leading_blanks(s) as int]),
    decreases s.len(),
{
    if s.len() > 0 && is_white_space(s[0]) {
        lemma_leading_blanks_bound(s.drop_first());
        assert forall|i: int| 0 <= i < leading_blanks(s) implies is_white_space(#[trigger] s[i]) by {
            if i > 0 {
                assert(s[i] == s.drop_first()[i - 1]);
            }
        }
    }
}

pub proof fn lemma_trailing_blanks_bound(s: Seq<char>)
    ensures
        trailing_blanks(s) <= s.len(),
        forall|i: int|
            s.len() - trailing_blanks(s) <= i < s.len() ==> is_white_space(#[trigger] s[i]),
        trailing_blanks(s) < s.len() ==> !is_white_space(s[s.len() - 1 - trailing_blanks(s)]),
    decreases s.len(),
{
    if s.len() > 0 && is_white_space(s.last()) {
        lemma_trailing_blanks_bound(s.drop_last());
        assert forall|i: int|
            s.len() - trailing_blanks(s) <= i < s.len() implies is_white_space(#[trigger] s[i]) by {
            if i < s.len() - 1 {
                assert(s[i] == s.drop_last()[i]);
            }
        }
    }
}

/// A text without white space at either end is its own trimmed form.
pub proof fn lemma_trimmed_unchanged(s: Seq<char>)
    requires
        s.len() == 0 || (!is_white_space(s[0]) && !is_white_space(s.last())),
    ensures
        trimmed(s) == s,
{
    if s.len() == 0 {
        assert(trimmed(s) =~= s);
    } else {
        assert(leading_blanks(s) == 0);
        assert(trailing_blanks(s) == 0);
        assert(s.subrange(0, s.len() as int) =~= s);
    }
}

/// `first_chars` keeps at most `n` characters, all from the start of `s`.
pub proof fn lemma_first_chars(s: Seq<char>, n: nat)
    ensures
        first_chars(s, n).len() <= n,
        first_chars(s, n).len() <= s.len(),
        forall|i: int| 0 <= i < first_chars(s, n).len() ==> #[trigger] first_chars(s, n)[i] == s[i],
{
}

/// Whether every character of `s` is white space.
pub open spec fn all_blank(s: Seq<char>) -> bool {
    forall|i: int| 0 <= i < s.len() ==> is_white_space(#[trigger] s[i])
}

proof fn lemma_leading_after_blanks(p: Seq<char>, x: Seq<char>)
    requires
        all_blank(p),
    ensures
        leading_blanks(p + x) == p.len() + leading_blanks(x),
    decreases p.len(),
{
    if p.len() > 0 {
        assert((p + x)[0] == p[0]);
        assert((p + x).drop_first() =~= p.drop_first() + x);
        assert forall|i: int| 0 <= i < p.drop_first().len() implies is_white_space(
            #[trigger] p.drop_first()[i],
        ) by {
            assert(p.drop_first()[i] == p[i + 1]);
        }
        lemma_leading_after_blanks(p.drop_first(), x);
    } else {
        assert(p + x =~= x);
    }
}

proof fn lemma_trailing_before_blanks(x: Seq<char>, q: Seq<char>)
    requires
        all_blank(q),
    ensures
        trailing_blanks(x + q) == q.len() + trailing_blanks(x),
    decreases q.len(),
{
    if q.len() > 0 {
        assert((x + q).last() == q.last());
        assert((x + q).drop_last() =~= x + q.drop_last());
        assert forall|i: int| 0 <= i < q.drop_last().len() implies is_white_space(
            #[trigger] q.drop_last()[i],
        ) by {
            assert(q.drop_last()[i] == q[i]);
        }
        lemma_trailing_before_blanks(x, q.drop_last());
    } else {
        assert(x + q =~= x);
    }
}

proof fn lemma_trailing_unaffected_by_prefix(p: Seq<char>, x: Seq<char>)
    requires
        !all_blank(x),
    ensures
        trailing_blanks(p + x) == trailing_blanks(x),
    decreases x.len(),
{
    assert(x.len() > 0);
    assert((p + x).last() == x.last());
    if is_white_space(x.last()) {
        assert((p + x).drop_last() =~= p + x.drop_last());
        let i = choose|i: int| 0 <= i < x.len() && !is_white_space(#[trigger] x[i]);
        assert(i < x.len() - 1);
        assert(x.drop_last()[i] == x[i]);
        lemma_trailing_unaffected_by_prefix(p, x.drop_last());
    }
}

proof fn lemma_leading_unaffected_by_suffix(x: Seq<char>, q: Seq<char>)
    requires
        !all_blank(x),
    ensures
        leading_blanks(x + q) == leading_blanks(x),
    decreases x.len(),
{
    assert(x.len() > 0);
    assert((x + q)[0] == x[0]);
    if is_white_space(x[0]) {
        assert((x + q).drop_first() =~= x.drop_first() + q);
        let i = choose|i: int| 0 <= i < x.len() && !is_white_space(#[trigger] x[i]);
        assert(i > 0);
        assert(x.drop_first()[i - 1] == x[i]);
        lemma_leading_unaffected_by_suffix(x.drop_first(), q);
    }
}

proof fn lemma_all_blank_leading(x: Seq<char>)
    ensures
        all_blank(x) <==> leading_blanks(x) == x.len(),
{
    lemma_leading_blanks_bound(x);
}

/// White space around a text does not survive trimming.
pub proof fn lemma_trimmed_padded(p: Seq<char>, x: Seq<char>, q: Seq<char>)
    requires
        all_blank(p),
        all_blank(q),
    ensures
        trimmed(p + x + q) == trimmed(x),
{
    let y = p + x + q;
    lemma_all_blank_leading(x);
    lemma_all_blank_leading(y);
    lemma_leading_blanks_bound(x);
    lemma_trailing_blanks_bound(x);
    if all_blank(x) {
        assert forall|i: int| 0 <= i < y.len() implies is_white_space(#[trigger] y[i]) by {
            if i < p.len() {
                assert(y[i] == p[i]);
            } else if i < p.len() + x.len() {
                assert(y[i] == x[i - p.len()]);
            } else {
                assert(y[i] == q[i - p.len() - x.len()]);
            }
        }
    } else {
        lemma_leading_after_blanks(p, x + q);
        assert(p + (x + q) =~= y);
        lemma_leading_unaffected_by_suffix(x, q);
        lemma_trailing_before_blanks(p + x, q);
        lemma_trailing_unaffected_by_prefix(p, x);
        assert(!all_blank(y)) by {
            let i = choose|i: int| 0 <= i < x.len() && !is_white_space(#[trigger] x[i]);
            assert(y[p.len() + i] == x[i]);
        }
        assert(y.subrange(
            (p.len() + leading_blanks(x)) as int,
            y.len() - (q.len() + trailing_blanks(x)),
        ) =~= x.subrange(leading_blanks(x) as int, x.len() - trailing_blanks(x)));
    }
}

proof fn lemma_blanks_under_upper(x: Seq<char>)
    ensures
        leading_blanks(x.map_values(|c: char| ascii_upper(c))) == leading_blanks(x),
        trailing_blanks(x.map_values(|c: char| ascii_upper(c))) == trailing_blanks(x),
    decreases x.len(),
{
    let u = x.map_values(|c: char| ascii_upper(c));
    if x.len() > 0 {
        lemma_ascii_lower(x[0]);
        lemma_ascii_lower(x.last());
        assert(u.drop_first() =~= x.drop_first().map_values(|c: char| ascii_upper(c)));
        assert(u.drop_last() =~= x.drop_last().map_values(|c: char| ascii_upper(c)));
        lemma_blanks_under_upper(x.drop_first());
        lemma_blanks_under_upper(x.drop_last());
    }
}

/// Capitalising ASCII letters and trimming commute.
pub proof fn lemma_trimmed_upper(x: Seq<char>)
    ensures
        trimmed(x.map_values(|c: char| ascii_upper(c))) == trimmed(x).map_values(
            |c: char| ascii_upper(c),
        ),
{
    lemma_blanks_under_upper(x);
    lemma_leading_blanks_bound(x);
    lemma_trailing_blanks_bound(x);
    let u = x.map_values(|c: char| ascii_upper(c));
    if leading_blanks(x) == x.len() {
        assert(trimmed(x).map_values(|c: char| ascii_upper(c)) =~= Seq::<char>::empty());
    } else {
        assert(u.subrange(leading_blanks(x) as int, x.len() - trailing_blanks(x)) =~= x.subrange(
            leading_blanks(x) as int,
            x.len() - trailing_blanks(x),
        ).map_values(|c: char| ascii_upper(c)));
    }
}

/// Whether `c` is white space (see `is_white_space`).
pub fn is_blank(c: char) -> (r: bool)
    ensures
        r == is_white_space(c),
{
    ('\u{9}' <= c && c <= '\u{d}') || c == ' ' || c == '\u{85}' || c == '\u{a0}' || c == '\u{1680}'
        || ('\u{2000}' <= c && c <= '\u{200a}') || c == '\u{2028}' || c == '\u{2029}' || c
        == '\u{202f}' || c == '\u{205f}' || c == '\u{3000}'
}

/// The characters of `s`, one by one.
fn chars_of(s: &str) -> (v: Vec<char>)
    ensures
        v@ == s@,
{
    let mut v: Vec<char> = Vec::new();
    for c in it: s.chars()
        invariant
            it.seq() == s@,
            v@ == s@.take(it.index() as int),
    {
        proof {
            assert(s@.take(it.index() + 1) =~= s@.take(it.index() as int).push(c));
        }
        v.push(c);
    }
    assert(s@.take(s@.len() as int) =~= s@);
    v
}

proof fn lemma_leading_blanks_at(s: Seq<char>, i: int)
    requires
        0 <= i <= s.len(),
        forall|j: int| 0 <= j < i ==> is_white_space(#[trigger] s[j]),
        i < s.len() ==> !is_white_space(s[i]),
    ensures
        leading_blanks(s) == i,
    decreases i,
{
    if i > 0 {
        assert forall|j: int| 0 <= j < i - 1 implies is_white_space(#[trigger] s.drop_first()[j]) by {
            assert(s.drop_first()[j] == s[j + 1]);
        }
        if i - 1 < s.len() - 1 {
            assert(s.drop_first()[i - 1] == s[i]);
        }
        lemma_leading_blanks_at(s.drop_first(), i - 1);
    }
}

proof fn lemma_trailing_blanks_at(s: Seq<char>, i: int)
    requires
        0 <= i <= s.len(),
        forall|j: int| s.len() - i <= j < s.len() ==> is_white_space(#[trigger] s[j]),
        i < s.len() ==> !is_white_space(s[s.len() - 1 - i]),
    ensures
        trailing_blanks(s) == i,
    decreases i,
{
    if i > 0 {
        let d = s.drop_last();
        assert forall|j: int| d.len() - (i - 1) <= j < d.len() implies is_white_space(#[trigger] d[j]) by {
            assert(d[j] == s[j]);
        }
        if i - 1 < d.len() {
            assert(d[d.len() - 1 - (i - 1)] == s[s.len() - 1 - i]);
        }
        lemma_trailing_blanks_at(d, i - 1);
    }
}

/// `s` without its leading and trailing white space (Unicode `White_Space`),
/// as `str::trim` gives it.
pub fn trim(s: &str) -> (r: &str)
    ensures
        r@ == trimmed(s@),
{
    let v = chars_of(s);
    let n = v.len();
    let mut lead: usize = 0;
    while lead < n && is_blank(v[lead])
        invariant
            v@ == s@,
            n == v@.len(),
            lead <= n,
            forall|j: int| 0 <= j < lead ==> is_white_space(#[trigger] v@[j]),
        decreases n - lead,
    {
        lead = lead + 1;
    }
    proof {
        lemma_leading_blanks_at(s@, lead as int);
    }
    if lead == n {
        return s.substring_char(0, 0);
    }
    let mut trail: usize = 0;
    while trail < n - lead && is_blank(v[n - 1 - trail])
        invariant
            v@ == s@,
            n == v@.len(),
            lead < n,
            !is_white_space(v@[lead as int]),
            trail <= n - lead,
            forall|j: int| n - trail <= j < n ==> is_white_space(#[trigger] v@[j]),
        decreases n - lead - trail,
    {
        trail = trail + 1;
    }
    proof {
        if trail == n - lead {
            assert(is_white_space(v@[lead as int]));
        }
        lemma_trailing_blanks_at(s@, trail as int);
    }
    let r = s.substring_char(lead, n - trail);
    proof {
        assert(s@.subrange(0, 0) =~= Seq::<char>::empty());
    }
    r
}

/// Calls `str::to_lowercase`. On ASCII text the result is the ASCII lowercase
/// form; on other text it is named by `unicode_lowercase`. Either way it holds
/// no ASCII capital letter: Unicode maps `A`..`Z` to `a`..`z` and maps no
/// character to an ASCII capital.
#[verifier::external_body]
fn str_to_lowercase(s: &str) -> (r: String)
    ensures
        vstd::utf8::is_ascii_chars(s@) ==> r@ == s@.map_values(|c: char| ascii_lower(c)),
        !vstd::utf8::is_ascii_chars(s@) ==> r@ == unicode_lowercase(s@),
        forall|i: int| 0 <= i < r@.len() ==> !is_ascii_capital(#[trigger] r@[i]),
{
    s.to_lowercase()
}

/// The lowercase form of `s`.
pub fn to_lowercase(s: &str) -> (r: String)
    ensures
        r@ == lowercase(s@),
{
    let r = str_to_lowercase(s);
    proof {
        if !vstd::utf8::is_ascii_chars(s@) {
            let m = r@.map_values(|c: char| ascii_lower(c));
            assert forall|i: int| 0 <= i < r@.len() implies #[trigger] m[i] == r@[i] by {
                lemma_ascii_lower(r@[i]);
            }
            assert(m =~= r@);
        }
    }
    r
}

/// Calls `String::push`, which appends one character.
#[verifier::external_body]
pub fn push_char(s: &mut String, c: char)
    ensures
        final(s)@ == old(s)@.push(c),
{
    s.push(c);
}

/// The first `n` characters of `s`, as a new string.
pub fn take_chars(s: &str, n: usize) -> (r: String)
    ensures
        r@ == first_chars(s@, n as nat),
{
    let len = s.unicode_len();
    let k = if len <= n {
        len
    } else {
        n
    };
    let part = s.substring_char(0, k);
    proof {
        if len <= n {
            assert(s@.subrange(0, k as int) =~= s@);
        }
    }
    part.to_owned()
}

/// Whether `s` and `p` hold the same characters.
pub fn text_is(s: &str, p: &str) -> (r: bool)
    ensures
        r == (s@ == p@),
{
    let n = p.unicode_len();
    if s.unicode_len() != n {
        return false;
    }
    let mut i: usize = 0;
    while i < n
        invariant
            n == p@.len(),
            n == s@.len(),
            i <= n,
            forall|j: int| 0 <= j < i ==> s@[j] == p@[j],
        decreases n - i,
    {
        if s.get_char(i) != p.get_char(i) {
            return false;
        }
        i = i + 1;
    }
    assert(s@ =~= p@);
    true
}

/// Whether `s` begins with the characters of `p`.
pub fn has_prefix(s: &str, p: &str) -> (r: bool)
    ensures
        r == (p@.len() <= s@.len() && s@.take(p@.len() as int) == p@),
{
    let n = p.unicode_len();
    if s.unicode_len() < n {
        return false;
    }
    let mut i: usize = 0;
    while i < n
        invariant
            n == p@.len(),
            n <= s@.len(),
            i <= n,
            forall|j: int| 0 <= j < i ==> s@[j] == p@[j],
        decreases n - i,
    {
        if s.get_char(i) != p.get_char(i) {
            assert(s@.take(n as int)[i as int] != p@[i as int]);
            return false;
        }
        i = i + 1;
    }
    assert(s@.take(n as int) =~= p@);
    true
}

/// `%text%`: a LIKE pattern that matches any text containing `text`.
pub fn contains_pattern(text: &str) -> (r: String)
    ensures
        r@ == seq!['%'] + text@ + seq!['%'],
{
    let mut r = String::new();
    push_char(&mut r, '%');
    r.append(text);
    push_char(&mut r, '%');
    assert(r@ =~= seq!['%'] + text@ + seq!['%']);
    r
}

} // verus!
