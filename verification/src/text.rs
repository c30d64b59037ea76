//! Character-level text helpers: whitespace trimming, slash trimming and
//! blank detection, specified over `Seq<char>`.

use vstd::prelude::*;
use vstd::string::*;

verus! {

/// Whether `c` has the Unicode `White_Space` property (PropList.txt): the 25
/// code points U+0009..U+000D, U+0020, U+0085, U+00A0, U+1680, U+2000..U+200A,
/// U+2028, U+2029, U+202F, U+205F and U+3000.
pub open spec fn is_white_space(c: char) -> bool {
    let u = c as u32;
    ||| 0x09 <= u && u <= 0x0D
    ||| u == 0x20
    ||| u == 0x85
    ||| u == 0xA0
    ||| u == 0x1680
    ||| 0x2000 <= u && u <= 0x200A
    ||| u == 0x2028
    ||| u == 0x2029
    ||| u == 0x202F
    ||| u == 0x205F
    ||| u == 0x3000
}

/// `char::is_whitespace` from std. Claimed, as its documentation says: true
/// exactly when `c` has the Unicode `White_Space` property, whose members
/// `is_white_space` lists.
#[verifier::external_body]
pub(crate) fn char_is_whitespace(c: char) -> (r: bool)
    ensures
        r == is_white_space(c),
{
    c.is_whitespace()
}

/// The predicate "is white space", for the stripping functions below.
pub open spec fn white_space() -> spec_fn(char) -> bool {
    |c: char| is_white_space(c)
}

/// The predicate "is a forward slash".
pub open spec fn slash() -> spec_fn(char) -> bool {
    |c: char| c == '/'
}

/// `s` without its longest prefix of characters satisfying `p`.
pub open spec fn strip_start(s: Seq<char>, p: spec_fn(char) -> bool) -> Seq<char>
    decreases s.len(),
{
    if s.len() > 0 && p(s[0]) {
        strip_start(s.drop_first(), p)
    } else {
        s
    }
}

/// `s` without its longest suffix of characters satisfying `p`.
pub open spec fn strip_end(s: Seq<char>, p: spec_fn(char) -> bool) -> Seq<char>
    decreases s.len(),
{
    if s.len() > 0 && p(s.last()) {
        strip_end(s.drop_last(), p)
    } else {
        s
    }
}

/// `s` with leading and trailing white space removed (what `str::trim` does).
pub open spec fn trimmed(s: Seq<char>) -> Seq<char> {
    strip_end(strip_start(s, white_space()), white_space())
}

/// Stripping a prefix stops at the first character that fails `p`.
pub proof fn lemma_strip_start_at(s: Seq<char>, p: spec_fn(char) -> bool, i: int)
    requires
        0 <= i <= s.len(),
        forall|j: int| 0 <= j < i ==> #[trigger] p(s[j]),
        i == s.len() || !p(s[i]),
    ensures
        strip_start(s, p) == s.skip(i),
    decreases i,
{
    if i == 0 {
        assert(s.skip(0) =~= s);
    } else {
        assert forall|j: int| 0 <= j < i - 1 implies #[trigger] p(s.drop_first()[j]) by {
            assert(p(s[j + 1]));
        }
        lemma_strip_start_at(s.drop_first(), p, i - 1);
        assert(s.drop_first().skip(i - 1) =~= s.skip(i));
    }
}

/// Stripping a suffix stops at the last character that fails `p`.
pub proof fn lemma_strip_end_at(s: Seq<char>, p: spec_fn(char) -> bool, k: int)
    requires
        0 <= k <= s.len(),
        forall|j: int| k <= j < s.len() ==> #[trigger] p(s[j]),
        k == 0 || !p(s[k - 1]),
    ensures
        strip_end(s, p) == s.take(k),
    decreases s.len(),
{
    if k == s.len() {
        assert(s.take(k) =~= s);
    } else {
        assert(p(s[s.len() - 1]));
        assert forall|j: int| k <= j < s.drop_last().len() implies #[trigger] p(
            s.drop_last()[j],
        ) by {
            assert(p(s[j]));
        }
        lemma_strip_end_at(s.drop_last(), p, k);
        assert(s.drop_last().take(k) =~= s.take(k));
    }
}

/// A string trims to nothing exactly when every character is white space.
pub proof fn lemma_trimmed_empty(s: Seq<char>)
    ensures
        trimmed(s).len() == 0 <==> forall|j: int| 0 <= j < s.len() ==> is_white_space(#[trigger] s[j]),
    decreases s.len(),
{
    if s.len() > 0 && is_white_space(s[0]) {
        lemma_trimmed_empty(s.drop_first());
        assert(strip_start(s, white_space()) == strip_start(s.drop_first(), white_space()));
        if forall|j: int| 0 <= j < s.drop_first().len() ==> is_white_space(#[trigger] s.drop_first()[j]) {
            assert forall|j: int| 0 <= j < s.len() implies is_white_space(#[trigger] s[j]) by {
                if j > 0 {
                    assert(s[j] == s.drop_first()[j - 1]);
                }
            }
        } else {
            let j = choose|j: int| 0 <= j < s.drop_first().len() && !is_white_space(#[trigger] s.drop_first()[j]);
            assert(!is_white_space(s[j + 1]));
        }
    } else if s.len() > 0 {
        assert(strip_start(s, white_space()) == s);
        assert(strip_end(s, white_space()).len() > 0) by {
            lemma_strip_end_nonempty(s, white_space());
        }
    } else {
    }
}

/// A sequence whose first character fails `p` keeps that character under `strip_end`.
proof fn lemma_strip_end_nonempty(s: Seq<char>, p: spec_fn(char) -> bool)
    requires
        s.len() > 0,
        !p(s[0]),
    ensures
        strip_end(s, p).len() > 0,
    decreases s.len(),
{
    if p(s.last()) {
        assert(s.len() > 1);
        assert(s.drop_last()[0] == s[0]);
        lemma_strip_end_nonempty(s.drop_last(), p);
    }
}

/// After `strip_start` the text does not begin with a character satisfying `p`,
/// and stripping again changes nothing.
pub proof fn lemma_strip_start_done(s: Seq<char>, p: spec_fn(char) -> bool)
    ensures
        strip_start(s, p).len() == 0 || !p(strip_start(s, p)[0]),
        strip_start(strip_start(s, p), p) == strip_start(s, p),
    decreases s.len(),
{
    if s.len() > 0 && p(s[0]) {
        lemma_strip_start_done(s.drop_first(), p);
    }
}

/// After `strip_end` the text does not end with a character satisfying `p`,
/// and stripping again changes nothing.
pub proof fn lemma_strip_end_done(s: Seq<char>, p: spec_fn(char) -> bool)
    ensures
        strip_end(s, p).len() == 0 || !p(strip_end(s, p).last()),
        strip_end(strip_end(s, p), p) == strip_end(s, p),
    decreases s.len(),
{
    if s.len() > 0 && p(s.last()) {
        lemma_strip_end_done(s.drop_last(), p);
    }
}

/// Where `strip_start` cuts: the length of the longest prefix satisfying `p`.
proof fn lemma_strip_start_index(s: Seq<char>, p: spec_fn(char) -> bool) -> (i: int)
    ensures
        0 <= i <= s.len(),
        forall|j: int| 0 <= j < i ==> #[trigger] p(s[j]),
        i == s.len() || !p(s[i]),
        strip_start(s, p) == s.skip(i),
    decreases s.len(),
{
    if s.len() > 0 && p(s[0]) {
        let k = lemma_strip_start_index(s.drop_first(), p);
        assert forall|j: int| 0 <= j < k + 1 implies #[trigger] p(s[j]) by {
            if j > 0 {
                assert(s[j] == s.drop_first()[j - 1]);
            }
        }
        if k + 1 < s.len() {
            assert(s[k + 1] == s.drop_first()[k]);
        }
        assert(s.drop_first().skip(k) =~= s.skip(k + 1));
        k + 1
    } else {
        assert(s.skip(0) =~= s);
        0
    }
}

/// Where `strip_end` cuts: the length of what is left once the longest suffix
/// satisfying `p` is removed.
proof fn lemma_strip_end_index(s: Seq<char>, p: spec_fn(char) -> bool) -> (k: int)
    ensures
        0 <= k <= s.len(),
        forall|j: int| k <= j < s.len() ==> #[trigger] p(s[j]),
        k == 0 || !p(s[k - 1]),
        strip_end(s, p) == s.take(k),
    decreases s.len(),
{
    if s.len() > 0 && p(s.last()) {
        let k = lemma_strip_end_index(s.drop_last(), p);
        assert forall|j: int| k <= j < s.len() implies #[trigger] p(s[j]) by {
            if j < s.len() - 1 {
                assert(s[j] == s.drop_last()[j]);
            }
        }
        if k > 0 {
            assert(s[k - 1] == s.drop_last()[k - 1]);
        }
        assert(s.drop_last().take(k) =~= s.take(k));
        k
    } else {
        assert(s.take(s.len() as int) =~= s);
        s.len() as int
    }
}

/// Trimming keeps exactly the stretch of `s` from its first to its last
/// character that is not white space: everything cut away is white space, and
/// what is kept neither begins nor ends with white space.
pub proof fn law_trimmed(s: Seq<char>)
    ensures
        exists|i: int, j: int|
            {
                &&& 0 <= i <= j <= s.len()
                &&& trimmed(s) == s.subrange(i, j)
                &&& forall|k: int| 0 <= k < i ==> is_white_space(#[trigger] s[k])
                &&& forall|k: int| j <= k < s.len() ==> is_white_space(#[trigger] s[k])
                &&& i < j ==> !is_white_space(s[i]) && !is_white_space(s[j - 1])
            },
{
    let p = white_space();
    let i = lemma_strip_start_index(s, p);
    let t = s.skip(i);
    let k = lemma_strip_end_index(t, p);
    let j = i + k;
    assert(t.take(k) =~= s.subrange(i, j));
    assert forall|m: int| 0 <= m < i implies is_white_space(#[trigger] s[m]) by {
        assert(p(s[m]));
    }
    assert forall|m: int| j <= m < s.len() implies is_white_space(#[trigger] s[m]) by {
        assert(t[m - i] == s[m]);
        assert(p(t[m - i]));
    }
    if i < j {
        assert(t[k - 1] == s[j - 1]);
        assert(!p(s[i]));
    }
}

/// The number of leading white-space characters of `s`, whose length is `n`.
fn leading_white_space(s: &str, n: usize) -> (i: usize)
    requires
        n == s@.len(),
    ensures
        i <= n,
        forall|j: int| 0 <= j < i ==> is_white_space(#[trigger] s@[j]),
        i == n || !is_white_space(s@[i as int]),
{
    let mut i: usize = 0;
    while i < n
        invariant
            i <= n,
            n == s@.len(),
            forall|j: int| 0 <= j < i ==> is_white_space(#[trigger] s@[j]),
        decreases n - i,
    {
        if !char_is_whitespace(s.get_char(i)) {
            return i;
        }
        i = i + 1;
    }
    i
}

/// `str::trim`: `s` without leading and trailing white space.
pub fn trim(s: &str) -> (r: String)
    ensures
        r@ == trimmed(s@),
{
    let n = s.unicode_len();
    let i = leading_white_space(s, n);
    let mut j: usize = n;
    while j > i
        invariant
            i <= j <= n,
            n == s@.len(),
            forall|m: int| j <= m < n ==> is_white_space(#[trigger] s@[m]),
        ensures
            i <= j <= n,
            forall|m: int| j <= m < n ==> is_white_space(#[trigger] s@[m]),
            j == i || !is_white_space(s@[j - 1]),
        decreases j,
    {
        if !char_is_whitespace(s.get_char(j - 1)) {
            break;
        }
        j = j - 1;
    }
    proof {
        let p = white_space();
        lemma_strip_start_at(s@, p, i as int);
        let t = s@.skip(i as int);
        assert forall|m: int| (j - i) <= m < t.len() implies #[trigger] p(t[m]) by {
            assert(t[m] == s@[i + m]);
        }
        if j > i {
            assert(t[j - i - 1] == s@[j - 1]);
        }
        lemma_strip_end_at(t, p, j - i);
        assert(t.take(j - i) =~= s@.subrange(i as int, j as int));
    }
    let sub = s.substring_char(i, j);
    String::from_str(sub)
}

/// Whether `s` trims to the empty string (`s.trim().is_empty()`).
pub fn is_blank(s: &str) -> (r: bool)
    ensures
        r == (trimmed(s@).len() == 0),
        r == forall|j: int| 0 <= j < s@.len() ==> is_white_space(#[trigger] s@[j]),
{
    proof {
        lemma_trimmed_empty(s@);
    }
    let n = s.unicode_len();
    let i = leading_white_space(s, n);
    i == n
}

/// `str::trim_start_matches('/')`: `s` without its leading slashes.
pub fn trim_leading_slashes(s: &str) -> (r: String)
    ensures
        r@ == strip_start(s@, slash()),
{
    let n = s.unicode_len();
    let mut i: usize = 0;
    while i < n
        invariant
            i <= n,
            n == s@.len(),
            forall|j: int| 0 <= j < i ==> #[trigger] s@[j] == '/',
        ensures
            i <= n,
            forall|j: int| 0 <= j < i ==> #[trigger] s@[j] == '/',
            i == n || s@[i as int] != '/',
        decreases n - i,
    {
        if s.get_char(i) != '/' {
            break;
        }
        i = i + 1;
    }
    proof {
        let p = slash();
        assert forall|j: int| 0 <= j < i implies #[trigger] p(s@[j]) by {}
        lemma_strip_start_at(s@, p, i as int);
        assert(s@.skip(i as int) =~= s@.subrange(i as int, n as int));
    }
    String::from_str(s.substring_char(i, n))
}

/// `str::trim_end_matches('/')`: `s` without its trailing slashes.
pub fn trim_trailing_slashes(s: &str) -> (r: String)
    ensures
        r@ == strip_end(s@, slash()),
{
    let n = s.unicode_len();
    let mut j: usize = n;
    while j > 0
        invariant
            j <= n,
            n == s@.len(),
            forall|m: int| j <= m < n ==> #[trigger] s@[m] == '/',
        ensures
            j <= n,
            forall|m: int| j <= m < n ==> #[trigger] s@[m] == '/',
            j == 0 || s@[j - 1] != '/',
        decreases j,
    {
        if s.get_char(j - 1) != '/' {
            break;
        }
        j = j - 1;
    }
    proof {
        let p = slash();
        assert forall|m: int| j <= m < n implies #[trigger] p(s@[m]) by {}
        lemma_strip_end_at(s@, p, j as int);
        assert(s@.take(j as int) =~= s@.subrange(0, j as int));
    }
    String::from_str(s.substring_char(0, j))
}

} // verus!
