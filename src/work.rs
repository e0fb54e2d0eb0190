//! Naming a new work item: its id from its title, and the repository name
//! from the origin URL.
use vstd::prelude::*;
use crate::prompt::{join_strings, join_with, views_of};
use crate::text::{ends_with_text, seq_ends_with};

verus! {

/// Whether std counts a character as alphanumeric.
pub uninterp spec fn alphanumeric(c: char) -> bool;

/// Whether std counts a character as whitespace.
pub uninterp spec fn whitespace(c: char) -> bool;

/// The lowercase form std gives a string.
pub uninterp spec fn lowercase_of(s: Seq<char>) -> Seq<char>;

/// Relies on `char::is_alphanumeric`: whether the character is
/// alphabetic or numeric.
#[verifier::external_body]
fn is_alphanumeric(c: char) -> (r: bool)
    ensures
        r == alphanumeric(c),
{
    c.is_alphanumeric()
}

/// Relies on `char::is_whitespace`: whether the character has the
/// White_Space property, which the space character has.
#[verifier::external_body]
fn is_whitespace(c: char) -> (r: bool)
    ensures
        r == whitespace(c),
        c == ' ' ==> r,
{
    c.is_whitespace()
}

/// Relies on `str::to_lowercase`: the lowercase equivalent of the string,
/// which is empty for an empty string.
#[verifier::external_body]
fn to_lowercase(s: &str) -> (r: String)
    ensures
        r@ == lowercase_of(s@),
        s@.len() == 0 ==> r@.len() == 0,
{
    s.to_lowercase()
}

/// The characters of a title that may stand in an id: alphanumerics and
/// spaces.
pub open spec fn id_chars(s: Seq<char>) -> Seq<char>
    decreases s.len(),
{
    if s.len() == 0 {
        Seq::empty()
    } else if alphanumeric(s.last()) || s.last() == ' ' {
        id_chars(s.drop_last()).push(s.last())
    } else {
        id_chars(s.drop_last())
    }
}

/// The words of `s` from position `i` on, where the word in progress began
/// at `start`, appended to `acc`. Words are the maximal runs of
/// non-whitespace characters.
pub open spec fn words_scan(s: Seq<char>, i: nat, start: nat, acc: Seq<Seq<char>>) -> Seq<Seq<char>>
    decreases s.len() - i,
{
    if i >= s.len() {
        if start < s.len() {
            acc.push(s.subrange(start as int, s.len() as int))
        } else {
            acc
        }
    } else if whitespace(s[i as int]) {
        words_scan(
            s,
            i + 1,
            i + 1,
            if start < i {
                acc.push(s.subrange(start as int, i as int))
            } else {
                acc
            },
        )
    } else {
        words_scan(s, i + 1, start, acc)
    }
}

/// The words of `s`, in order.
pub open spec fn words(s: Seq<char>) -> Seq<Seq<char>> {
    words_scan(s, 0, 0, Seq::empty())
}

/// Number of title words an id keeps.
pub const ID_WORDS: usize = 3;

/// The first words of a list, at most `ID_WORDS` of them.
pub open spec fn first_words(w: Seq<Seq<char>>) -> Seq<Seq<char>> {
    if w.len() <= ID_WORDS {
        w
    } else {
        w.take(ID_WORDS as int)
    }
}

/// The id of a work item created from a title alone: `FEAT-` and the first
/// three words of the title's alphanumerics and spaces, joined by `-` and
/// lowercased; `FEAT-work` when no word is left.
pub open spec fn work_id_text(title: Seq<char>) -> Seq<char> {
    let short = lowercase_of(join_with(first_words(words(id_chars(title))), "-"@));
    "FEAT-"@ + (if short.len() == 0 {
        "work"@
    } else {
        short
    })
}

fn keep_id_chars(s: &str) -> (r: String)
    ensures
        r@ == id_chars(s@),
{
    let n = s.unicode_len();
    let mut r = String::new();
    let mut i: usize = 0;
    while i < n
        invariant
            n == s@.len(),
            i <= n,
            r@ == id_chars(s@.subrange(0, i as int)),
        decreases n - i,
    {
        let c = s.get_char(i);
        let ghost prefix = s@.subrange(0, i + 1);
        assert(prefix.drop_last() =~= s@.subrange(0, i as int));
        assert(prefix.last() == c);
        if is_alphanumeric(c) || c == ' ' {
            let one = s.substring_char(i, i + 1);
            assert(one@ =~= seq![c]);
            r.append(one);
            assert(r@ =~= id_chars(s@.subrange(0, i as int)).push(c));
        }
        i = i + 1;
    }
    assert(s@.subrange(0, n as int) =~= s@);
    r
}

fn split_words(s: &str) -> (r: Vec<String>)
    ensures
        views_of(r@) == words(s@),
{
    let n = s.unicode_len();
    let mut acc: Vec<String> = Vec::new();
    assert(views_of(acc@) =~= Seq::<Seq<char>>::empty());
    let mut start: usize = 0;
    let mut i: usize = 0;
    while i < n
        invariant
            n == s@.len(),
            start <= i <= n,
            words_scan(s@, i as nat, start as nat, views_of(acc@)) == words(s@),
        decreases n - i,
    {
        let c = s.get_char(i);
        if is_whitespace(c) {
            if start < i {
                let w = s.substring_char(start, i);
                let ghost before = acc@;
                acc.push(String::from_str(w));
                assert(views_of(acc@) =~= views_of(before).push(s@.subrange(start as int, i as int)));
            }
            start = i + 1;
        }
        i = i + 1;
    }
    if start < n {
        let w = s.substring_char(start, n);
        let ghost before = acc@;
        acc.push(String::from_str(w));
        assert(views_of(acc@) =~= views_of(before).push(s@.subrange(start as int, n as int)));
    }
    acc
}

/// The id of a work item created from a title alone.
pub fn work_id_for(title: &str) -> (r: String)
    ensures
        r@ == work_id_text(title@),
{
    let kept = keep_id_chars(title);
    let mut words = split_words(kept.as_str());
    let ghost all = words@;
    if words.len() > ID_WORDS {
        words.truncate(ID_WORDS);
        assert(words@ =~= all.subrange(0, ID_WORDS as int));
    }
    assert(views_of(words@) =~= first_words(views_of(all)));
    let joined = join_strings(&words, "-");
    let short = to_lowercase(joined.as_str());
    let mut r = String::from_str("FEAT-");
    if short.as_str().unicode_len() == 0 {
        r.append("work");
    } else {
        r.append(short.as_str());
    }
    r
}

/// `s` without leading whitespace.
pub open spec fn trim_start(s: Seq<char>) -> Seq<char>
    decreases s.len(),
{
    if s.len() > 0 && whitespace(s[0]) {
        trim_start(s.subrange(1, s.len() as int))
    } else {
        s
    }
}

/// `s` without trailing whitespace.
pub open spec fn trim_end(s: Seq<char>) -> Seq<char>
    decreases s.len(),
{
    if s.len() > 0 && whitespace(s.last()) {
        trim_end(s.drop_last())
    } else {
        s
    }
}

/// What follows the last `/` of `s`, or all of `s` when it has none.
pub open spec fn last_segment(s: Seq<char>) -> Seq<char>
    decreases s.len(),
{
    if s.len() == 0 || s.last() == '/' {
        Seq::empty()
    } else {
        last_segment(s.drop_last()).push(s.last())
    }
}

/// `s` with every trailing `.git` removed.
pub open spec fn strip_git(s: Seq<char>) -> Seq<char>
    decreases s.len(),
{
    if s.len() >= 4 && seq_ends_with(s, ".git"@) {
        strip_git(s.subrange(0, s.len() - 4))
    } else {
        s
    }
}

/// The repository name in an origin URL: its last path segment without
/// any `.git` suffix, surrounding whitespace ignored.
pub open spec fn repo_name_text(url: Seq<char>) -> Seq<char> {
    strip_git(last_segment(trim_end(trim_start(url))))
}

/// The repository name in an origin URL.
pub fn repo_name_from_url(url: &str) -> (r: String)
    ensures
        r@ == repo_name_text(url@),
{
    let s = url;
    let n = s.unicode_len();
    let mut lo: usize = 0;
    assert(s@.subrange(0, n as int) =~= s@);
    while lo < n && is_whitespace(s.get_char(lo))
        invariant
            n == s@.len(),
            lo <= n,
            trim_start(s@.subrange(lo as int, n as int)) == trim_start(s@),
        decreases n - lo,
    {
        assert(s@.subrange(lo as int, n as int).subrange(1, (n - lo) as int) =~= s@.subrange(lo + 1, n as int));
        lo = lo + 1;
    }
    assert(lo < n ==> s@.subrange(lo as int, n as int)[0] == s@[lo as int]);
    let ghost t = s@.subrange(lo as int, n as int);
    assert(trim_start(s@) == t);
    let mut hi: usize = n;
    while hi > lo && is_whitespace(s.get_char(hi - 1))
        invariant
            n == s@.len(),
            lo <= hi <= n,
            t == s@.subrange(lo as int, n as int),
            trim_end(s@.subrange(lo as int, hi as int)) == trim_end(t),
        decreases hi - lo,
    {
        assert(s@.subrange(lo as int, hi as int).drop_last() =~= s@.subrange(lo as int, hi - 1));
        hi = hi - 1;
    }
    let ghost u = s@.subrange(lo as int, hi as int);
    assert(hi > lo ==> u.last() == s@[hi - 1]);
    assert(trim_end(t) == u);
    let mut k: usize = hi;
    while k > lo && s.get_char(k - 1) != '/'
        invariant
            lo <= k <= hi <= n,
            n == s@.len(),
            u == s@.subrange(lo as int, hi as int),
            last_segment(s@.subrange(lo as int, k as int)) + s@.subrange(k as int, hi as int)
                == last_segment(u),
        decreases k - lo,
    {
        let ghost p = s@.subrange(lo as int, k as int);
        assert(p.drop_last() =~= s@.subrange(lo as int, k - 1));
        assert(p.last() == s@[k - 1]);
        assert(last_segment(s@.subrange(lo as int, k - 1)) + s@.subrange(k - 1, hi as int) =~= last_segment(
            s@.subrange(lo as int, k - 1),
        ).push(s@[k - 1]) + s@.subrange(k as int, hi as int));
        k = k - 1;
    }
    proof {
        let p = s@.subrange(lo as int, k as int);
        if k > lo {
            assert(p.last() == s@[k - 1]);
        }
        assert(last_segment(p) =~= Seq::<char>::empty());
        assert(Seq::<char>::empty() + s@.subrange(k as int, hi as int) =~= s@.subrange(k as int, hi as int));
    }
    let mut seg = s.substring_char(k, hi);
    while seg.unicode_len() >= 4 && ends_with_text(seg, ".git")
        invariant
            strip_git(seg@) == repo_name_text(url@),
        decreases seg@.len(),
    {
        let m = seg.unicode_len();
        seg = seg.substring_char(0, m - 4);
    }
    String::from_str(seg)
}

} // verus!
