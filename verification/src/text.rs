//! Text helpers over character sequences: splitting at a separator, prefix
//! tests and path-like joins.

use vstd::prelude::*;
use vstd::string::*;

verus! {

/// `i` is the position of the first `sep` in `s`.
pub open spec fn is_first_at(s: Seq<char>, sep: char, i: int) -> bool {
    &&& 0 <= i < s.len()
    &&& s[i] == sep
    &&& forall|j: int| 0 <= j < i ==> s[j] != sep
}

/// `i` is the position of the last `sep` in `s`.
pub open spec fn is_last_at(s: Seq<char>, sep: char, i: int) -> bool {
    &&& 0 <= i < s.len()
    &&& s[i] == sep
    &&& forall|j: int| i < j < s.len() ==> s[j] != sep
}

/// The text before and after the first `sep` of `s`, when there is one.
pub open spec fn split_first(s: Seq<char>, sep: char) -> Option<(Seq<char>, Seq<char>)> {
    if s.contains(sep) {
        let i = choose|i: int| is_first_at(s, sep, i);
        Some((s.subrange(0, i), s.subrange(i + 1, s.len() as int)))
    } else {
        None
    }
}

/// The text before and after the last `sep` of `s`, when there is one.
pub open spec fn split_last(s: Seq<char>, sep: char) -> Option<(Seq<char>, Seq<char>)> {
    if s.contains(sep) {
        let i = choose|i: int| is_last_at(s, sep, i);
        Some((s.subrange(0, i), s.subrange(i + 1, s.len() as int)))
    } else {
        None
    }
}

/// `left`, a slash, then `right`.
pub open spec fn slash_join(left: Seq<char>, right: Seq<char>) -> Seq<char> {
    left + seq!['/'] + right
}

/// A first separator exists in any text that contains one, and its position
/// is unique.
pub proof fn lemma_first_position(s: Seq<char>, sep: char, i: int)
    requires
        is_first_at(s, sep, i),
    ensures
        s.contains(sep),
        (choose|k: int| is_first_at(s, sep, k)) == i,
        split_first(s, sep) == Some((s.subrange(0, i), s.subrange(i + 1, s.len() as int))),
{
    let k = choose|k: int| is_first_at(s, sep, k);
    assert(is_first_at(s, sep, k));
    if k < i {
        assert(s[k] == sep);
    } else if i < k {
        assert(s[i] == sep);
    }
}

/// A last separator exists in any text that contains one, and its position
/// is unique.
pub proof fn lemma_last_position(s: Seq<char>, sep: char, i: int)
    requires
        is_last_at(s, sep, i),
    ensures
        s.contains(sep),
        (choose|k: int| is_last_at(s, sep, k)) == i,
        split_last(s, sep) == Some((s.subrange(0, i), s.subrange(i + 1, s.len() as int))),
{
    let k = choose|k: int| is_last_at(s, sep, k);
    assert(is_last_at(s, sep, k));
    if k < i {
        assert(s[i] == sep);
    } else if i < k {
        assert(s[k] == sep);
    }
}

/// The two parts that a text splits into at its first slash join to the
/// text again, and the first part holds no slash.
pub proof fn lemma_join_of_split_first(s: Seq<char>)
    requires
        split_first(s, '/') is Some,
    ensures
        split_first(s, '/') matches Some((before, after)) && slash_join(before, after) == s
            && !before.contains('/'),
{
    let i = choose|i: int| is_first_at(s, '/', i);
    let k = choose|k: int| 0 <= k < s.len() && s[k] == '/';
    lemma_first_exists(s, '/', k);
    assert(is_first_at(s, '/', i));
    let before = s.subrange(0, i);
    let after = s.subrange(i + 1, s.len() as int);
    assert(slash_join(before, after) =~= s);
    if before.contains('/') {
        let j = choose|j: int| 0 <= j < before.len() && before[j] == '/';
        assert(s[j] == '/');
    }
}

/// A text that holds a separator has a first one.
pub proof fn lemma_first_exists(s: Seq<char>, sep: char, k: int)
    requires
        0 <= k < s.len(),
        s[k] == sep,
    ensures
        exists|i: int| is_first_at(s, sep, i),
    decreases k,
{
    if forall|j: int| 0 <= j < k ==> s[j] != sep {
        assert(is_first_at(s, sep, k));
    } else {
        let j = choose|j: int| 0 <= j < k && s[j] == sep;
        lemma_first_exists(s, sep, j);
    }
}

/// Splitting a join at its last separator gives the two parts back, as long
/// as the right part holds no separator.
pub proof fn lemma_split_last_of_join(left: Seq<char>, right: Seq<char>)
    requires
        !right.contains('/'),
    ensures
        split_last(slash_join(left, right), '/') == Some((left, right)),
{
    let s = slash_join(left, right);
    let i = left.len() as int;
    assert forall|j: int| i < j < s.len() implies s[j] != '/' by {
        assert(s[j] == right[j - i - 1]);
        assert(right.contains(right[j - i - 1]));
    }
    assert(is_last_at(s, '/', i));
    lemma_last_position(s, '/', i);
    assert(s.subrange(0, i) =~= left);
    assert(s.subrange(i + 1, s.len() as int) =~= right);
}

/// The characters of `s`, in order.
pub fn chars_of(s: &str) -> (chars: Vec<char>)
    ensures
        chars@ == s@,
{
    let mut chars: Vec<char> = Vec::new();
    for c in it: s.chars()
        invariant
            chars@ == it.seq().take(it.index() as int),
            it.seq() == s@,
    {
        chars.push(c);
    }
    chars
}

/// Position of the first `sep` among `chars`.
fn first_position(chars: &Vec<char>, sep: char) -> (found: Option<usize>)
    ensures
        match found {
            Some(i) => is_first_at(chars@, sep, i as int),
            None => !chars@.contains(sep),
        },
{
    let mut i: usize = 0;
    while i < chars.len()
        invariant
            i <= chars.len(),
            forall|j: int| 0 <= j < i ==> chars@[j] != sep,
        decreases chars.len() - i,
    {
        if chars[i] == sep {
            return Some(i);
        }
        i += 1;
    }
    None
}

/// Position of the last `sep` among `chars`.
fn last_position(chars: &Vec<char>, sep: char) -> (found: Option<usize>)
    ensures
        match found {
            Some(i) => is_last_at(chars@, sep, i as int),
            None => !chars@.contains(sep),
        },
{
    let mut i: usize = chars.len();
    while i > 0
        invariant
            i <= chars.len(),
            forall|j: int| i <= j < chars.len() ==> chars@[j] != sep,
        decreases i,
    {
        i -= 1;
        if chars[i] == sep {
            return Some(i);
        }
    }
    None
}

/// Splits `s` at its first `sep`: the text before it and the text after it,
/// or `None` when `s` holds no `sep`.
pub fn split_once(s: &str, sep: char) -> (parts: Option<(String, String)>)
    ensures
        match parts {
            Some((before, after)) => split_first(s@, sep) == Some((before@, after@)),
            None => split_first(s@, sep).is_none(),
        },
{
    let chars = chars_of(s);
    match first_position(&chars, sep) {
        Some(i) => {
            proof {
                assert(is_first_at(chars@, sep, i as int));
                assert(i < chars.len());
                lemma_first_position(s@, sep, i as int);
            }
            let before = s.substring_char(0, i).to_owned();
            let after = s.substring_char(i + 1, chars.len()).to_owned();
            Some((before, after))
        },
        None => None,
    }
}

/// Splits `s` at its last `sep`: the text before it and the text after it,
/// or `None` when `s` holds no `sep`.
pub fn rsplit_once(s: &str, sep: char) -> (parts: Option<(String, String)>)
    ensures
        match parts {
            Some((before, after)) => split_last(s@, sep) == Some((before@, after@)),
            None => split_last(s@, sep).is_none(),
        },
{
    let chars = chars_of(s);
    match last_position(&chars, sep) {
        Some(i) => {
            proof {
                assert(is_last_at(chars@, sep, i as int));
                assert(i < chars.len());
                lemma_last_position(s@, sep, i as int);
            }
            let before = s.substring_char(0, i).to_owned();
            let after = s.substring_char(i + 1, chars.len()).to_owned();
            Some((before, after))
        },
        None => None,
    }
}

/// True when the two texts are the same.
pub fn same_text(a: &str, b: &str) -> (same: bool)
    ensures
        same == (a@ == b@),
{
    let left = chars_of(a);
    let right = chars_of(b);
    if left.len() != right.len() {
        return false;
    }
    let mut i: usize = 0;
    while i < left.len()
        invariant
            i <= left.len(),
            left.len() == right.len(),
            left@ == a@,
            right@ == b@,
            forall|j: int| 0 <= j < i ==> left@[j] == right@[j],
        decreases left.len() - i,
    {
        if left[i] != right[i] {
            assert(a@[i as int] != b@[i as int]);
            return false;
        }
        i += 1;
    }
    assert(left@ =~= right@);
    true
}

/// True when `s` begins with `prefix`.
pub fn starts_with(s: &str, prefix: &str) -> (yes: bool)
    ensures
        yes == prefix@.is_prefix_of(s@),
{
    let text = chars_of(s);
    let head = chars_of(prefix);
    if head.len() > text.len() {
        return false;
    }
    let mut i: usize = 0;
    while i < head.len()
        invariant
            i <= head.len() <= text.len(),
            text@ == s@,
            head@ == prefix@,
            forall|j: int| 0 <= j < i ==> text@[j] == head@[j],
        decreases head.len() - i,
    {
        if text[i] != head[i] {
            assert(s@.subrange(0, prefix@.len() as int)[i as int] != prefix@[i as int]);
            return false;
        }
        i += 1;
    }
    assert(prefix@ =~= s@.subrange(0, prefix@.len() as int));
    true
}

/// `left`, a slash, then `right`.
pub fn join(left: &str, right: &str) -> (joined: String)
    ensures
        joined@ == slash_join(left@, right@),
{
    let mut joined = left.to_owned();
    proof {
        reveal_strlit("/");
    }
    joined.append("/");
    joined.append(right);
    assert("/"@ =~= seq!['/']);
    joined
}

/// `s` with a slash after it.
pub fn with_slash(s: &str) -> (joined: String)
    ensures
        joined@ == s@ + seq!['/'],
{
    let mut joined = s.to_owned();
    proof {
        reveal_strlit("/");
    }
    joined.append("/");
    assert("/"@ =~= seq!['/']);
    joined
}

/// `left` followed by `right`.
pub fn concat2(left: &str, right: &str) -> (joined: String)
    ensures
        joined@ == left@ + right@,
{
    let mut joined = left.to_owned();
    joined.append(right);
    joined
}

/// `first`, `second` and `third` in a row.
pub fn concat3(first: &str, second: &str, third: &str) -> (joined: String)
    ensures
        joined@ == first@ + second@ + third@,
{
    let mut joined = first.to_owned();
    joined.append(second);
    joined.append(third);
    joined
}

/// `first`, `second`, `third` and `fourth` in a row.
pub fn concat4(first: &str, second: &str, third: &str, fourth: &str) -> (joined: String)
    ensures
        joined@ == first@ + second@ + third@ + fourth@,
{
    let mut joined = first.to_owned();
    joined.append(second);
    joined.append(third);
    joined.append(fourth);
    joined
}

} // verus!
