//! The side file that remembers which configuration file was used last.

use vstd::prelude::*;
use vstd::string::StrSliceExecFns;
use vstd::string::StringExecFns;
use crate::views::option_text;

verus! {

/// The name of the side file inside the configuration directory.
pub fn pointer_file_name() -> (r: &'static str)
    ensures
        r@ == "last_config.txt"@,
{
    "last_config.txt"
}

/// Whether `c` is white space: a character with the Unicode property
/// White_Space.
pub open spec fn is_white_space(c: char) -> bool {
    let n = c as u32;
    ||| 0x09 <= n <= 0x0D
    ||| n == 0x20
    ||| n == 0x85
    ||| n == 0xA0
    ||| n == 0x1680
    ||| 0x2000 <= n <= 0x200A
    ||| n == 0x2028
    ||| n == 0x2029
    ||| n == 0x202F
    ||| n == 0x205F
    ||| n == 0x3000
}

/// `s` without the white space at its start.
pub open spec fn trim_start(s: Seq<char>) -> Seq<char>
    decreases s.len(),
{
    if s.len() > 0 && is_white_space(s.first()) {
        trim_start(s.drop_first())
    } else {
        s
    }
}

/// `s` without the white space at its end.
pub open spec fn trim_end(s: Seq<char>) -> Seq<char>
    decreases s.len(),
{
    if s.len() > 0 && is_white_space(s.last()) {
        trim_end(s.drop_last())
    } else {
        s
    }
}

/// `s` without the white space at its start and at its end.
pub open spec fn trimmed(s: Seq<char>) -> Seq<char> {
    trim_end(trim_start(s))
}

/// The path that the side file's content stands for: the content without the
/// white space around it. `None` where the file could not be read or holds
/// nothing but white space.
pub open spec fn recalled_path(content: Option<Seq<char>>) -> Option<Seq<char>> {
    match content {
        Some(text) => if trimmed(text).len() == 0 {
            None
        } else {
            Some(trimmed(text))
        },
        None => None,
    }
}

fn is_space(c: char) -> (r: bool)
    ensures
        r == is_white_space(c),
{
    let n: u32 = c as u32;
    (0x09 <= n && n <= 0x0D) || n == 0x20 || n == 0x85 || n == 0xA0 || n == 0x1680 || (0x2000 <= n
        && n <= 0x200A) || n == 0x2028 || n == 0x2029 || n == 0x202F || n == 0x205F || n == 0x3000
}

proof fn lemma_trim_start_skips(s: Seq<char>, i: int)
    requires
        0 <= i <= s.len(),
        forall|k: int| 0 <= k < i ==> is_white_space(#[trigger] s[k]),
    ensures
        trim_start(s) == trim_start(s.subrange(i, s.len() as int)),
    decreases i,
{
    if i == 0 {
        assert(s.subrange(0, s.len() as int) =~= s);
    } else {
        let rest = s.drop_first();
        assert(is_white_space(s[0]));
        assert forall|k: int| 0 <= k < i - 1 implies is_white_space(#[trigger] rest[k]) by {
            assert(rest[k] == s[k + 1]);
        }
        lemma_trim_start_skips(rest, i - 1);
        assert(rest.subrange(i - 1, rest.len() as int) =~= s.subrange(i, s.len() as int));
    }
}

proof fn lemma_trim_end_skips(s: Seq<char>, j: int)
    requires
        0 <= j <= s.len(),
        forall|k: int| j <= k < s.len() ==> is_white_space(#[trigger] s[k]),
    ensures
        trim_end(s) == trim_end(s.subrange(0, j)),
    decreases s.len() - j,
{
    if j == s.len() {
        assert(s.subrange(0, j) =~= s);
    } else {
        let rest = s.drop_last();
        assert(is_white_space(s[s.len() - 1]));
        lemma_trim_end_skips(rest, j);
        assert(rest.subrange(0, j) =~= s.subrange(0, j));
    }
}

/// Removes the white space at the start and at the end of `s`.
pub fn trim(s: &str) -> (r: &str)
    ensures
        r@ == trimmed(s@),
{
    let n = s.unicode_len();
    let mut i: usize = 0;
    while i < n && is_space(s.get_char(i))
        invariant
            i <= n,
            n == s@.len(),
            forall|k: int| 0 <= k < i ==> is_white_space(#[trigger] s@[k]),
        decreases n - i,
    {
        i = i + 1;
    }
    let mut j: usize = n;
    while j > i && is_space(s.get_char(j - 1))
        invariant
            i <= j <= n,
            n == s@.len(),
            forall|k: int| j <= k < n ==> is_white_space(#[trigger] s@[k]),
        decreases j,
    {
        j = j - 1;
    }
    proof {
        let tail = s@.subrange(i as int, n as int);
        lemma_trim_start_skips(s@, i as int);
        assert(trim_start(tail) == tail) by {
            if tail.len() > 0 {
                assert(tail.first() == s@[i as int]);
            }
        }
        assert forall|k: int| j - i <= k < tail.len() implies is_white_space(
            #[trigger] tail[k],
        ) by {
            assert(tail[k] == s@[k + i]);
        }
        lemma_trim_end_skips(tail, j - i);
        let kept = tail.subrange(0, j - i);
        assert(kept =~= s@.subrange(i as int, j as int));
        assert(trim_end(kept) == kept) by {
            if kept.len() > 0 {
                assert(kept.last() == s@[j - 1]);
            }
        }
    }
    s.substring_char(i, j)
}

/// The content to write to the side file so that it remembers `path`.
pub fn remember_last_path(path: &str) -> (r: String)
    ensures
        r@ == path@,
{
    String::from_str(path)
}

/// The path that the side file remembers. `content` is what the file holds,
/// or `None` where it could not be read.
pub fn recall_last_path(content: Option<&str>) -> (r: Option<String>)
    ensures
        match r {
            Some(path) => recalled_path(option_text(content)) == Some(path@),
            None => recalled_path(option_text(content)) is None,
        },
{
    match content {
        Some(text) => {
            let path = trim(text);
            if path.unicode_len() == 0 {
                None
            } else {
                Some(String::from_str(path))
            }
        },
        None => None,
    }
}

/// A path that neither starts nor ends with white space is recalled as it was
/// remembered.
pub proof fn lemma_remembered_path_is_recalled(path: Seq<char>)
    requires
        path.len() > 0,
        !is_white_space(path.first()),
        !is_white_space(path.last()),
    ensures
        recalled_path(Some(path)) == Some(path),
{
    assert(trim_start(path) == path);
    assert(trim_end(path) == path);
}

} // verus!
