//! Paths as text: joining, and the name a path ends in.
//!
//! `/` separates the segments of a path. On Windows `\` does so too, and is
//! read as `/` before a path is taken apart.

use vstd::prelude::*;
use crate::platform::Os;
use crate::text::{chars_of, text_of};

verus! {

/// `name` inside the directory `dir`: the two with one `/` between them,
/// which an empty `dir` or one that ends in `/` does not need.
pub open spec fn joined(dir: Seq<char>, name: Seq<char>) -> Seq<char> {
    if dir.len() == 0 || dir.last() == '/' {
        dir + name
    } else {
        dir.push('/') + name
    }
}

/// A path with the separators that `os` knows written as `/`.
pub open spec fn with_forward_slashes(path: Seq<char>, os: Os) -> Seq<char> {
    match os {
        Os::Windows => Seq::new(
            path.len(),
            |i: int|
                if path[i] == '\\' {
                    '/'
                } else {
                    path[i]
                },
        ),
        Os::Mac | Os::Linux => path,
    }
}

/// Where the segment that ends before `end` starts: behind the last `/`
/// before `end`, and at 0 where there is none.
pub open spec fn segment_start(path: Seq<char>, end: int) -> int
    decreases end,
{
    if end <= 0 {
        0
    } else if path[end - 1] == '/' {
        end
    } else {
        segment_start(path, end - 1)
    }
}

/// The name that the first `end` characters of `path` end in: their last
/// segment, not counting empty segments and `.`; none where no segment is
/// left or where that segment is `..`.
pub open spec fn final_segment_within(path: Seq<char>, end: int) -> Option<Seq<char>>
    decreases end,
{
    if end <= 0 {
        None
    } else if path[end - 1] == '/' {
        final_segment_within(path, end - 1)
    } else {
        let segment = path.subrange(segment_start(path, end), end);
        if segment == seq!['.'] {
            final_segment_within(path, end - 1)
        } else if segment == seq!['.', '.'] {
            None
        } else {
            Some(segment)
        }
    }
}

/// The name that `path` ends in: `myproj` for `/home/u/myproj` and for
/// `/home/u/myproj/`, nothing for `/` and for `a/..`.
pub open spec fn final_segment(path: Seq<char>) -> Option<Seq<char>> {
    final_segment_within(path, path.len() as int)
}

/// A segment starts within the path, before its end, and holds no `/`.
pub proof fn lemma_segment_start(path: Seq<char>, end: int)
    requires
        0 <= end <= path.len(),
    ensures
        0 <= segment_start(path, end) <= end,
        segment_start(path, end) > 0 ==> path[segment_start(path, end) - 1] == '/',
        forall|k: int| segment_start(path, end) <= k < end ==> #[trigger] path[k] != '/',
    decreases end,
{
    if end > 0 && path[end - 1] != '/' {
        lemma_segment_start(path, end - 1);
    }
}

/// The name a path ends in is a name: not empty, without `/`, and neither `.`
/// nor `..`.
pub proof fn lemma_final_segment_is_name(path: Seq<char>, end: int)
    requires
        0 <= end <= path.len(),
    ensures
        final_segment_within(path, end) matches Some(name) ==> name.len() > 0 && name != seq!['.']
            && name != seq!['.', '.'] && forall|k: int|
            0 <= k < name.len() ==> #[trigger] name[k] != '/',
    decreases end,
{
    if end > 0 {
        if path[end - 1] == '/' {
            lemma_final_segment_is_name(path, end - 1);
        } else {
            lemma_segment_start(path, end);
            let segment = path.subrange(segment_start(path, end), end);
            if segment == seq!['.'] {
                lemma_final_segment_is_name(path, end - 1);
            }
        }
    }
}

/// `name` inside the directory `dir`.
pub fn join(dir: &str, name: &str) -> (r: String)
    ensures
        r@ == joined(dir@, name@),
{
    let chars = chars_of(dir);
    let mut r = String::from_str(dir);
    if chars.len() > 0 && chars[chars.len() - 1] != '/' {
        r.push('/');
    }
    r.append(name);
    r
}

/// The characters of `path`, with the separators that `os` knows as `/`.
fn forward_slashed(path: &str, os: Os) -> (r: Vec<char>)
    ensures
        r@ == with_forward_slashes(path@, os),
{
    let mut chars = chars_of(path);
    match os {
        Os::Windows => {
            let ghost before = chars@;
            let mut i: usize = 0;
            while i < chars.len()
                invariant
                    i <= chars.len() == before.len(),
                    forall|k: int|
                        0 <= k < i ==> chars@[k] == (if before[k] == '\\' {
                            '/'
                        } else {
                            before[k]
                        }),
                    forall|k: int| i <= k < chars.len() ==> chars@[k] == before[k],
                decreases chars.len() - i,
            {
                if chars[i] == '\\' {
                    chars.set(i, '/');
                }
                i = i + 1;
            }
            assert(chars@ =~= with_forward_slashes(path@, os));
            chars
        },
        Os::Mac | Os::Linux => chars,
    }
}

/// The name that `path` ends in, for a path as it is written on `os`.
pub fn file_name(path: &str, os: Os) -> (r: Option<String>)
    ensures
        r.deep_view() == final_segment(with_forward_slashes(path@, os)),
{
    let chars = forward_slashed(path, os);
    let mut end: usize = chars.len();
    while end > 0
        invariant
            end <= chars.len(),
            chars@ == with_forward_slashes(path@, os),
            final_segment_within(chars@, end as int) == final_segment(chars@),
        decreases end,
    {
        if chars[end - 1] == '/' {
            end = end - 1;
        } else {
            let mut start: usize = end - 1;
            while start > 0 && chars[start - 1] != '/'
                invariant
                    start < end <= chars.len(),
                    segment_start(chars@, start as int) == segment_start(chars@, end as int),
                    chars@[start as int] != '/',
                decreases start,
            {
                start = start - 1;
            }
            let ghost segment = chars@.subrange(start as int, end as int);
            assert(segment_start(chars@, end as int) == start);
            if end - start == 1 && chars[start] == '.' {
                assert(segment =~= seq!['.']);
                end = end - 1;
            } else if end - start == 2 && chars[start] == '.' && chars[start + 1] == '.' {
                assert(segment =~= seq!['.', '.']);
                return None;
            } else {
                assert(segment != seq!['.']) by {
                    if segment == seq!['.'] {
                        assert(segment.len() == 1);
                        assert(segment[0] == '.');
                    }
                }
                assert(segment != seq!['.', '.']) by {
                    if segment == seq!['.', '.'] {
                        assert(segment.len() == 2);
                        assert(segment[0] == '.');
                        assert(segment[1] == '.');
                    }
                }
                return Some(text_of(&chars, start, end));
            }
        }
    }
    None
}

} // verus!
