//! File-name extensions of module paths.
//!
//! The memory-mapped loader dispatches on the extension of the resolved
//! name: the part of the last path component after its last `.`. A
//! component without a `.`, or whose only `.` is its first character (a
//! hidden file), has no extension.

use vstd::prelude::*;

verus! {

/// The index of the last occurrence of `c` in `s`, or `-1`.
pub open spec fn last_pos(s: Seq<char>, c: char) -> int
    decreases s.len(),
{
    if s.len() == 0 {
        -1
    } else if s.last() == c {
        s.len() - 1
    } else {
        last_pos(s.drop_last(), c)
    }
}

/// `last_pos` is in range, points at `c`, and nothing after it is `c`.
pub proof fn lemma_last_pos(s: Seq<char>, c: char)
    ensures
        -1 <= last_pos(s, c) < s.len(),
        last_pos(s, c) >= 0 ==> s[last_pos(s, c)] == c,
        forall|j: int| last_pos(s, c) < j < s.len() ==> s[j] != c,
    decreases s.len(),
{
    if s.len() > 0 && s.last() != c {
        lemma_last_pos(s.drop_last(), c);
        assert forall|j: int| last_pos(s, c) < j < s.len() implies s[j] != c by {
            if j < s.len() - 1 {
                assert(s.drop_last()[j] == s[j]);
            }
        }
    }
}

/// The last component of `s`: everything after the last `/`.
pub open spec fn file_name_of(s: Seq<char>) -> Seq<char> {
    s.subrange(last_pos(s, '/') + 1, s.len() as int)
}

/// The extension of the last component of `s`: what follows the last `.`
/// of the component, unless that `.` is absent or is the component's first
/// character.
pub open spec fn extension_of(s: Seq<char>) -> Option<Seq<char>> {
    let name = file_name_of(s);
    let dot = last_pos(name, '.');
    if dot <= 0 {
        None
    } else {
        Some(name.subrange(dot + 1, name.len() as int))
    }
}

/// Find the last occurrence of `c` in `s`, scanning from the end.
fn find_last(s: &str, c: char) -> (r: Option<usize>)
    ensures
        match r {
            Some(i) => last_pos(s@, c) == i,
            None => last_pos(s@, c) == -1,
        },
{
    proof {
        lemma_last_pos(s@, c);
    }
    let len = s.unicode_len();
    let mut i: usize = len;
    while i > 0
        invariant
            i <= len,
            len == s@.len(),
            last_pos(s@, c) < s@.len(),
            last_pos(s@, c) >= 0 ==> s@[last_pos(s@, c)] == c,
            forall|j: int| last_pos(s@, c) < j < s@.len() ==> s@[j] != c,
            forall|j: int| i <= j < s@.len() ==> s@[j] != c,
        decreases i,
    {
        i -= 1;
        if s.get_char(i) == c {
            assert(last_pos(s@, c) == i);
            return Some(i);
        }
    }
    assert(last_pos(s@, c) == -1) by {
        if last_pos(s@, c) >= 0 {
            assert(s@[last_pos(s@, c)] != c);
        }
    }
    None
}

/// The extension of a path, as `extension_of` describes it.
pub fn path_extension(s: &str) -> (r: Option<String>)
    ensures
        match r {
            Some(e) => extension_of(s@) == Some(e@),
            None => extension_of(s@) is None,
        },
{
    let len = s.unicode_len();
    proof {
        lemma_last_pos(s@, '/');
    }
    let start = match find_last(s, '/') {
        Some(i) => i + 1,
        None => 0,
    };
    let name = s.substring_char(start, len);
    assert(name@ =~= file_name_of(s@));
    let name_len = name.unicode_len();
    proof {
        lemma_last_pos(name@, '.');
    }
    match find_last(name, '.') {
        Some(dot) if dot > 0 => {
            let ext = name.substring_char(dot + 1, name_len);
            Some(ext.to_owned())
        },
        _ => None,
    }
}

} // verus!
