//! Paths as text: their components, file names and extensions. Components
//! are separated by `/`; empty components and `.` do not count.

use crate::text::{chars_eq, slice_to_vec, to_chars};
use vstd::prelude::*;

verus! {

/// The offset of the first `/` at or after `from`, or the length of `s`.
pub open spec fn next_slash(s: Seq<char>, from: int) -> int
    decreases s.len() - from,
{
    if from < 0 || from >= s.len() {
        s.len() as int
    } else if s[from] == '/' {
        from
    } else {
        next_slash(s, from + 1)
    }
}

/// Whether a segment between slashes counts as a component: it is neither
/// empty nor `.`.
pub open spec fn is_component(seg: Seq<char>) -> bool {
    seg.len() > 0 && seg != seq!['.']
}

/// The components of `s` from offset `from` on, in order.
pub open spec fn components_from(s: Seq<char>, from: int) -> Seq<Seq<char>>
    decreases s.len() - from,
{
    if from < 0 || from >= s.len() {
        Seq::empty()
    } else {
        let k = next_slash(s, from);
        let seg = s.subrange(from, k);
        let head: Seq<Seq<char>> = if is_component(seg) {
            seq![seg]
        } else {
            Seq::empty()
        };
        if from <= k < s.len() {
            head + components_from(s, k + 1)
        } else {
            head
        }
    }
}

/// The components of the path `s`.
pub open spec fn components(s: Seq<char>) -> Seq<Seq<char>> {
    components_from(s, 0)
}

/// The final component of the path, unless there is none or it is `..`.
pub open spec fn file_name(s: Seq<char>) -> Option<Seq<char>> {
    let c = components(s);
    if c.len() == 0 || c.last() == seq!['.', '.'] {
        None
    } else {
        Some(c.last())
    }
}

/// The offset of the last `.` in `s`, or -1.
pub open spec fn last_dot(s: Seq<char>) -> int
    decreases s.len(),
{
    if s.len() == 0 {
        -1
    } else if s.last() == '.' {
        s.len() - 1
    } else {
        last_dot(s.drop_last())
    }
}

/// The extension of a file name: what follows its last `.`, unless that is
/// its first character or there is none.
pub open spec fn extension_of_name(name: Seq<char>) -> Option<Seq<char>> {
    if last_dot(name) <= 0 {
        None
    } else {
        Some(name.skip(last_dot(name) + 1))
    }
}

/// The extension of the path's file name.
pub open spec fn extension(s: Seq<char>) -> Option<Seq<char>> {
    match file_name(s) {
        Some(name) => extension_of_name(name),
        None => None,
    }
}

/// The texts of a list of character vectors.
pub open spec fn texts(v: Seq<Vec<char>>) -> Seq<Seq<char>> {
    v.map_values(|c: Vec<char>| c@)
}

/// The components of `path`.
pub fn path_components(path: &str) -> (r: Vec<Vec<char>>)
    ensures
        texts(r@) == components(path@),
{
    let buf = to_chars(path);
    let n = buf.len();
    let mut r: Vec<Vec<char>> = Vec::new();
    let mut start: usize = 0;
    let mut i: usize = 0;
    assert(texts(r@) == Seq::<Seq<char>>::empty());
    while i < n
        invariant
            n == buf.len(),
            buf@ == path@,
            start <= i <= n,
            components(buf@) == texts(r@) + components_from(buf@, start as int),
            next_slash(buf@, start as int) == next_slash(buf@, i as int),
        decreases n - i,
    {
        if buf[i] == '/' {
            let seg = slice_to_vec(buf.as_slice(), start, i);
            proof {
                assert(next_slash(buf@, start as int) == i);
            }
            if start < i {
                let counts = !(seg.len() == 1 && seg[0] == '.');
                proof {
                    if !counts {
                        assert(seg@ == seq!['.']);
                    }
                }
                if counts {
                    proof {
                        assert(texts(r@.push(seg)) == texts(r@) + seq![seg@]);
                    }
                    r.push(seg);
                }
            }
            proof {
                assert(texts(r@) + Seq::<Seq<char>>::empty() == texts(r@));
            }
            start = i + 1;
        }
        i += 1;
    }
    if start < n {
        let seg = slice_to_vec(buf.as_slice(), start, n);
        proof {
            assert(next_slash(buf@, i as int) == n);
        }
        let counts = !(seg.len() == 1 && seg[0] == '.');
        proof {
            if !counts {
                assert(seg@ == seq!['.']);
            }
            assert(texts(r@) + Seq::<Seq<char>>::empty() == texts(r@));
        }
        if counts {
            proof {
                assert(texts(r@.push(seg)) == texts(r@) + seq![seg@]);
            }
            r.push(seg);
        }
    } else {
        proof {
            assert(texts(r@) + Seq::<Seq<char>>::empty() == texts(r@));
        }
    }
    r
}

/// The text of an optional character vector.
pub open spec fn chars_of(v: Option<Vec<char>>) -> Option<Seq<char>> {
    match v {
        Some(c) => Some(c@),
        None => None,
    }
}

/// The file name of `path`.
pub fn path_file_name(path: &str) -> (r: Option<Vec<char>>)
    ensures
        chars_of(r) == file_name(path@),
{
    let mut c = path_components(path);
    assert(texts(c@).len() == c.len());
    if c.len() == 0 {
        return None;
    }
    let ghost all = c@;
    let last = c.pop().unwrap();
    assert(texts(all).last() == last@);
    if last.len() == 2 && last[0] == '.' && last[1] == '.' {
        assert(last@ == seq!['.', '.']);
        return None;
    }
    Some(last)
}

/// The extension of the file name `name`.
pub fn name_extension(name: &[char]) -> (r: Option<Vec<char>>)
    ensures
        chars_of(r) == extension_of_name(name@),
{
    let mut i: usize = name.len();
    assert(name@.take(i as int) == name@);
    while i > 0 && name[i - 1] != '.'
        invariant
            i <= name.len(),
            last_dot(name@) == last_dot(name@.take(i as int)),
        decreases i,
    {
        assert(name@.take(i as int).drop_last() == name@.take(i - 1));
        i -= 1;
    }
    if i <= 1 {
        proof {
            if i == 1 {
                assert(name@.take(1).last() == name@[0]);
            }
        }
        return None;
    }
    assert(name@.take(i as int).last() == name@[i - 1]);
    let ext = slice_to_vec(name, i, name.len());
    assert(name@.subrange(i as int, name.len() as int) == name@.skip(i as int));
    Some(ext)
}

/// The extension of the file name of `path`.
pub fn path_extension(path: &str) -> (r: Option<Vec<char>>)
    ensures
        chars_of(r) == extension(path@),
{
    match path_file_name(path) {
        Some(name) => name_extension(name.as_slice()),
        None => None,
    }
}

/// Whether `list` holds the text `s`.
pub open spec fn list_has(list: Seq<String>, s: Seq<char>) -> bool {
    exists|i: int| 0 <= i < list.len() && (#[trigger] list[i])@ == s
}

/// Whether `list` holds the text `s`.
pub fn list_contains(list: &Vec<String>, s: &[char]) -> (r: bool)
    ensures
        r == list_has(list@, s@),
{
    let mut i: usize = 0;
    while i < list.len()
        invariant
            i <= list.len(),
            forall|j: int| 0 <= j < i ==> (#[trigger] list[j])@ != s@,
        decreases list.len() - i,
    {
        let item = to_chars(list[i].as_str());
        if chars_eq(item.as_slice(), s) {
            return true;
        }
        i += 1;
    }
    false
}

} // verus!
