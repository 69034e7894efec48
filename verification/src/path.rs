//! Paths as text, with `/` between components.
use crate::text::same_text;
use vstd::prelude::*;

verus! {

/// A path is absolute when it starts at the root.
pub open spec fn is_absolute(p: Seq<char>) -> bool {
    p.len() > 0 && p[0] == '/'
}

/// `part` placed under `base`. An absolute `part` stands for itself; otherwise
/// it follows `base`, after one `/` unless `base` is empty or already ends
/// in one.
pub open spec fn joined(base: Seq<char>, part: Seq<char>) -> Seq<char> {
    if is_absolute(part) {
        part
    } else if base.len() == 0 || base.last() == '/' {
        base + part
    } else {
        base + seq!['/'] + part
    }
}

/// `p` without the `/` characters at its end.
pub open spec fn trimmed(p: Seq<char>) -> Seq<char>
    decreases p.len(),
{
    if p.len() > 0 && p.last() == '/' {
        trimmed(p.drop_last())
    } else {
        p
    }
}

/// What follows the last `/` of `p`; all of `p` where it has none.
pub open spec fn last_part(p: Seq<char>) -> Seq<char>
    decreases p.len(),
{
    if p.len() == 0 || p.last() == '/' {
        Seq::empty()
    } else {
        last_part(p.drop_last()).push(p.last())
    }
}

/// The name of the file or directory that `p` leads to: its last
/// component, `/` characters at the end of `p` set aside. A path that ends
/// in the root, in `.` or in `..` names nothing.
pub open spec fn file_name_of(p: Seq<char>) -> Option<Seq<char>> {
    let name = last_part(trimmed(p));
    if name.len() == 0 || name == "."@ || name == ".."@ {
        None
    } else {
        Some(name)
    }
}

/// A file name has no `/` in it and is not empty, so that placing it under
/// a directory adds exactly one component.
pub proof fn lemma_file_name_is_one_part(p: Seq<char>)
    ensures
        file_name_of(p) matches Some(name) ==> name.len() > 0 && !name.contains('/')
            && !is_absolute(name),
{
    lemma_last_part_has_no_slash(trimmed(p));
}

/// The last component of a path has no `/` in it.
pub proof fn lemma_last_part_has_no_slash(p: Seq<char>)
    ensures
        !last_part(p).contains('/'),
        last_part(p).len() <= p.len(),
        last_part(p) == p.subrange(p.len() - last_part(p).len(), p.len() as int),
    decreases p.len(),
{
    if p.len() == 0 || p.last() == '/' {
        assert(last_part(p) =~= p.subrange(p.len() as int, p.len() as int));
    } else {
        let front = p.drop_last();
        lemma_last_part_has_no_slash(front);
        let part = last_part(front);
        assert forall|i: int| 0 <= i < part.push(p.last()).len() implies part.push(p.last())[i]
            != '/' by {
            if i < part.len() {
                assert(part.contains(part[i]));
            }
        }
        assert(last_part(p) =~= p.subrange(p.len() - last_part(p).len(), p.len() as int));
    }
}

/// Tells whether `path` starts at the root.
pub fn path_is_absolute(path: &str) -> (b: bool)
    ensures
        b == is_absolute(path@),
{
    path.unicode_len() > 0 && path.get_char(0) == '/'
}

/// Places `part` under `base`.
pub fn join(base: &str, part: &str) -> (path: String)
    ensures
        path@ == joined(base@, part@),
{
    if path_is_absolute(part) {
        return String::from_str(part);
    }
    let n = base.unicode_len();
    let mut path = String::from_str(base);
    if n > 0 && base.get_char(n - 1) != '/' {
        proof {
            reveal_strlit("/");
        }
        path.append("/");
        assert("/"@ =~= seq!['/']);
    }
    path.append(part);
    path
}

/// The name of the file or directory that `path` leads to, if it has one.
/// A name is one component: it is not empty and has no `/` in it.
pub fn file_name(path: &str) -> (name: Option<String>)
    ensures
        match name {
            Some(n) => file_name_of(path@) == Some(n@) && n@.len() > 0 && !n@.contains('/'),
            None => file_name_of(path@) is None,
        },
{
    proof {
        lemma_file_name_is_one_part(path@);
    }
    let len = path.unicode_len();
    let mut end: usize = len;
    assert(path@.subrange(0, end as int) =~= path@);
    while end > 0 && path.get_char(end - 1) == '/'
        invariant
            end <= len,
            len == path@.len(),
            trimmed(path@) == trimmed(path@.subrange(0, end as int)),
        decreases end,
    {
        proof {
            let cut = path@.subrange(0, end as int);
            assert(cut.drop_last() =~= path@.subrange(0, end - 1));
        }
        end = end - 1;
    }
    let ghost cut = path@.subrange(0, end as int);
    proof {
        if end == len {
            assert(cut =~= path@);
        }
        assert(trimmed(path@) == cut);
    }
    let mut start: usize = end;
    proof {
        assert(cut.subrange(0, start as int) =~= cut);
        assert(cut.subrange(start as int, end as int) =~= Seq::<char>::empty());
        assert(last_part(cut) + Seq::<char>::empty() =~= last_part(cut));
    }
    while start > 0 && path.get_char(start - 1) != '/'
        invariant
            start <= end <= len,
            len == path@.len(),
            cut == path@.subrange(0, end as int),
            last_part(cut) == last_part(cut.subrange(0, start as int)) + cut.subrange(
                start as int,
                end as int,
            ),
        decreases start,
    {
        proof {
            let head = cut.subrange(0, start as int);
            assert(head.drop_last() =~= cut.subrange(0, start - 1));
            assert(last_part(head) == last_part(head.drop_last()).push(head.last()));
            assert(last_part(head.drop_last()).push(head.last()) + cut.subrange(
                start as int,
                end as int,
            ) =~= last_part(head.drop_last()) + cut.subrange(start - 1, end as int));
        }
        start = start - 1;
    }
    proof {
        let head = cut.subrange(0, start as int);
        assert(last_part(head) =~= Seq::<char>::empty());
        assert(last_part(cut) =~= cut.subrange(start as int, end as int));
        assert(cut.subrange(start as int, end as int) =~= path@.subrange(start as int, end as int));
    }
    let name = path.substring_char(start, end);
    if start == end || same_text(name, ".") || same_text(name, "..") {
        None
    } else {
        Some(String::from_str(name))
    }
}

} // verus!
