//! Where the generated files go: directories under the website's root, and the address
//! under which the website serves each file.

use vstd::prelude::*;
use crate::subaction_links::{chars_of, contains_text};
use crate::text::push_char;

verus! {

/// The folder of the website's root, relative to the generator's working folder.
pub const WEB_ROOT: &'static str = "../root";

/// Whether `p` is an absolute path.
pub open spec fn absolute(p: Seq<char>) -> bool {
    p.len() > 0 && p[0] == '/'
}

/// The path `base` with `p` added, as a path joins them: an absolute `p` replaces `base`;
/// otherwise a `/` separates them, unless `base` is empty or already ends with one.
pub open spec fn pushed(base: Seq<char>, p: Seq<char>) -> Seq<char> {
    if absolute(p) {
        p
    } else if base.len() == 0 || base.last() == '/' {
        base + p
    } else {
        base + "/"@ + p
    }
}

/// `p` without the empty and `.` names at its front, which a path's components skip.
pub open spec fn trim_front_names(p: Seq<char>) -> Seq<char>
    decreases p.len(),
{
    if p.len() > 0 && p[0] == '/' {
        trim_front_names(p.drop_first())
    } else if p == seq!['.'] {
        Seq::empty()
    } else if p.len() >= 2 && p[0] == '.' && p[1] == '/' {
        trim_front_names(p.skip(2))
    } else {
        p
    }
}

/// `p` without the empty and `.` names at its back, which a path's components skip.
pub open spec fn trim_back_names(p: Seq<char>) -> Seq<char>
    decreases p.len(),
{
    if p.len() > 0 && p.last() == '/' {
        trim_back_names(p.drop_last())
    } else if p == seq!['.'] {
        Seq::empty()
    } else if p.len() >= 2 && p.last() == '.' && p[p.len() - 2] == '/' {
        trim_back_names(p.take(p.len() - 2))
    } else {
        p
    }
}

/// The address under which the website serves the file `name` of the folder `dir` (both
/// relative): the file's path under the root, without the empty and `.` names at its ends,
/// from `/`.
pub open spec fn served_address(dir: Seq<char>, name: Seq<char>) -> Seq<char> {
    "/"@ + trim_back_names(trim_front_names(pushed(dir, name)))
}

/// Whether `p` is a relative path of one or more names joined by `/`, with no empty name
/// and no name `.`.
pub open spec fn relative_path(p: Seq<char>) -> bool {
    &&& p.len() > 0
    &&& p[0] != '/'
    &&& p[p.len() - 1] != '/'
    &&& !contains_text(p, "//"@)
    &&& !contains_text("/"@ + p + "/"@, "/./"@)
}

/// A folder under the website's root that files are written to.
pub struct OutDir {
    /// The folder, relative to the website's root (`.` for the root itself).
    pub path: String,
}

fn append_pushed(base: &mut String, p: &str)
    ensures
        final(base)@ == pushed(old(base)@, p@),
{
    let pc = chars_of(p);
    if pc.len() > 0 && pc[0] == '/' {
        *base = String::from_str(p);
        return;
    }
    let bc = chars_of(base.as_str());
    if !(bc.len() == 0 || bc[bc.len() - 1] == '/') {
        base.append("/");
    }
    base.append(p);
}

impl OutDir {
    /// The folder `path` under the website's root.
    pub fn new(path: &str) -> (dir: OutDir)
        ensures
            dir.path@ == path@,
    {
        OutDir { path: String::from_str(path) }
    }

    /// The path of the folder, from the generator's working folder.
    pub fn fs_path(&self) -> (path: String)
        ensures
            path@ == pushed(WEB_ROOT@, self.path@),
    {
        let mut path = String::from_str(WEB_ROOT);
        append_pushed(&mut path, self.path.as_str());
        path
    }

    /// The path of the file `file_name` of the folder, from the generator's working folder.
    pub fn file_path(&self, file_name: &str) -> (path: String)
        ensures
            path@ == pushed(pushed(WEB_ROOT@, self.path@), file_name@),
    {
        let mut path = self.fs_path();
        append_pushed(&mut path, file_name);
        path
    }

    /// The address under which the website serves the file `file_name` of the folder: the
    /// file's path under the root, without empty and `.` names at its ends, from `/`. A
    /// folder or file name that is absolute would leave the root, and has no address.
    pub fn file_address(&self, file_name: &str) -> (address: String)
        requires
            !absolute(self.path@),
            !absolute(file_name@),
        ensures
            address@ == served_address(self.path@, file_name@),
    {
        let mut joined = String::from_str(self.path.as_str());
        append_pushed(&mut joined, file_name);
        let c = chars_of(joined.as_str());
        let n = c.len();
        let ghost s = c@;
        let mut i: usize = 0;
        assert(s.skip(0) =~= s);
        while i < n
            invariant
                i <= n == s.len(),
                s == c@,
                trim_front_names(s) == trim_front_names(s.skip(i as int)),
            ensures
                i <= n,
                trim_front_names(s) == s.skip(i as int),
            decreases n - i,
        {
            if c[i] == '/' {
                assert(s.skip(i as int).drop_first() =~= s.skip(i + 1));
                i += 1;
            } else if c[i] == '.' && (i + 1 == n || c[i + 1] == '/') {
                if i + 1 == n {
                    assert(s.skip(i as int) =~= seq!['.']);
                    assert(s.skip(i + 1) =~= Seq::<char>::empty());
                } else {
                    assert(s.skip(i as int).skip(2) =~= s.skip(i + 2));
                    assert(s.skip(i + 1).drop_first() =~= s.skip(i + 2));
                }
                i += 1;
            } else {
                assert(s.skip(i as int)[0] == c@[i as int]);
                assert(trim_front_names(s.skip(i as int)) == s.skip(i as int));
                break;
            }
        }
        assert(s.skip(i as int) =~= s.subrange(i as int, n as int));
        let mut j: usize = n;
        while j > i
            invariant
                i <= j <= n == s.len(),
                s == c@,
                trim_back_names(s.subrange(i as int, n as int)) == trim_back_names(
                    s.subrange(i as int, j as int),
                ),
            ensures
                i <= j <= n,
                trim_back_names(s.subrange(i as int, n as int)) == s.subrange(i as int, j as int),
            decreases j - i,
        {
            let ghost t = s.subrange(i as int, j as int);
            if c[j - 1] == '/' {
                assert(t.drop_last() =~= s.subrange(i as int, j - 1));
                j -= 1;
            } else if c[j - 1] == '.' && (j - 1 == i || c[j - 2] == '/') {
                if j - 1 == i {
                    assert(t =~= seq!['.']);
                    assert(s.subrange(i as int, j - 1) =~= Seq::<char>::empty());
                } else {
                    assert(t.take(t.len() - 2) =~= s.subrange(i as int, j - 2));
                    assert(s.subrange(i as int, j - 1).drop_last() =~= s.subrange(i as int, j - 2));
                }
                j -= 1;
            } else {
                assert(t.last() == c@[j - 1]);
                assert(trim_back_names(t) == t);
                break;
            }
        }
        let mut address = String::from_str("/");
        let mut k: usize = i;
        while k < j
            invariant
                i <= k <= j <= n == s.len(),
                s == c@,
                address@ == "/"@ + s.subrange(i as int, k as int),
            decreases j - k,
        {
            push_char(&mut address, c[k]);
            assert(s.subrange(i as int, k + 1) =~= s.subrange(i as int, k as int).push(s[k as int]));
            k += 1;
        }
        address
    }
}

/// A file of a folder is served under `/{folder}/{name}` (under `/{name}` for the root
/// `.`) when the folder and the name are relative paths with no empty and no `.` names.
pub proof fn lemma_plain_address(dir: Seq<char>, name: Seq<char>)
    requires
        dir == "."@ || relative_path(dir),
        relative_path(name),
    ensures
        served_address(dir, name) == if dir == "."@ {
            "/"@ + name
        } else {
            "/"@ + dir + "/"@ + name
        },
{
    reveal_strlit(".");
    reveal_strlit("/");
    lemma_plain_ends(name);
    assert(trim_back_names(name) == name);
    if dir == "."@ {
        let x = pushed(dir, name);
        assert(x =~= seq!['.', '/'] + name);
        assert(x.skip(2) =~= name);
        assert(trim_front_names(name) == name);
        assert(trim_front_names(x) == name);
    } else {
        lemma_plain_ends(dir);
        let x = dir + "/"@ + name;
        assert(pushed(dir, name) == x);
        assert(x[0] == dir[0]);
        assert(x.len() >= 3);
        if dir.len() >= 2 {
            assert(x[1] == dir[1]);
        } else {
            assert(x[1] == '/');
            if dir[0] == '.' {
                assert(dir =~= seq!['.']);
            }
        }
        assert(trim_front_names(x) == x);
        assert(x.last() == name.last());
        if name.len() >= 2 {
            assert(x[x.len() - 2] == name[name.len() - 2]);
        } else {
            assert(x[x.len() - 2] == '/');
            if name[0] == '.' {
                assert(name =~= seq!['.']);
            }
        }
        assert(trim_back_names(x) == x);
    }
}

/// A relative path with no empty and no `.` names neither starts nor ends with such a name.
proof fn lemma_plain_ends(p: Seq<char>)
    requires
        relative_path(p),
    ensures
        p != seq!['.'],
        p[0] != '/',
        p.last() != '/',
        !(p.len() >= 2 && p[0] == '.' && p[1] == '/'),
        !(p.len() >= 2 && p.last() == '.' && p[p.len() - 2] == '/'),
        trim_front_names(p) == p,
{
    reveal_strlit("/");
    reveal_strlit("/./");
    let w = "/"@ + p + "/"@;
    if p == seq!['.'] {
        assert(w.subrange(0, 3) =~= "/./"@);
        lemma_contains_at(w, "/./"@, 0);
    }
    if p.len() >= 2 && p[0] == '.' && p[1] == '/' {
        assert(w.subrange(0, 3) =~= "/./"@);
        lemma_contains_at(w, "/./"@, 0);
    }
    if p.len() >= 2 && p.last() == '.' && p[p.len() - 2] == '/' {
        assert(w.subrange(p.len() - 1, p.len() + 2 as int) =~= "/./"@);
        lemma_contains_at(w, "/./"@, p.len() - 1);
    }
}

proof fn lemma_contains_at(text: Seq<char>, pattern: Seq<char>, i: int)
    requires
        0 <= i,
        i + pattern.len() <= text.len(),
        text.subrange(i, i + pattern.len()) == pattern,
    ensures
        contains_text(text, pattern),
{
}

} // verus!
