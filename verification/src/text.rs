use vstd::prelude::*;
use vstd::string::StrSliceExecFns;
use vstd::string::StringExecFns;

verus! {

/// Character-wise string equality, stated over the views.
pub fn str_eq(a: &str, b: &str) -> (r: bool)
    ensures
        r == (a@ == b@),
{
    let alen: usize = a.unicode_len();
    let blen: usize = b.unicode_len();
    if alen != blen {
        return false;
    }
    let mut i: usize = 0;
    while i < alen
        invariant
            i <= alen,
            alen == a@.len(),
            blen == b@.len(),
            alen == blen,
            forall|j: int| 0 <= j < i ==> a@[j] == b@[j],
        decreases alen - i,
    {
        if a.get_char(i) != b.get_char(i) {
            return false;
        }
        i += 1;
    }
    proof {
        assert(a@ =~= b@);
    }
    true
}

/// An ASCII capital letter folded to lower case; every other character is
/// itself.
pub open spec fn spec_lower_char(c: char) -> char {
    if 'A' <= c && c <= 'Z' {
        (((c as u8) + 32) as char)
    } else {
        c
    }
}

/// A string folded to ASCII lower case, character by character.
pub open spec fn spec_lower(s: Seq<char>) -> Seq<char> {
    s.map_values(|c: char| spec_lower_char(c))
}

fn lower_char(c: char) -> (r: char)
    ensures
        r == spec_lower_char(c),
{
    if 'A' <= c && c <= 'Z' {
        ((c as u8) + 32) as char
    } else {
        c
    }
}

/// Character-wise string equality up to ASCII case, stated over the views.
pub fn eq_ignore_ascii_case(a: &str, b: &str) -> (r: bool)
    ensures
        r == (spec_lower(a@) == spec_lower(b@)),
{
    let alen: usize = a.unicode_len();
    let blen: usize = b.unicode_len();
    proof {
        assert(spec_lower(a@).len() == a@.len());
        assert(spec_lower(b@).len() == b@.len());
    }
    if alen != blen {
        return false;
    }
    let mut i: usize = 0;
    while i < alen
        invariant
            i <= alen,
            alen == a@.len(),
            blen == b@.len(),
            alen == blen,
            forall|j: int| 0 <= j < i ==> spec_lower(a@)[j] == spec_lower(b@)[j],
        decreases alen - i,
    {
        proof {
            assert(spec_lower(a@)[i as int] == spec_lower_char(a@[i as int]));
            assert(spec_lower(b@)[i as int] == spec_lower_char(b@[i as int]));
        }
        if lower_char(a.get_char(i)) != lower_char(b.get_char(i)) {
            return false;
        }
        i += 1;
    }
    proof {
        assert(spec_lower(a@) =~= spec_lower(b@));
    }
    true
}

/// Index of the last `.` in a name, if any.
pub open spec fn spec_last_dot(s: Seq<char>) -> Option<int>
    decreases s.len(),
{
    if s.len() == 0 {
        None
    } else if s[s.len() - 1] == '.' {
        Some(s.len() - 1)
    } else {
        spec_last_dot(s.drop_last())
    }
}

proof fn lemma_last_dot_in_range(s: Seq<char>)
    requires
        spec_last_dot(s) is Some,
    ensures
        0 <= spec_last_dot(s)->Some_0 < s.len(),
        s[spec_last_dot(s)->Some_0] == '.',
    decreases s.len(),
{
    if s.len() > 0 && s[s.len() - 1] != '.' {
        lemma_last_dot_in_range(s.drop_last());
    }
}

fn last_dot(name: &str) -> (r: Option<usize>)
    ensures
        match r {
            Some(i) => spec_last_dot(name@) == Some(i as int),
            None => spec_last_dot(name@) is None,
        },
{
    let len: usize = name.unicode_len();
    proof {
        assert(name@.take(len as int) =~= name@);
    }
    let mut i: usize = len;
    while i > 0
        invariant
            i <= len,
            len == name@.len(),
            spec_last_dot(name@) == spec_last_dot(name@.take(i as int)),
        decreases i,
    {
        let c = name.get_char(i - 1);
        if c == '.' {
            return Some(i - 1);
        }
        proof {
            assert(name@.take(i as int).drop_last() =~= name@.take(i - 1));
        }
        i -= 1;
    }
    None
}

/// The extension of a file name: what follows the last `.`, provided that dot
/// is not the leading character (so a name such as a bare dotfile has none).
pub open spec fn spec_extension(name: Seq<char>) -> Option<Seq<char>> {
    match spec_last_dot(name) {
        None => None,
        Some(i) => if i == 0 {
            None
        } else {
            Some(name.subrange(i + 1, name.len() as int))
        },
    }
}

/// Extension of a file name, if any.
pub fn extension_of(name: &str) -> (r: Option<String>)
    ensures
        match r {
            Some(e) => spec_extension(name@) == Some(e@),
            None => spec_extension(name@) is None,
        },
{
    match last_dot(name) {
        None => None,
        Some(i) => {
            if i == 0 {
                None
            } else {
                proof {
                    lemma_last_dot_in_range(name@);
                }
                let len: usize = name.unicode_len();
                let e = name.substring_char(i + 1, len);
                Some(String::from_str(e))
            }
        },
    }
}

/// The content-addressed name for a file: the digest, keeping the original
/// name's extension when it has one.
pub open spec fn spec_target_name(digest: Seq<char>, name: Seq<char>) -> Seq<char> {
    match spec_extension(name) {
        None => digest,
        Some(e) => digest + seq!['.'] + e,
    }
}

/// Builds the content-addressed name for a file from its digest and its
/// current name.
pub fn target_name(digest: &str, name: &str) -> (r: String)
    ensures
        r@ == spec_target_name(digest@, name@),
{
    let mut out = String::from_str(digest);
    match extension_of(name) {
        None => {},
        Some(e) => {
            out.append(".");
            out.append(e.as_str());
            proof {
                reveal_strlit(".");
                assert("."@ =~= seq!['.']);
            }
        },
    }
    out
}

/// A directory path joined with an entry name, inserting `/` unless the
/// directory already ends with one or is empty.
pub open spec fn spec_join(dir: Seq<char>, name: Seq<char>) -> Seq<char> {
    if dir.len() == 0 {
        name
    } else if dir.last() == '/' {
        dir + name
    } else {
        dir + seq!['/'] + name
    }
}

/// Joins a directory path and an entry name.
pub fn join_path(dir: &str, name: &str) -> (r: String)
    ensures
        r@ == spec_join(dir@, name@),
{
    let dlen: usize = dir.unicode_len();
    if dlen == 0 {
        return String::from_str(name);
    }
    let mut out = String::from_str(dir);
    if dir.get_char(dlen - 1) != '/' {
        out.append("/");
        proof {
            reveal_strlit("/");
            assert("/"@ =~= seq!['/']);
        }
    }
    out.append(name);
    out
}

} // verus!
