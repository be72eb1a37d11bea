use vstd::prelude::*;
use crate::errors::ErrorKind;

verus! {

/// The final component of a path: its longest suffix holding no separator.
/// Empty exactly when the path is empty or ends in a separator.
pub open spec fn spec_base_name(path: Seq<char>) -> Seq<char>
    decreases path.len(),
{
    if path.len() == 0 {
        Seq::empty()
    } else if path[path.len() - 1] == '/' {
        Seq::empty()
    } else {
        spec_base_name(path.drop_last()).push(path[path.len() - 1])
    }
}

/// A path has an extractable file-name component.
pub open spec fn base_name_ok(path: Seq<char>) -> bool {
    spec_base_name(path).len() > 0
}

/// The index of the last `.` in a name, or `-1` if there is none.
pub open spec fn spec_last_dot(name: Seq<char>) -> int
    decreases name.len(),
{
    if name.len() == 0 {
        -1
    } else if name[name.len() - 1] == '.' {
        name.len() - 1
    } else {
        spec_last_dot(name.drop_last())
    }
}

/// A file name with its extension stripped. A name whose only `.` is its
/// first character (a hidden file) keeps that name whole.
pub open spec fn spec_stem(name: Seq<char>) -> Seq<char> {
    let d = spec_last_dot(name);
    if d <= 0 {
        name
    } else {
        name.subrange(0, d)
    }
}

/// `s` ends in `suffix`.
pub open spec fn spec_has_suffix(s: Seq<char>, suffix: Seq<char>) -> bool {
    s.len() >= suffix.len() && s.subrange(s.len() - suffix.len(), s.len() as int) == suffix
}

/// The remote name an overlay derived from a device-tree source is uploaded
/// under: the source's base name — whole, or stripped to its stem — with
/// `.dtbo` appended.
pub open spec fn spec_overlay_name(path: Seq<char>, use_stem: bool) -> Seq<char> {
    let base = spec_base_name(path);
    (if use_stem {
        spec_stem(base)
    } else {
        base
    }) + ".dtbo"@
}

proof fn lemma_base_name_suffix(s: Seq<char>, j: int)
    requires
        0 <= j < s.len(),
        forall|k: int| j <= k < s.len() ==> s[k] != '/',
        j == 0 || s[j - 1] == '/',
    ensures
        spec_base_name(s) == s.subrange(j, s.len() as int),
    decreases s.len(),
{
    let n = s.len() as int;
    assert(s[n - 1] != '/');
    if j == n - 1 {
        if j == 0 {
            assert(s.drop_last() =~= Seq::<char>::empty());
        } else {
            assert(s.drop_last()[j - 1] == '/');
        }
        assert(spec_base_name(s.drop_last()) =~= Seq::<char>::empty());
        assert(spec_base_name(s) =~= s.subrange(j, n));
    } else {
        assert(forall|k: int| j <= k < s.drop_last().len() ==> s.drop_last()[k] != '/');
        lemma_base_name_suffix(s.drop_last(), j);
        assert(spec_base_name(s) =~= s.subrange(j, n));
    }
}

/// A path has no extractable file-name component exactly when it is empty
/// or ends in a separator with nothing after it.
pub proof fn lemma_base_name_empty(path: Seq<char>)
    ensures
        !base_name_ok(path) <==> (path.len() == 0 || path[path.len() - 1] == '/'),
{
    if path.len() == 0 || path[path.len() - 1] == '/' {
        assert(spec_base_name(path) =~= Seq::<char>::empty());
    } else {
        assert(spec_base_name(path).len() > 0);
    }
}

/// Law: for a path with a non-empty final component, the base name is exactly
/// that component — a non-empty suffix of the path that holds no separator
/// and is preceded either by nothing or by a separator.
pub proof fn lemma_base_name_is_final_component(path: Seq<char>)
    requires
        base_name_ok(path),
    ensures
        spec_base_name(path).len() > 0,
        spec_base_name(path).len() <= path.len(),
        spec_base_name(path) == path.subrange(
            path.len() - spec_base_name(path).len(),
            path.len() as int,
        ),
        forall|k: int|
            path.len() - spec_base_name(path).len() <= k < path.len() ==> path[k] != '/',
        spec_base_name(path).len() < path.len() ==> path[path.len() - spec_base_name(path).len()
            - 1] == '/',
    decreases path.len(),
{
    let n = path.len() as int;
    let base = spec_base_name(path);
    assert(path.len() > 0 && path[n - 1] != '/') by {
        lemma_base_name_empty(path);
    }
    let rest = path.drop_last();
    if !base_name_ok(rest) {
        lemma_base_name_empty(rest);
        assert(spec_base_name(rest) =~= Seq::<char>::empty());
        assert(base =~= seq![path[n - 1]]);
        assert(base =~= path.subrange(n - 1, n));
    } else {
        lemma_base_name_is_final_component(rest);
        let b = spec_base_name(rest);
        assert(base =~= b.push(path[n - 1]));
        assert(base =~= path.subrange(n - base.len(), n));
        assert forall|k: int| n - base.len() <= k < n implies path[k] != '/' by {
            if k < n - 1 {
                assert(rest[k] != '/');
                assert(path[k] == rest[k]);
            } else {
                assert(path[k] != '/');
            }
        }
    }
}

/// The last path component of `path`, or `InvalidPath` when the path has no
/// extractable file-name component (it is empty or ends in a separator).
pub fn base_name(path: &str) -> (r: Result<String, ErrorKind>)
    ensures
        base_name_ok(path@) ==> (r matches Ok(name) && name@ == spec_base_name(path@)),
        !base_name_ok(path@) ==> (r matches Err(e) && e == ErrorKind::InvalidPath),
{
    let n = path.unicode_len();
    if n == 0 {
        proof {
            lemma_base_name_empty(path@);
        }
        return Err(ErrorKind::InvalidPath);
    }
    if path.get_char(n - 1) == '/' {
        proof {
            lemma_base_name_empty(path@);
        }
        return Err(ErrorKind::InvalidPath);
    }
    let mut j: usize = n - 1;
    while j > 0 && path.get_char(j - 1) != '/'
        invariant
            0 <= j < n,
            n == path@.len(),
            forall|k: int| j <= k < n ==> path@[k] != '/',
        decreases j,
    {
        j = j - 1;
    }
    proof {
        lemma_base_name_suffix(path@, j as int);
    }
    let s = path.substring_char(j, n);
    Ok(String::from_str(s))
}

proof fn lemma_last_dot_from(s: Seq<char>, i: int)
    requires
        0 <= i <= s.len(),
        forall|k: int| i <= k < s.len() ==> s[k] != '.',
    ensures
        i == 0 ==> spec_last_dot(s) == -1,
        i > 0 && s[i - 1] == '.' ==> spec_last_dot(s) == i - 1,
    decreases s.len(),
{
    if s.len() > i {
        assert(s[s.len() - 1] != '.');
        assert(forall|k: int| i <= k < s.drop_last().len() ==> s.drop_last()[k] != '.');
        lemma_last_dot_from(s.drop_last(), i);
        if i > 0 {
            assert(s.drop_last()[i - 1] == s[i - 1]);
        }
    }
}

/// `name` with its extension stripped, by the same rule as `spec_stem`.
pub fn file_stem(name: &str) -> (r: String)
    ensures
        r@ == spec_stem(name@),
{
    let n = name.unicode_len();
    let mut i: usize = n;
    while i > 0 && name.get_char(i - 1) != '.'
        invariant
            0 <= i <= n,
            n == name@.len(),
            forall|k: int| i <= k < n ==> name@[k] != '.',
        decreases i,
    {
        i = i - 1;
    }
    proof {
        lemma_last_dot_from(name@, i as int);
    }
    if i <= 1 {
        String::from_str(name)
    } else {
        String::from_str(name.substring_char(0, i - 1))
    }
}

/// `s` ends in `suffix`.
pub fn has_suffix(s: &str, suffix: &str) -> (r: bool)
    ensures
        r == spec_has_suffix(s@, suffix@),
{
    let n = s.unicode_len();
    let m = suffix.unicode_len();
    if n < m {
        return false;
    }
    let mut i: usize = 0;
    while i < m
        invariant
            0 <= i <= m,
            m <= n,
            n == s@.len(),
            m == suffix@.len(),
            forall|k: int| 0 <= k < i ==> s@[n - m + k] == suffix@[k],
        decreases m - i,
    {
        if s.get_char(n - m + i) != suffix.get_char(i) {
            proof {
                if spec_has_suffix(s@, suffix@) {
                    assert(s@.subrange(n - m, n as int)[i as int] == suffix@[i as int]);
                }
            }
            return false;
        }
        i = i + 1;
    }
    proof {
        assert(s@.subrange(n - m, n as int) =~= suffix@);
    }
    true
}

/// Law: a bitstream's remote name and the binary-image name derived from
/// it never collide — the derived name is strictly longer — so staging
/// both keeps the staging set's names unique.
pub proof fn lemma_converted_name_is_fresh(name: Seq<char>)
    ensures
        name + ".bin"@ != name,
{
    reveal_strlit(".bin");
    assert((name + ".bin"@).len() == name.len() + 4);
}

/// The remote name of the binary image converted from a bitstream: the
/// bitstream's remote name with a literal `.bin` appended. One suffix per
/// conversion — applying this twice yields a doubled suffix.
pub fn derive_converted_binary_name(name: &str) -> (r: String)
    ensures
        r@ == name@ + ".bin"@,
{
    let mut r = String::from_str(name);
    r.append(".bin");
    r
}

/// The remote name for an overlay compiled from the device-tree source at
/// `path`: the source's base name (stripped to its stem when `use_stem` is
/// set) with `.dtbo` appended, or `InvalidPath` when no base name exists.
pub fn derive_overlay_name_from_source(path: &str, use_stem: bool) -> (r: Result<
    String,
    ErrorKind,
>)
    ensures
        base_name_ok(path@) ==> (r matches Ok(name) && name@ == spec_overlay_name(
            path@,
            use_stem,
        )),
        !base_name_ok(path@) ==> (r matches Err(e) && e == ErrorKind::InvalidPath),
{
    let base = match base_name(path) {
        Ok(b) => b,
        Err(e) => {
            return Err(e);
        },
    };
    let mut applied = if use_stem {
        file_stem(base.as_str())
    } else {
        base
    };
    applied.append(".dtbo");
    Ok(applied)
}

} // verus!
