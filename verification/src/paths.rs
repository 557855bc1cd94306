//! Paths as text: joining a directory with a name, finding the final
//! component of a path, and telling a file's extension. The separator is
//! `/`.

use vstd::prelude::*;
use vstd::string::*;

verus! {

/// `child` placed under the directory `base`. An absolute `child` stands
/// for itself; otherwise a separator is put between the two unless `base`
/// is empty or already ends in one.
pub open spec fn joined(base: Seq<char>, child: Seq<char>) -> Seq<char> {
    if child.len() > 0 && child[0] == '/' {
        child
    } else if base.len() == 0 || base.last() == '/' {
        base + child
    } else {
        base + seq!['/'] + child
    }
}

/// A path that begins at the root.
pub open spec fn is_absolute(path: Seq<char>) -> bool {
    path.len() > 0 && path[0] == '/'
}

/// Where the components of a path begin: behind the root of an absolute
/// path, and behind the `.` that a relative path may begin with.
pub open spec fn body_start(path: Seq<char>) -> int {
    if path.len() > 0 && path[0] == '/' {
        1
    } else if path.len() > 0 && path[0] == '.' && (path.len() == 1 || path[1] == '/') {
        1
    } else {
        0
    }
}

/// Where the component that ends before `end` begins: behind the last
/// separator before `end`, and not before `lo`.
pub open spec fn segment_start(path: Seq<char>, lo: int, end: int) -> int
    decreases end - lo,
{
    if end <= lo || path[end - 1] == '/' {
        end
    } else {
        segment_start(path, lo, end - 1)
    }
}

/// The final component of what `path` holds before `end`. Empty
/// components, which trailing and doubled separators leave, and `.`
/// components are passed over; a path that ends in `..`, or holds no
/// component at all, has no final component.
pub open spec fn file_name_before(path: Seq<char>, end: int) -> Option<Seq<char>>
    decreases end,
{
    let lo = body_start(path);
    if end <= lo || end > path.len() {
        None
    } else {
        let start = segment_start(path, lo, end);
        let name = path.subrange(start, end);
        if lo <= start <= end {
            if start == end || (end - start == 1 && path[start] == '.') {
                file_name_before(
                    path,
                    if start > lo {
                        start - 1
                    } else {
                        start
                    },
                )
            } else if end - start == 2 && path[start] == '.' && path[start + 1] == '.' {
                None
            } else {
                Some(name)
            }
        } else {
            None
        }
    }
}

/// The final component of `path`: the name of the file or directory that
/// the path leads to.
pub open spec fn file_name(path: Seq<char>) -> Option<Seq<char>> {
    file_name_before(path, path.len() as int)
}

/// `name` is a non-empty stem, a dot, and `ext`. Meant for an `ext` that
/// holds no dot: then `ext` is what follows the last dot of `name`.
pub open spec fn ends_in(name: Seq<char>, ext: Seq<char>) -> bool {
    let n = name.len() as int;
    let k = ext.len() as int;
    &&& n >= k + 2
    &&& name.subrange(n - k, n) == ext
    &&& name[n - k - 1] == '.'
}

/// The final component of `path` has the extension `ext`.
pub open spec fn has_extension(path: Seq<char>, ext: Seq<char>) -> bool {
    match file_name(path) {
        Some(name) => ends_in(name, ext),
        None => false,
    }
}

/// The files that hold an evaluation definition: extension `yaml` or `yml`,
/// compared as written.
pub open spec fn is_yaml_path(path: Seq<char>) -> bool {
    has_extension(path, seq!['y', 'a', 'm', 'l']) || has_extension(path, seq!['y', 'm', 'l'])
}

/// The component that ends before `end` begins at `start`, where no
/// separator stands between the two and one stands before `start`.
pub proof fn segment_start_is(path: Seq<char>, lo: int, start: int, end: int)
    requires
        lo <= start <= end <= path.len(),
        forall|i: int| start <= i < end ==> #[trigger] path[i] != '/',
        start == lo || path[start - 1] == '/',
    ensures
        segment_start(path, lo, end) == start,
    decreases end - start,
{
    if start < end {
        segment_start_is(path, lo, start, end - 1);
    }
}

/// Joins `child` onto `base`.
pub fn join(base: &str, child: &str) -> (r: String)
    ensures
        r@ == joined(base@, child@),
{
    let n: usize = base.unicode_len();
    let k: usize = child.unicode_len();
    if k > 0 && child.get_char(0) == '/' {
        String::from_str(child)
    } else if n == 0 || base.get_char(n - 1) == '/' {
        String::from_str(base).concat(child)
    } else {
        proof {
            reveal_strlit("/");
            assert("/"@ =~= seq!['/']);
        }
        String::from_str(base).concat("/").concat(child)
    }
}

/// Whether `path` begins at the root.
pub fn is_absolute_path(path: &str) -> (b: bool)
    ensures
        b == is_absolute(path@),
{
    path.unicode_len() > 0 && path.get_char(0) == '/'
}

/// Whether what `path` holds from `start` to `end` is a stem, a dot and
/// `ext`.
fn tail_is(path: &str, start: usize, end: usize, ext: &str) -> (b: bool)
    requires
        start <= end <= path@.len(),
    ensures
        b == ends_in(path@.subrange(start as int, end as int), ext@),
{
    let ghost name = path@.subrange(start as int, end as int);
    let n: usize = end - start;
    let k: usize = ext.unicode_len();
    if n < 2 || n - 2 < k {
        return false;
    }
    assert(name[n - k - 1] == path@[end - k - 1]);
    if path.get_char(end - k - 1) != '.' {
        return false;
    }
    let mut i: usize = 0;
    while i < k
        invariant
            start <= end <= path@.len(),
            n == end - start,
            k == ext@.len(),
            n >= k + 2,
            i <= k,
            name == path@.subrange(start as int, end as int),
            forall|j: int| 0 <= j < i ==> path@[end - k + j] == #[trigger] ext@[j],
        decreases k - i,
    {
        if path.get_char(end - k + i) != ext.get_char(i) {
            proof {
                let tail = name.subrange(n - k, n as int);
                assert(tail[i as int] == path@[end - k + i]);
            }
            return false;
        }
        i = i + 1;
    }
    assert(name.subrange(n - k, n as int) =~= ext@);
    true
}

/// Whether the final component of `path` has the extension `ext`.
pub fn extension_is(path: &str, ext: &str) -> (b: bool)
    ensures
        b == has_extension(path@, ext@),
{
    let n: usize = path.unicode_len();
    let lo: usize = if n > 0 && path.get_char(0) == '/' {
        1
    } else if n > 0 && path.get_char(0) == '.' && (n == 1 || path.get_char(1) == '/') {
        1
    } else {
        0
    };
    let mut end: usize = n;
    while end > lo
        invariant
            n == path@.len(),
            lo == body_start(path@),
            lo <= n,
            end <= n,
            file_name(path@) == file_name_before(path@, end as int),
        decreases end,
    {
        let mut start: usize = end;
        while start > lo && path.get_char(start - 1) != '/'
            invariant
                n == path@.len(),
                lo <= start <= end <= n,
                forall|i: int| start <= i < end ==> #[trigger] path@[i] != '/',
            decreases start,
        {
            start = start - 1;
        }
        proof {
            segment_start_is(path@, lo as int, start as int, end as int);
        }
        if start == end || (end - start == 1 && path.get_char(start) == '.') {
            end = if start > lo {
                start - 1
            } else {
                start
            };
        } else if end - start == 2 && path.get_char(start) == '.' && path.get_char(start + 1)
            == '.' {
            return false;
        } else {
            return tail_is(path, start, end, ext);
        }
    }
    false
}

/// Whether `path` names an evaluation definition file.
pub fn is_yaml_file(path: &str) -> (b: bool)
    ensures
        b == is_yaml_path(path@),
{
    proof {
        reveal_strlit("yaml");
        reveal_strlit("yml");
        assert("yaml"@ =~= seq!['y', 'a', 'm', 'l']);
        assert("yml"@ =~= seq!['y', 'm', 'l']);
    }
    extension_is(path, "yaml") || extension_is(path, "yml")
}

} // verus!
