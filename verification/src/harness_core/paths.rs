//! Paths under the application's data directory: screenshot file names, relative paths
//! written with `/`, and which relative paths a user may name.

use vstd::prelude::*;

use crate::harness_core::error::HarnessError;
use crate::text::{chars_of, decimal, push_decimal, string_from_chars, strip_end, trim, trim_end_char, trimmed_chars_of};

verus! {

/// The parts of a path joined with `/`.
pub open spec fn slash_joined(parts: Seq<Seq<char>>) -> Seq<char>
    decreases parts.len(),
{
    if parts.len() == 0 {
        Seq::empty()
    } else if parts.len() == 1 {
        parts[0]
    } else {
        slash_joined(parts.drop_last()) + seq!['/'] + parts.last()
    }
}

/// A path relative to the data directory, written with `/` between its parts whatever
/// the platform's separator.
pub fn normalize_rel_path(parts: &Vec<String>) -> (r: String)
    ensures
        r@ == slash_joined(parts.deep_view()),
{
    let mut out: Vec<char> = Vec::new();
    let mut i: usize = 0;
    assert(parts.deep_view().take(0) =~= Seq::<Seq<char>>::empty());
    while i < parts.len()
        invariant
            i <= parts@.len(),
            out@ == slash_joined(parts.deep_view().take(i as int)),
        decreases parts@.len() - i,
    {
        let p = chars_of(parts[i].as_str());
        let ghost before = out@;
        if i > 0 {
            out.push('/');
        }
        let mut k: usize = 0;
        let ghost mid = out@;
        while k < p.len()
            invariant
                k <= p@.len(),
                out@ == mid + p@.take(k as int),
            decreases p@.len() - k,
        {
            out.push(p[k]);
            assert(p@.take(k + 1) =~= p@.take(k as int).push(p@[k as int]));
            k += 1;
        }
        assert(p@.take(k as int) =~= p@);
        let ghost pre = parts.deep_view().take(i + 1);
        assert(pre.drop_last() =~= parts.deep_view().take(i as int));
        assert(pre.last() == parts@[i as int]@);
        if i == 0 {
            assert(pre.len() == 1);
            assert(out@ =~= pre[0]);
        } else {
            assert(out@ =~= before + seq!['/'] + p@);
        }
        i += 1;
    }
    assert(parts.deep_view().take(i as int) =~= parts.deep_view());
    string_from_chars(out.as_slice())
}

/// The characters of an integer in decimal, with a leading `-` when it is negative.
pub open spec fn signed_decimal(n: int) -> Seq<char> {
    if n < 0 {
        seq!['-'] + decimal((-n) as nat)
    } else {
        decimal(n as nat)
    }
}

/// The file-name prefix used for a requested prefix: trimmed, without trailing hyphens,
/// and "cap" when nothing is left.
pub open spec fn snapshot_prefix_of(requested: Seq<char>) -> Seq<char> {
    let p = strip_end(trim(requested), |x: char| x == '-');
    if p.len() == 0 {
        "cap"@
    } else {
        p
    }
}

/// The file-name prefix of a screenshot for a requested prefix.
pub fn snapshot_prefix(requested: &str) -> (r: String)
    ensures
        r@ == snapshot_prefix_of(requested@),
{
    let t = trimmed_chars_of(requested);
    let p = trim_end_char(t.as_slice(), '-');
    if p.len() == 0 {
        String::from_str("cap")
    } else {
        string_from_chars(p.as_slice())
    }
}

/// `prefix`, the millisecond stamp in decimal, and ".png".
pub open spec fn snapshot_name(prefix: Seq<char>, millis: i64) -> Seq<char> {
    prefix + seq!['-'] + signed_decimal(millis as int) + ".png"@
}

/// The file name of a screenshot: `<prefix>-<milliseconds since the epoch>.png`.
pub fn snapshot_file_name(prefix: &str, millis: i64) -> (r: String)
    ensures
        r@ == snapshot_name(prefix@, millis),
{
    let mut v = chars_of(prefix);
    v.push('-');
    if millis < 0 {
        v.push('-');
        let m: u64 = if millis == i64::MIN {
            9223372036854775808u64
        } else {
            (-millis) as u64
        };
        push_decimal(m, &mut v);
    } else {
        push_decimal(millis as u64, &mut v);
    }
    let ext = chars_of(".png");
    let ghost base = v@;
    let mut k: usize = 0;
    while k < ext.len()
        invariant
            k <= ext@.len(),
            v@ == base + ext@.take(k as int),
        decreases ext@.len() - k,
    {
        v.push(ext[k]);
        assert(ext@.take(k + 1) =~= ext@.take(k as int).push(ext@[k as int]));
        k += 1;
    }
    assert(ext@.take(k as int) =~= ext@);
    assert(v@ =~= snapshot_name(prefix@, millis));
    string_from_chars(v.as_slice())
}

/// One part of a relative path, as the platform reads it.
#[derive(Debug, Clone, PartialEq, Eq)]
pub enum PathPart {
    /// A named directory or file.
    Normal(String),
    /// `.`
    CurDir,
    /// `..`
    ParentDir,
    /// The root.
    RootDir,
    /// A Windows drive or share prefix.
    Prefix,
}

/// The named parts of a relative path, in order.
pub open spec fn named_parts(parts: Seq<PathPart>) -> Seq<Seq<char>>
    decreases parts.len(),
{
    if parts.len() == 0 {
        Seq::empty()
    } else {
        let r = named_parts(parts.drop_last());
        match parts.last() {
            PathPart::Normal(s) => r.push(s@),
            _ => r,
        }
    }
}

/// The path leaves the data directory or names a root.
pub open spec fn escapes(parts: Seq<PathPart>) -> bool {
    exists|i: int|
        0 <= i < parts.len() && ((#[trigger] parts[i]) is ParentDir || parts[i] is RootDir || parts[i] is Prefix)
}

/// Calls `std::path::Path::is_absolute`. What counts as absolute depends on the platform
/// (a leading `/` on Unix, a drive or share prefix with a root on Windows), so nothing is
/// stated of the result but that an empty path is never absolute.
#[verifier::external_body]
pub(crate) fn path_is_absolute(path: &str) -> (r: bool)
    ensures
        r ==> path@.len() > 0,
{
    std::path::Path::new(path).is_absolute()
}

/// Calls `std::path::Path::components` and reads each component as a `PathPart` (a
/// normal component through `to_string_lossy`). How a text splits into components
/// depends on the platform's separators and prefixes, so nothing is stated of the result.
#[verifier::external_body]
fn path_components(path: &str) -> (r: Vec<PathPart>) {
    let mut out: Vec<PathPart> = Vec::new();
    for c in std::path::Path::new(path).components() {
        out.push(match c {
            std::path::Component::Normal(p) => PathPart::Normal(p.to_string_lossy().into_owned()),
            std::path::Component::CurDir => PathPart::CurDir,
            std::path::Component::ParentDir => PathPart::ParentDir,
            std::path::Component::RootDir => PathPart::RootDir,
            std::path::Component::Prefix(_) => PathPart::Prefix,
        });
    }
    out
}

/// The named parts under the data directory of a path the user gave, read the way the
/// platform reads the trimmed text: a blank path is refused as empty; otherwise the
/// platform's answers on whether it is absolute and what its components are go to
/// `relative_parts`. Every refusal is an invalid path.
pub fn data_relative_parts(rel: &str) -> (r: Result<Vec<String>, HarnessError>)
    ensures
        trim(rel@).len() == 0 ==> (r matches Err(HarnessError::InvalidPath(m)) && m@ == "路径为空"@),
        r matches Err(e) ==> e is InvalidPath,
{
    let t = string_from_chars(trimmed_chars_of(rel).as_slice());
    let abs = path_is_absolute(t.as_str());
    let parts = path_components(t.as_str());
    relative_parts(rel, abs, &parts)
}

/// The named parts under the data directory of a path the user gave as `rel`
/// (`is_absolute` and `parts` are how the platform reads it once trimmed): a blank path,
/// an absolute one, and one with `..`, a root or a prefix are refused; `.` parts are
/// dropped.
pub fn relative_parts(rel: &str, is_absolute: bool, parts: &Vec<PathPart>) -> (r: Result<Vec<String>, HarnessError>)
    ensures
        trim(rel@).len() == 0 ==> (r matches Err(HarnessError::InvalidPath(m)) && m@ == "路径为空"@),
        trim(rel@).len() > 0 && is_absolute ==> (r matches Err(HarnessError::InvalidPath(m)) && m@ == "不允许绝对路径"@),
        trim(rel@).len() > 0 && !is_absolute && escapes(parts@) ==> (r matches Err(HarnessError::InvalidPath(m)) && m@
            == "非法的相对路径"@),
        trim(rel@).len() > 0 && !is_absolute && !escapes(parts@) ==> (r matches Ok(v) && v.deep_view() == named_parts(
            parts@,
        )),
{
    if crate::text::trimmed_chars_of(rel).len() == 0 {
        return Err(HarnessError::InvalidPath(String::from_str("路径为空")));
    }
    if is_absolute {
        return Err(HarnessError::InvalidPath(String::from_str("不允许绝对路径")));
    }
    let mut out: Vec<String> = Vec::new();
    let mut i: usize = 0;
    assert(parts@.take(0) =~= Seq::<PathPart>::empty());
    while i < parts.len()
        invariant
            trim(rel@).len() > 0,
            !is_absolute,
            i <= parts@.len(),
            out.deep_view() == named_parts(parts@.take(i as int)),
            forall|k: int| 0 <= k < i ==> !((#[trigger] parts@[k]) is ParentDir || parts@[k] is RootDir || parts@[k] is Prefix),
        decreases parts@.len() - i,
    {
        assert(parts@.take(i + 1).drop_last() =~= parts@.take(i as int));
        assert(parts@.take(i + 1).last() == parts@[i as int]);
        match &parts[i] {
            PathPart::Normal(s) => {
                let ghost before = out.deep_view();
                out.push(s.clone());
                assert(out.deep_view() =~= before.push(s@));
            },
            PathPart::CurDir => {},
            _ => {
                assert(escapes(parts@));
                return Err(HarnessError::InvalidPath(String::from_str("非法的相对路径")));
            },
        }
        i += 1;
    }
    assert(parts@.take(i as int) =~= parts@);
    Ok(out)
}

/// The BGRA byte that RGBA byte `j` comes from: red and blue trade places.
pub open spec fn bgra_source(j: int) -> int {
    if j % 4 == 0 {
        j + 2
    } else if j % 4 == 2 {
        j - 2
    } else {
        j
    }
}

/// The RGBA pixels of BGRA pixels: in each group of four bytes the first and third trade
/// places; a trailing partial group is dropped.
pub fn bgra_to_rgba(bgra: &[u8]) -> (rgba: Vec<u8>)
    ensures
        rgba@.len() == bgra@.len() - bgra@.len() % 4,
        forall|j: int| 0 <= j < rgba@.len() ==> #[trigger] rgba@[j] == bgra@[bgra_source(j)],
{
    let total = bgra.len() - bgra.len() % 4;
    let mut out: Vec<u8> = Vec::new();
    let mut b: usize = 0;
    while b < total
        invariant
            total == bgra@.len() - bgra@.len() % 4,
            total % 4 == 0,
            b <= total,
            b % 4 == 0,
            out@.len() == b,
            forall|j: int| 0 <= j < b ==> #[trigger] out@[j] == bgra@[bgra_source(j)],
        decreases total - b,
    {
        assert(b + 4 <= total);
        out.push(bgra[b + 2]);
        out.push(bgra[b + 1]);
        out.push(bgra[b]);
        out.push(bgra[b + 3]);
        b += 4;
    }
    out
}

} // verus!
