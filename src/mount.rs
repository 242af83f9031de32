use vstd::prelude::*;
use vstd::string::*;
use crate::error::Error;
use crate::value::Value;

verus! {

/// The directory, under the developer-tools root, that holds one support
/// directory per OS version.
pub const DEVICE_SUPPORT_DIR: &'static str = "Platforms/iPhoneOS.platform/DeviceSupport";

/// The developer disk image inside a support directory.
pub const DISK_IMAGE_FILE: &'static str = "DeveloperDiskImage.dmg";

/// The detached signature of the developer disk image.
pub const DISK_IMAGE_SIGNATURE_FILE: &'static str = "DeveloperDiskImage.dmg.signature";

/// The image type the mount request is tagged with.
pub const IMAGE_TYPE: &'static str = "Developer";

/// The native mount status 0xe8000076: the image is already mounted.
pub const IMAGE_ALREADY_MOUNTED: i32 = -402653066;

/// Where the two-component prefix of a dotted version ends, scanning from
/// position `i` having seen `dots` dots: at the second dot, or at the end.
pub open spec fn cut_from(s: Seq<char>, i: int, dots: int) -> int
    decreases s.len() - i,
{
    if i >= s.len() {
        s.len() as int
    } else if s[i] == '.' && dots >= 1 {
        i
    } else {
        cut_from(s, i + 1, if s[i] == '.' { dots + 1 } else { dots })
    }
}

/// The first two dot-separated components of a version, joined by their dot
/// ("13.4.1" gives "13.4"); a version with fewer components is kept whole.
pub open spec fn two_token(s: Seq<char>) -> Seq<char> {
    s.take(cut_from(s, 0, 0))
}

/// Whether `p` is a prefix of `s`.
pub open spec fn is_prefix(p: Seq<char>, s: Seq<char>) -> bool {
    p.len() <= s.len() && s.take(p.len() as int) == p
}

proof fn lemma_cut_bounds(s: Seq<char>, i: int, dots: int)
    requires
        0 <= i <= s.len(),
    ensures
        i <= cut_from(s, i, dots) <= s.len(),
    decreases s.len() - i,
{
    if i < s.len() && !(s[i] == '.' && dots >= 1) {
        lemma_cut_bounds(s, i + 1, if s[i] == '.' { dots + 1 } else { dots });
    }
}

/// The first two dot-separated components of an OS version.
pub fn two_token_prefix(version: &str) -> (r: String)
    ensures
        r@ == two_token(version@),
{
    let n = version.unicode_len();
    let mut i: usize = 0;
    let mut dots: usize = 0;
    while i < n
        invariant
            n == version@.len(),
            0 <= i <= n,
            dots <= 1,
            cut_from(version@, i as int, dots as int) == cut_from(version@, 0, 0),
        ensures
            cut_from(version@, i as int, dots as int) == i,
            i <= n,
        decreases n - i,
    {
        let c = version.get_char(i);
        if c == '.' {
            if dots >= 1 {
                assert(cut_from(version@, i as int, dots as int) == i);
                break;
            }
            dots = dots + 1;
        }
        i = i + 1;
    }
    proof {
        lemma_cut_bounds(version@, i as int, dots as int);
    }
    let sub = version.substring_char(0, i);
    String::from_str(sub)
}

/// Whether `s` starts with `p`.
pub fn starts_with(s: &str, p: &str) -> (b: bool)
    ensures
        b == is_prefix(p@, s@),
{
    let n = s.unicode_len();
    let m = p.unicode_len();
    if m > n {
        return false;
    }
    let mut i: usize = 0;
    while i < m
        invariant
            n == s@.len(),
            m == p@.len(),
            m <= n,
            0 <= i <= m,
            forall|j: int| 0 <= j < i ==> s@[j] == p@[j],
        decreases m - i,
    {
        if s.get_char(i) != p.get_char(i) {
            assert(s@.take(m as int)[i as int] != p@[i as int]);
            return false;
        }
        i = i + 1;
    }
    assert(s@.take(m as int) =~= p@);
    true
}

/// The first support directory, in the order given, whose name starts with
/// `prefix`.
pub fn select_support_dir(entries: &Vec<String>, prefix: &str) -> (r: Option<usize>)
    ensures
        r matches Some(i) ==> i < entries@.len() && is_prefix(prefix@, entries@[i as int]@)
            && forall|j: int| 0 <= j < i ==> !is_prefix(prefix@, #[trigger] entries@[j]@),
        r is None ==> forall|j: int|
            0 <= j < entries@.len() ==> !is_prefix(prefix@, #[trigger] entries@[j]@),
{
    let mut i: usize = 0;
    while i < entries.len()
        invariant
            0 <= i <= entries@.len(),
            forall|j: int| 0 <= j < i ==> !is_prefix(prefix@, #[trigger] entries@[j]@),
        decreases entries@.len() - i,
    {
        if starts_with(entries[i].as_str(), prefix) {
            return Some(i);
        }
        i = i + 1;
    }
    None
}

/// The support directory for a device OS version: the first entry whose name
/// starts with the version's two-component prefix.
pub fn support_dir_index(version: &str, entries: &Vec<String>) -> (r: Result<usize, Error>)
    ensures
        r matches Ok(i) ==> i < entries@.len() && is_prefix(two_token(version@), entries@[i as int]@)
            && forall|j: int| 0 <= j < i ==> !is_prefix(two_token(version@), #[trigger] entries@[j]@),
        r is Err ==> r == Err::<usize, Error>(Error::NoMatchingSupportImage) && forall|j: int|
            0 <= j < entries@.len() ==> !is_prefix(two_token(version@), #[trigger] entries@[j]@),
{
    let prefix = two_token_prefix(version);
    match select_support_dir(entries, prefix.as_str()) {
        Some(i) => Ok(i),
        None => Err(Error::NoMatchingSupportImage),
    }
}

/// The OS version out of the version property: it must be present and a string.
pub fn version_of(v: Option<Value>) -> (r: Result<String, Error>)
    ensures
        v is None ==> r == Err::<String, Error>(Error::MissingValue),
        v matches Some(Value::String(s)) ==> r matches Ok(t) && t@ == s@,
        v matches Some(x) && !(x is String) ==> r == Err::<String, Error>(Error::UnexpectedValue),
{
    match v {
        None => Err(Error::MissingValue),
        Some(Value::String(s)) => Ok(s),
        Some(_) => Err(Error::UnexpectedValue),
    }
}

/// What a mount status means: success, or the image was already mounted,
/// both count as mounted; any other status is a mount failure.
pub open spec fn mount_status_spec(rc: i32) -> Result<(), Error> {
    if rc == 0 || rc == IMAGE_ALREADY_MOUNTED {
        Ok(())
    } else {
        Err(Error::MountFailed(rc))
    }
}

/// Interprets the status of a mount request.
pub fn mount_status(rc: i32) -> (r: Result<(), Error>)
    ensures
        r == mount_status_spec(rc),
{
    if rc == 0 || rc == IMAGE_ALREADY_MOUNTED {
        Ok(())
    } else {
        Err(Error::MountFailed(rc))
    }
}

/// Mounting is idempotent: when a first mount succeeded, a second mount that
/// finds the image already mounted is a success too, so both calls succeed.
pub proof fn lemma_mount_idempotent(first: i32)
    requires
        mount_status_spec(first) is Ok,
    ensures
        mount_status_spec(first) is Ok && mount_status_spec(IMAGE_ALREADY_MOUNTED) is Ok,
{
}

} // verus!
