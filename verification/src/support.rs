use vstd::prelude::*;
use vstd::string::StringSliceAdditionalSpecFns;

verus! {

/// The error that `sysinfo` reports when it cannot tell something about the
/// system.
#[verifier::external_type_specification]
#[verifier::external_body]
pub struct ExSysinfoError(sysinfo::Error);

/// `a >= b` in the lexicographic order on byte strings, the order of
/// `Vec<u8>` and `[u8]`: the first differing byte decides, and a proper
/// prefix comes before every longer string that extends it.
pub open spec fn bytes_ge(a: Seq<u8>, b: Seq<u8>) -> bool
    decreases a.len(),
{
    if b.len() == 0 {
        true
    } else if a.len() == 0 {
        false
    } else if a[0] != b[0] {
        a[0] > b[0]
    } else {
        bytes_ge(a.drop_first(), b.drop_first())
    }
}

/// The bytes that an OS version is compared against: "12.3" followed by a
/// line feed.
pub open spec fn min_os_version() -> Seq<u8> {
    seq![49u8, 50u8, 46u8, 51u8, 10u8]
}

/// Whether screen capturing is supported on an OS whose version string is
/// `os_version` (`None` when it could not be determined).
pub open spec fn spec_os_version_supported(os_version: Option<Seq<u8>>) -> bool {
    match os_version {
        Some(v) => bytes_ge(v, min_os_version()),
        None => false,
    }
}

proof fn lemma_bytes_ge_skip(a: Seq<u8>, b: Seq<u8>, i: int)
    requires
        0 <= i <= a.len(),
        i <= b.len(),
        forall|j: int| 0 <= j < i ==> a[j] == b[j],
    ensures
        bytes_ge(a, b) == bytes_ge(a.skip(i), b.skip(i)),
    decreases i,
{
    if i > 0 {
        assert(a.skip(i) =~= a.drop_first().skip(i - 1));
        assert(b.skip(i) =~= b.drop_first().skip(i - 1));
        lemma_bytes_ge_skip(a.drop_first(), b.drop_first(), i - 1);
    } else {
        assert(a.skip(0) =~= a);
        assert(b.skip(0) =~= b);
    }
}

proof fn lemma_bytes_ge_transitive(a: Seq<u8>, b: Seq<u8>, c: Seq<u8>)
    requires
        bytes_ge(a, b),
        bytes_ge(b, c),
    ensures
        bytes_ge(a, c),
    decreases a.len(),
{
    if c.len() == 0 || a.len() == 0 || b.len() == 0 {
    } else if a[0] == b[0] && b[0] == c[0] {
        lemma_bytes_ge_transitive(a.drop_first(), b.drop_first(), c.drop_first());
    }
}

/// The lexicographic order on byte strings: `a >= b` exactly when `b` is a
/// prefix of `a`, or at the first position where they differ `a` has the
/// higher byte.
pub proof fn lemma_bytes_ge_is_lexicographic(a: Seq<u8>, b: Seq<u8>)
    ensures
        bytes_ge(a, b) == ((b.len() <= a.len() && a.take(b.len() as int) == b) || exists|i: int|
            0 <= i < a.len() && i < b.len() && a.take(i) == b.take(i) && #[trigger] a[i] > b[i]),
    decreases a.len(),
{
    if b.len() == 0 {
        assert(a.take(0) =~= b);
    } else if a.len() == 0 {
    } else if a[0] != b[0] {
        if a[0] > b[0] {
            assert(a.take(0) =~= b.take(0));
        } else {
            if b.len() <= a.len() && a.take(b.len() as int) == b {
                assert(a.take(b.len() as int)[0] == a[0]);
            }
            if exists|i: int| 0 <= i < a.len() && i < b.len() && a.take(i) == b.take(i) && #[trigger] a[i] > b[i] {
                let i = choose|i: int| 0 <= i < a.len() && i < b.len() && a.take(i) == b.take(i) && #[trigger] a[i] > b[i];
                if i > 0 {
                    assert(a.take(i)[0] == b.take(i)[0]);
                }
            }
        }
    } else {
        let a1 = a.drop_first();
        let b1 = b.drop_first();
        lemma_bytes_ge_is_lexicographic(a1, b1);
        if b1.len() <= a1.len() && a1.take(b1.len() as int) == b1 {
            assert(a.take(b.len() as int) =~= seq![a[0]] + a1.take(b1.len() as int));
            assert(b =~= seq![b[0]] + b1);
        }
        if b.len() <= a.len() && a.take(b.len() as int) == b {
            assert(a1.take(b1.len() as int) =~= a.take(b.len() as int).drop_first());
            assert(b1 =~= b.drop_first());
        }
        if exists|i: int| 0 <= i < a1.len() && i < b1.len() && a1.take(i) == b1.take(i) && #[trigger] a1[i] > b1[i] {
            let i = choose|i: int| 0 <= i < a1.len() && i < b1.len() && a1.take(i) == b1.take(i) && #[trigger] a1[i] > b1[i];
            assert(a.take(i + 1) =~= seq![a[0]] + a1.take(i));
            assert(b.take(i + 1) =~= seq![b[0]] + b1.take(i));
            assert(a[i + 1] > b[i + 1]);
        }
        if exists|i: int| 0 <= i < a.len() && i < b.len() && a.take(i) == b.take(i) && #[trigger] a[i] > b[i] {
            let i = choose|i: int| 0 <= i < a.len() && i < b.len() && a.take(i) == b.take(i) && #[trigger] a[i] > b[i];
            assert(i > 0);
            assert(a1.take(i - 1) =~= a.take(i).drop_first());
            assert(b1.take(i - 1) =~= b.take(i).drop_first());
            assert(a1[i - 1] > b1[i - 1]);
        }
    }
}

/// An OS version is supported exactly when its bytes start with "12.3"
/// followed by a line feed, or are higher than those bytes at the first
/// position where they differ; an unknown version is not supported.
pub proof fn lemma_os_version_threshold(v: Seq<u8>)
    ensures
        spec_os_version_supported(Some(v)) == {
            let min = seq![49u8, 50u8, 46u8, 51u8, 10u8];
            ||| (5 <= v.len() && v.take(5) == min)
            ||| exists|i: int| 0 <= i < v.len() && i < 5 && v.take(i) == min.take(i) && #[trigger] v[i] > min[i]
        },
        !spec_os_version_supported(None),
{
    lemma_bytes_ge_is_lexicographic(v, min_os_version());
    assert(min_os_version() =~= seq![49u8, 50u8, 46u8, 51u8, 10u8]);
}

/// A version that compares at least as high as a supported one is supported
/// too.
pub proof fn lemma_supported_versions_upward_closed(supported: Seq<u8>, newer: Seq<u8>)
    requires
        spec_os_version_supported(Some(supported)),
        bytes_ge(newer, supported),
    ensures
        spec_os_version_supported(Some(newer)),
{
    lemma_bytes_ge_transitive(newer, supported, min_os_version());
}

/// `a >= b` on byte strings, lexicographically.
fn bytes_ge_exec(a: &[u8], b: &[u8]) -> (r: bool)
    ensures
        r == bytes_ge(a@, b@),
{
    let mut i: usize = 0;
    while i < a.len() && i < b.len()
        invariant
            i <= a@.len(),
            i <= b@.len(),
            forall|j: int| 0 <= j < i ==> a@[j] == b@[j],
        decreases a@.len() - i,
    {
        if a[i] != b[i] {
            proof {
                lemma_bytes_ge_skip(a@, b@, i as int);
            }
            return a[i] > b[i];
        }
        i = i + 1;
    }
    proof {
        lemma_bytes_ge_skip(a@, b@, i as int);
    }
    i == b.len()
}

/// Whether screen capturing is supported on an OS whose version string is
/// `os_version`. The version is compared byte by byte with "12.3" followed by
/// a line feed; an unknown version is not supported.
pub fn os_version_supported(os_version: Option<&str>) -> (supported: bool)
    ensures
        supported == spec_os_version_supported(
            match os_version {
                Some(v) => Some(v.spec_bytes()),
                None => None,
            },
        ),
{
    match os_version {
        None => false,
        Some(v) => {
            let min: [u8; 5] = [49, 50, 46, 51, 10];
            assert(min@ =~= min_os_version());
            bytes_ge_exec(v.as_bytes(), min.as_slice())
        },
    }
}

/// Calls `sysinfo::System::os_version`, the version of the running OS (such
/// as "15.1.1" on macOS). Nothing is stated of the result: it depends on the
/// machine.
#[verifier::external_body]
fn system_os_version() -> Result<String, sysinfo::Error> {
    sysinfo::System::os_version()
}

/// Whether capturing is supported, given what the OS reported as its
/// version: a version that could not be read is unsupported; a version that
/// was read is compared byte by byte with "12.3" followed by a line feed.
pub fn supported_by_report(report: Result<String, sysinfo::Error>) -> (supported: bool)
    ensures
        supported == match report {
            Ok(v) => spec_os_version_supported(Some(vstd::utf8::encode_utf8(v@))),
            Err(_) => false,
        },
{
    match report {
        Ok(version) => os_version_supported(Some(version.as_str())),
        Err(_) => false,
    }
}

/// Whether screen capturing is supported on this machine: its OS version is
/// known and compares at least as high as "12.3" followed by a line feed.
/// The comparison itself is `os_version_supported`; what the OS reports is
/// not stated.
pub fn is_supported() -> bool {
    supported_by_report(system_os_version())
}

} // verus!
