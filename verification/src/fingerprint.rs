//! What is recorded of a certificate or key file to notice that it has been replaced.

use vstd::prelude::*;

verus! {

/// The observable identity of one file: where it really lives, how long it is
/// and when it was last modified.
pub struct FileFingerprint {
    /// Bytes of the fully resolved path (symbolic links followed).
    pub canonical_path: Vec<u8>,
    /// Length of the file in bytes.
    pub len: u64,
    /// Modification time, in nanoseconds relative to the Unix epoch
    /// (negative before it).
    pub modified_nanos: i128,
}

/// Mathematical model of a [`FileFingerprint`].
pub struct FileFingerprintView {
    pub canonical_path: Seq<u8>,
    pub len: u64,
    pub modified_nanos: i128,
}

impl View for FileFingerprint {
    type V = FileFingerprintView;

    open spec fn view(&self) -> FileFingerprintView {
        FileFingerprintView {
            canonical_path: self.canonical_path@,
            len: self.len,
            modified_nanos: self.modified_nanos,
        }
    }
}

/// Byte-wise equality of two paths.
fn same_bytes(a: &Vec<u8>, b: &Vec<u8>) -> (r: bool)
    ensures
        r == (a@ == b@),
{
    if a.len() != b.len() {
        return false;
    }
    let n = a.len();
    let mut i: usize = 0;
    while i < n
        invariant
            n == a.len(),
            n == b.len(),
            i <= n,
            forall|j: int| 0 <= j < i ==> a@[j] == b@[j],
        decreases n - i,
    {
        if a[i] != b[i] {
            return false;
        }
        i = i + 1;
    }
    assert(a@ =~= b@);
    true
}

impl FileFingerprint {
    /// Whether two fingerprints describe the same file contents generation.
    pub fn same_as(&self, other: &FileFingerprint) -> (r: bool)
        ensures
            r == (self@ == other@),
    {
        self.len == other.len && self.modified_nanos == other.modified_nanos && same_bytes(
            &self.canonical_path,
            &other.canonical_path,
        )
    }
}

/// The fingerprints of a certificate file and of its private key file.
pub struct IdentityFingerprint {
    pub cert: FileFingerprint,
    pub key: FileFingerprint,
}

/// Mathematical model of an [`IdentityFingerprint`].
pub struct IdentityFingerprintView {
    pub cert: FileFingerprintView,
    pub key: FileFingerprintView,
}

impl View for IdentityFingerprint {
    type V = IdentityFingerprintView;

    open spec fn view(&self) -> IdentityFingerprintView {
        IdentityFingerprintView { cert: self.cert@, key: self.key@ }
    }
}

impl IdentityFingerprint {
    /// Pairs the fingerprint of the certificate file with that of the key file.
    pub fn new(cert: FileFingerprint, key: FileFingerprint) -> (r: IdentityFingerprint)
        ensures
            r.cert@ == cert@,
            r.key@ == key@,
    {
        IdentityFingerprint { cert, key }
    }

    /// Whether both files are unchanged between the two fingerprints.
    pub fn same_as(&self, other: &IdentityFingerprint) -> (r: bool)
        ensures
            r == (self@ == other@),
    {
        self.cert.same_as(&other.cert) && self.key.same_as(&other.key)
    }
}

/// Two file fingerprints are found the same exactly when they name the same
/// resolved path with the same length and the same modification time: a
/// change of any of the three (a repointed link, a resized or touched file)
/// is noticed.
pub proof fn law_file_fingerprints_compare_all_fields(
    a: &FileFingerprint,
    b: &FileFingerprint,
    r: bool,
)
    requires
        call_ensures(FileFingerprint::same_as, (a, b), r),
    ensures
        r <==> (a.canonical_path@ == b.canonical_path@ && a.len == b.len && a.modified_nanos
            == b.modified_nanos),
{
}

/// Two identity fingerprints are found the same exactly when both the
/// certificate files and the key files compare the same.
pub proof fn law_identity_fingerprints_compare_both_files(
    a: &IdentityFingerprint,
    b: &IdentityFingerprint,
    r: bool,
)
    requires
        call_ensures(IdentityFingerprint::same_as, (a, b), r),
    ensures
        r <==> (a.cert.canonical_path@ == b.cert.canonical_path@ && a.cert.len == b.cert.len
            && a.cert.modified_nanos == b.cert.modified_nanos && a.key.canonical_path@
            == b.key.canonical_path@ && a.key.len == b.key.len && a.key.modified_nanos
            == b.key.modified_nanos),
{
}

} // verus!
