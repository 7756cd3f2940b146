use vstd::prelude::*;
use vstd::utf8::encode_utf8_decode_utf8;

verus! {

/// Checks a file argument, given whether a file of that name exists. The
/// name `-` stands for standard input and passes in any case; any other
/// name passes if the file exists. What passes is handed back as it came.
pub fn verify_file(filename: &str, exists: bool) -> (r: Result<String, &'static str>)
    ensures
        filename@ == "-"@ || exists ==> r is Ok && r->Ok_0@ == filename@,
        !(filename@ == "-"@ || exists) ==> r is Err && r->Err_0@ == "File docs not exist"@,
{
    if str_eq(filename, "-") || exists {
        Ok(filename.to_owned())
    } else {
        Err("File docs not exist")
    }
}

/// Checks a directory argument, given whether the path exists and whether
/// it is a directory: it passes if both hold, and is handed back as it
/// came.
pub fn verify_path(path: &str, exists: bool, is_dir: bool) -> (r: Result<String, &'static str>)
    ensures
        exists && is_dir ==> r is Ok && r->Ok_0@ == path@,
        !(exists && is_dir) ==> r is Err && r->Err_0@
            == "Path does not exist or is not a directory"@,
{
    if exists && is_dir {
        Ok(path.to_owned())
    } else {
        Err("Path does not exist or is not a directory")
    }
}

/// Whether two byte strings hold the same bytes. Stops at the first
/// difference, so it is meant for data that is not secret.
pub(crate) fn bytes_eq(a: &[u8], b: &[u8]) -> (same: bool)
    ensures
        same == (a@ == b@),
{
    if a.len() != b.len() {
        return false;
    }
    let mut i: usize = 0;
    while i < a.len()
        invariant
            a@.len() == b@.len(),
            i <= a@.len(),
            forall|k: int| 0 <= k < i ==> a@[k] == b@[k],
        decreases a@.len() - i,
    {
        if a[i] != b[i] {
            return false;
        }
        i += 1;
    }
    assert(a@ =~= b@);
    true
}

/// Whether two strings hold the same characters.
pub(crate) fn str_eq(a: &str, b: &str) -> (same: bool)
    ensures
        same == (a@ == b@),
{
    let same = bytes_eq(a.as_bytes(), b.as_bytes());
    proof {
        if same {
            // UTF-8 is injective: both strings decode from the same bytes.
            encode_utf8_decode_utf8(a@);
            encode_utf8_decode_utf8(b@);
        }
    }
    same
}

/// Whether two byte strings hold the same bytes, for secret data: where the
/// lengths agree every byte is looked at, whatever the bytes are, so the
/// time taken does not tell where the first difference lies.
pub fn constant_time_eq(a: &[u8], b: &[u8]) -> (same: bool)
    ensures
        same == (a@ == b@),
{
    if a.len() != b.len() {
        return false;
    }
    let mut diff: u8 = 0;
    let mut i: usize = 0;
    while i < a.len()
        invariant
            a@.len() == b@.len(),
            i <= a@.len(),
            diff == 0 <==> forall|k: int| 0 <= k < i ==> a@[k] == b@[k],
        decreases a@.len() - i,
    {
        let x: u8 = a[i];
        let y: u8 = b[i];
        assert((diff | (x ^ y)) == 0 <==> diff == 0 && x == y) by (bit_vector);
        diff = diff | (x ^ y);
        i += 1;
    }
    proof {
        if diff == 0 {
            assert(a@ =~= b@);
        }
    }
    diff == 0
}

/// The bytes of `bytes` as an array of their number.
pub(crate) fn to_array<const N: usize>(bytes: &[u8]) -> (array: [u8; N])
    requires
        bytes@.len() == N,
    ensures
        array@ == bytes@,
{
    let mut array: [u8; N] = [0u8; N];
    let mut i: usize = 0;
    while i < N
        invariant
            bytes@.len() == N,
            i <= N,
            forall|k: int| 0 <= k < i ==> array@[k] == bytes@[k],
        decreases N - i,
    {
        array[i] = bytes[i];
        i += 1;
    }
    assert(array@ =~= bytes@);
    array
}

} // verus!
