use vstd::prelude::*;
use crate::config::{
    spec_str_bytes, spec_snappy_bytes, spec_zstd_bytes, spec_gzip_bytes, spec_none_bytes,
    spec_uncompressed_bytes,
};

verus! {

/// Compression codec of the columnar files.
#[derive(Clone, Copy, PartialEq, Eq, Structural, Debug)]
pub enum Compression {
    Snappy,
    Zstd,
    Gzip,
    Uncompressed,
}

/// ASCII lower-casing of one byte.
pub open spec fn spec_ascii_lower(b: u8) -> u8 {
    if 65 <= b && b <= 90 {
        (b + 32) as u8
    } else {
        b
    }
}

/// ASCII lower-casing of a byte string.
pub open spec fn spec_lower(s: Seq<u8>) -> Seq<u8> {
    s.map_values(|b: u8| spec_ascii_lower(b))
}

/// The codec a configuration string selects: the four names (and
/// "uncompressed" as a synonym of "none") compared without regard to ASCII
/// case; anything else falls back to Snappy.
pub open spec fn spec_compression_of(s: Seq<u8>) -> Compression {
    let l = spec_lower(s);
    if l == spec_snappy_bytes() {
        Compression::Snappy
    } else if l == spec_zstd_bytes() {
        Compression::Zstd
    } else if l == spec_gzip_bytes() {
        Compression::Gzip
    } else if l == spec_none_bytes() || l == spec_uncompressed_bytes() {
        Compression::Uncompressed
    } else {
        Compression::Snappy
    }
}

/// ASCII lower-casing of a byte slice.
fn lower_bytes(s: &[u8]) -> (r: Vec<u8>)
    ensures
        r@ == spec_lower(s@),
{
    let n = s.len();
    let mut r: Vec<u8> = Vec::new();
    let mut i: usize = 0;
    while i < n
        invariant
            n == s@.len(),
            i <= n,
            r@.len() == i,
            forall|j: int| 0 <= j < i ==> r@[j] == spec_ascii_lower(s@[j]),
        decreases n - i,
    {
        let b = s[i];
        if b >= 65 && b <= 90 {
            r.push(b + 32);
        } else {
            r.push(b);
        }
        i += 1;
    }
    assert(r@ =~= spec_lower(s@));
    r
}

/// Map a codec name to the compression used for the columnar files,
/// without regard to ASCII case; an unrecognized name falls back to Snappy.
pub fn parse_compression(s: &str) -> (r: Compression)
    ensures
        r == spec_compression_of(spec_str_bytes(s@)),
{
    let l = lower_bytes(s.as_bytes());
    let snappy: Vec<u8> = vec![115u8, 110u8, 97u8, 112u8, 112u8, 121u8];
    let zstd: Vec<u8> = vec![122u8, 115u8, 116u8, 100u8];
    let gzip: Vec<u8> = vec![103u8, 122u8, 105u8, 112u8];
    let none: Vec<u8> = vec![110u8, 111u8, 110u8, 101u8];
    let uncompressed: Vec<u8> = vec![
        117u8,
        110u8,
        99u8,
        111u8,
        109u8,
        112u8,
        114u8,
        101u8,
        115u8,
        115u8,
        101u8,
        100u8,
    ];
    if crate::config::bytes_eq(l.as_slice(), snappy.as_slice()) {
        Compression::Snappy
    } else if crate::config::bytes_eq(l.as_slice(), zstd.as_slice()) {
        Compression::Zstd
    } else if crate::config::bytes_eq(l.as_slice(), gzip.as_slice()) {
        Compression::Gzip
    } else if crate::config::bytes_eq(l.as_slice(), none.as_slice()) || crate::config::bytes_eq(
        l.as_slice(),
        uncompressed.as_slice(),
    ) {
        Compression::Uncompressed
    } else {
        Compression::Snappy
    }
}

} // verus!
