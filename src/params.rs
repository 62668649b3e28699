//! Trusted-setup parameter files: where they live, and whether one is the
//! official output of the setup ceremony.
//!
//! A parameter file starts with the degree as a 4-byte little-endian integer,
//! followed by the raw encoding of the curve's generator and that of the
//! ceremony's secondary generator. A raw point is its two coordinates, each
//! 32 bytes: the field element's Montgomery limbs, least significant first.
use vstd::prelude::*;
use halo2curves::bn256::{Fq, G1Affine};
use halo2curves::serde::SerdeObject;
use crate::text::{decimal, push_decimal, push_text};

verus! {

/// The raw 32-byte encoding of the base-field element whose canonical value
/// has the given four 64-bit limbs, least significant first.
pub uninterp spec fn fq_raw_encoding(canonical: Seq<u64>) -> Seq<u8>;

/// Length of the degree header.
pub const HEADER_LEN: usize = 4;
/// Length of one raw coordinate.
pub const COORD_LEN: usize = 32;
/// Length of the header and both raw points.
pub const OFFICIAL_PREFIX_LEN: usize = 132;

/// Canonical x coordinate of the ceremony's secondary generator.
pub open spec fn secondary_x() -> Seq<u64> {
    seq![0xac15e801f2b91e69u64, 0xbb3d11e31115dafbu64, 0x7f8fcae1abf6d2e4u64, 0x269350b5ecd44c00u64]
}

/// Canonical y coordinate of the ceremony's secondary generator.
pub open spec fn secondary_y() -> Seq<u64> {
    seq![0xe2d29ad22f98b08cu64, 0xbfbb0d65b2ebe926u64, 0xe686071693e4fa85u64, 0x094818a234be895au64]
}

/// Whether the file holds the curve's generator as its first point.
pub open spec fn generator_in_place(data: Seq<u8>) -> bool {
    data.len() >= 68 && data.subrange(4, 36) == fq_raw_encoding(seq![1u64, 0u64, 0u64, 0u64])
        && data.subrange(36, 68) == fq_raw_encoding(seq![2u64, 0u64, 0u64, 0u64])
}

/// Whether the file holds the ceremony's secondary generator as its second point.
pub open spec fn secondary_in_place(data: Seq<u8>) -> bool {
    data.len() >= 132 && data.subrange(68, 100) == fq_raw_encoding(secondary_x())
        && data.subrange(100, 132) == fq_raw_encoding(secondary_y())
}

/// A parameter file is official when both points are the canonical ones.
pub open spec fn params_official(data: Seq<u8>) -> bool {
    generator_in_place(data) && secondary_in_place(data)
}

/// The degree that a 4-byte little-endian header states.
pub open spec fn le_u32(b0: u8, b1: u8, b2: u8, b3: u8) -> nat {
    b0 as nat + 256 * (b1 as nat) + 65536 * (b2 as nat) + 16777216 * (b3 as nat)
}

/// The degree that the file's header states, if it has one.
pub open spec fn header_degree(data: Seq<u8>) -> Option<nat> {
    if data.len() >= 4 {
        Some(le_u32(data[0], data[1], data[2], data[3]))
    } else {
        None
    }
}

/// The file name of the parameters of one degree inside a parameter directory.
pub open spec fn params_path_text(params_dir: Seq<char>, degree: nat) -> Seq<char> {
    params_dir + "/params"@ + decimal(degree)
}

/// Relies on halo2curves: `Fq::from_raw_bytes_unchecked` reads four
/// little-endian limbs as they stand, `Fq::from_raw` gives the element of the
/// canonical limbs, and `Fq`'s derived `==` compares limbs.
#[verifier::external_body]
fn fq_raw_matches(data: &[u8], at: usize, canonical: [u64; 4]) -> (r: bool)
    requires
        at + 32 <= data@.len(),
    ensures
        r == (data@.subrange(at as int, at + 32) == fq_raw_encoding(canonical@)),
{
    Fq::from_raw_bytes_unchecked(&data[at..at + 32]) == Fq::from_raw(canonical)
}

/// Relies on halo2curves: `G1Affine::from_raw_bytes_unchecked` reads x then y
/// as raw coordinates, `G1Affine::generator()` is `(Fq::ONE, Fq::from_raw([2, 0, 0, 0]))`,
/// and `G1Affine`'s derived `==` compares both coordinates.
#[verifier::external_body]
fn g1_generator_matches(data: &[u8], at: usize) -> (r: bool)
    requires
        at + 64 <= data@.len(),
    ensures
        r == (data@.subrange(at as int, at + 32) == fq_raw_encoding(seq![1u64, 0u64, 0u64, 0u64])
            && data@.subrange(at + 32, at + 64) == fq_raw_encoding(
            seq![2u64, 0u64, 0u64, 0u64],
        )),
{
    G1Affine::from_raw_bytes_unchecked(&data[at..at + 64]) == G1Affine::generator()
}

/// Where the parameters of `degree` are kept: `<params_dir>/params<degree>`.
pub fn kzg_params_path(params_dir: &str, degree: u32) -> (r: String)
    ensures
        r@ == params_path_text(params_dir@, degree as nat),
{
    let mut s = String::new();
    push_text(&mut s, params_dir);
    push_text(&mut s, "/params");
    push_decimal(&mut s, degree as u64);
    s
}

/// The degree that a parameter file's header states; `None` when the file is
/// shorter than the header.
pub fn params_header_degree(data: &[u8]) -> (r: Option<u32>)
    ensures
        r matches Some(k) ==> header_degree(data@) == Some(k as nat),
        r is None <==> header_degree(data@) is None,
{
    if data.len() < HEADER_LEN {
        return None;
    }
    let k = data[0] as u32 + 256 * (data[1] as u32) + 65536 * (data[2] as u32) + 16777216 * (
    data[3] as u32);
    Some(k)
}

/// The outcome of checking a parameter file against the expected degree and
/// the canonical points.
#[derive(Debug, Clone, Copy, PartialEq, Eq)]
pub struct ParamsCheck {
    /// The header states the expected degree. A mismatch is only worth a warning.
    pub degree_matches: bool,
    /// Both points are canonical. Parameters that fail this must not be used.
    pub official: bool,
}

/// Checks a parameter file's content: whether its header states `degree`, and
/// whether it carries the curve's generator and the ceremony's secondary
/// generator.
pub fn check_kzg_params_official(data: &[u8], degree: usize) -> (r: ParamsCheck)
    ensures
        r.degree_matches == (header_degree(data@) == Some(degree as nat)),
        r.official == params_official(data@),
{
    let degree_matches = match params_header_degree(data) {
        Some(k) => k as usize == degree,
        None => false,
    };
    if data.len() < OFFICIAL_PREFIX_LEN {
        return ParamsCheck { degree_matches, official: false };
    }
    if !g1_generator_matches(data, HEADER_LEN) {
        return ParamsCheck { degree_matches, official: false };
    }
    let sg_x: [u64; 4] = [
        0xac15e801f2b91e69,
        0xbb3d11e31115dafb,
        0x7f8fcae1abf6d2e4,
        0x269350b5ecd44c00,
    ];
    let sg_y: [u64; 4] = [
        0xe2d29ad22f98b08c,
        0xbfbb0d65b2ebe926,
        0xe686071693e4fa85,
        0x094818a234be895a,
    ];
    assert(sg_x@ =~= secondary_x());
    assert(sg_y@ =~= secondary_y());
    let official = fq_raw_matches(data, HEADER_LEN + 64, sg_x) && fq_raw_matches(
        data,
        HEADER_LEN + 64 + COORD_LEN,
        sg_y,
    );
    ParamsCheck { degree_matches, official }
}

/// A parameter file whose secondary generator has any byte changed is not
/// official, whatever its degree header says; changing the header alone never
/// changes whether a file is official.
pub proof fn lemma_tampered_secondary_rejected(data: Seq<u8>, i: int, b: u8)
    requires
        params_official(data),
        68 <= i < 132,
        b != data[i],
    ensures
        !params_official(data.update(i, b)),
        forall|j: int, h: u8| 0 <= j < 4 ==> params_official(data.update(i, b).update(j, h)) == false,
{
    let t = data.update(i, b);
    if i < 100 {
        assert(t.subrange(68, 100)[i - 68] != data.subrange(68, 100)[i - 68]);
    } else {
        assert(t.subrange(100, 132)[i - 100] != data.subrange(100, 132)[i - 100]);
    }
    assert forall|j: int, h: u8| 0 <= j < 4 implies params_official(t.update(j, h)) == false by {
        let u = t.update(j, h);
        assert(u.subrange(68, 132) =~= t.subrange(68, 132));
        assert(u.subrange(68, 100) =~= t.subrange(68, 100));
        assert(u.subrange(100, 132) =~= t.subrange(100, 132));
    }
}

/// Whether a file is official does not depend on its degree header.
pub proof fn lemma_header_irrelevant(data: Seq<u8>, j: int, h: u8)
    requires
        0 <= j < 4,
        j < data.len(),
    ensures
        params_official(data.update(j, h)) == params_official(data),
{
    let u = data.update(j, h);
    if data.len() >= 132 {
        assert(u.subrange(4, 36) =~= data.subrange(4, 36));
        assert(u.subrange(36, 68) =~= data.subrange(36, 68));
        assert(u.subrange(68, 100) =~= data.subrange(68, 100));
        assert(u.subrange(100, 132) =~= data.subrange(100, 132));
    }
}

} // verus!
