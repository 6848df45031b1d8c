//! Choice of the presentation format among those a surface supports.

use vstd::prelude::*;

verus! {

/// `wgpu::TextureFormat`, a value that the crate carries and never looks
/// into.
#[verifier::external_type_specification]
#[verifier::external_body]
pub struct ExTextureFormat(wgpu::TextureFormat);

/// Whether a texture format is a gamma-corrected (sRGB) format, as
/// `wgpu::TextureFormat::is_srgb` reports it.
pub uninterp spec fn is_srgb(format: wgpu::TextureFormat) -> bool;

/// Calls `wgpu::TextureFormat::is_srgb`, which compares the format with its
/// linear counterpart. The answer depends on the format alone; the contract
/// gives it the name `is_srgb` and claims nothing else.
#[verifier::external_body]
fn format_is_srgb(format: &wgpu::TextureFormat) -> (srgb: bool)
    ensures
        srgb == is_srgb(*format),
{
    format.is_srgb()
}

/// For each listed format, whether it is an sRGB format.
pub open spec fn srgb_flags(formats: Seq<wgpu::TextureFormat>) -> Seq<bool> {
    Seq::new(formats.len(), |i: int| is_srgb(formats[i]))
}

/// `index` is the preferred position in a list of sRGB flags: the first
/// position flagged, or the first position of all when none is flagged.
pub open spec fn is_preferred(flags: Seq<bool>, index: int) -> bool {
    &&& 0 <= index < flags.len()
    &&& forall|j: int| 0 <= j < index ==> !flags[j]
    &&& flags[index] || (index == 0 && forall|j: int| 0 <= j < flags.len() ==> !flags[j])
}

/// A list of flags has at most one preferred position.
pub proof fn preferred_is_unique(flags: Seq<bool>, a: int, b: int)
    requires
        is_preferred(flags, a),
        is_preferred(flags, b),
    ensures
        a == b,
{
    if a < b {
        assert(!flags[a]);
    } else if b < a {
        assert(!flags[b]);
    }
}

/// The preferred position in a non-empty list of sRGB flags.
pub fn preferred_index(flags: &Vec<bool>) -> (index: usize)
    requires
        flags@.len() > 0,
    ensures
        is_preferred(flags@, index as int),
{
    let mut i: usize = 0;
    while i < flags.len()
        invariant
            i <= flags@.len(),
            forall|j: int| 0 <= j < i ==> !flags@[j],
        decreases flags@.len() - i,
    {
        if flags[i] {
            return i;
        }
        i += 1;
    }
    0
}

/// Picks the presentation format: the first listed sRGB format, or the
/// first listed format when none is sRGB.
pub fn choose_surface_format(formats: &Vec<wgpu::TextureFormat>) -> (format: wgpu::TextureFormat)
    requires
        formats@.len() > 0,
    ensures
        exists|i: int| is_preferred(srgb_flags(formats@), i) && format == formats@[i],
{
    let mut flags: Vec<bool> = Vec::new();
    let mut i: usize = 0;
    while i < formats.len()
        invariant
            i <= formats@.len(),
            flags@.len() == i,
            forall|k: int| 0 <= k < i ==> flags@[k] == is_srgb(formats@[k]),
        decreases formats@.len() - i,
    {
        flags.push(format_is_srgb(&formats[i]));
        i += 1;
    }
    assert(flags@ =~= srgb_flags(formats@));
    let index = preferred_index(&flags);
    formats[index]
}

} // verus!
