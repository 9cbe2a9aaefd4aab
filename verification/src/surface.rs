//! Surface configuration: format selection and the size the presentable
//! surface is configured with.

use vstd::prelude::*;

verus! {

/// Code the shell assigns to the fixed present mode (automatic
/// vsync-locked presentation).
pub const PRESENT_MODE_AUTO_VSYNC: u32 = 0;

/// A presentable-surface pixel format as the library models it: an opaque
/// code assigned by the shell, plus whether the format is sRGB-capable.
#[derive(Clone, Copy, Debug, PartialEq, Eq)]
pub struct SurfaceFormat {
    pub code: u32,
    pub srgb: bool,
}

/// The position of the first sRGB-capable entry, or the list's length
/// when none is.
pub open spec fn first_srgb_index(formats: Seq<SurfaceFormat>) -> int
    decreases formats.len(),
{
    if formats.len() == 0 {
        0
    } else if formats[0].srgb {
        0
    } else {
        1 + first_srgb_index(formats.skip(1))
    }
}

/// The format index startup selects: the first sRGB-capable entry when
/// one exists, else 0 — prefer an sRGB-capable format, else the first
/// available.
pub open spec fn selected_format_index(formats: Seq<SurfaceFormat>) -> int {
    if first_srgb_index(formats) < formats.len() {
        first_srgb_index(formats)
    } else {
        0
    }
}

proof fn lemma_first_srgb_index_found(formats: Seq<SurfaceFormat>, i: int)
    requires
        0 <= i < formats.len(),
        formats[i].srgb,
        forall|j: int| 0 <= j < i ==> !(#[trigger] formats[j]).srgb,
    ensures
        first_srgb_index(formats) == i,
    decreases formats.len(),
{
    if i == 0 {
    } else {
        assert(!formats[0].srgb);
        assert(formats.skip(1)[i - 1] == formats[i]);
        assert forall|j: int| 0 <= j < i - 1 implies !(#[trigger] formats.skip(1)[j]).srgb by {
            assert(formats.skip(1)[j] == formats[j + 1]);
        }
        lemma_first_srgb_index_found(formats.skip(1), i - 1);
    }
}

proof fn lemma_first_srgb_index_none(formats: Seq<SurfaceFormat>)
    requires
        forall|j: int| 0 <= j < formats.len() ==> !(#[trigger] formats[j]).srgb,
    ensures
        first_srgb_index(formats) == formats.len(),
    decreases formats.len(),
{
    if formats.len() == 0 {
    } else {
        assert forall|j: int| 0 <= j < formats.skip(1).len() implies !(#[trigger] formats.skip(
            1,
        )[j]).srgb by {
            assert(formats.skip(1)[j] == formats[j + 1]);
        }
        lemma_first_srgb_index_none(formats.skip(1));
    }
}

/// Pick the index of the surface format to use from the capability list:
/// the first sRGB-capable entry, or index 0 when none is sRGB-capable.
pub fn select_surface_format(formats: &Vec<SurfaceFormat>) -> (r: usize)
    requires
        formats@.len() > 0,
    ensures
        r < formats@.len(),
        r as int == selected_format_index(formats@),
        forall|j: int| 0 <= j < r ==> !(#[trigger] formats@[j]).srgb,
        (exists|j: int| 0 <= j < formats@.len() && (#[trigger] formats@[j]).srgb)
            ==> formats@[r as int].srgb,
        !(exists|j: int| 0 <= j < formats@.len() && (#[trigger] formats@[j]).srgb) ==> r == 0,
{
    let mut i: usize = 0;
    while i < formats.len()
        invariant
            i <= formats@.len(),
            forall|j: int| 0 <= j < i ==> !(#[trigger] formats@[j]).srgb,
        decreases formats@.len() - i,
    {
        if formats[i].srgb {
            proof {
                lemma_first_srgb_index_found(formats@, i as int);
            }
            return i;
        }
        i = i + 1;
    }
    proof {
        lemma_first_srgb_index_none(formats@);
    }
    0
}

/// The presentable surface's configuration. Owned by the session; the
/// shell mirrors every change of it into the platform surface.
#[derive(Clone, Copy, Debug, PartialEq, Eq)]
pub struct SurfaceConfig {
    pub format: SurfaceFormat,
    pub width: u32,
    pub height: u32,
    pub present_mode: u32,
    pub alpha_mode: u32,
}

impl SurfaceConfig {
    /// A configuration is well formed when its extent is non-zero: GPU
    /// surfaces reject zero-extent configurations.
    pub open spec fn wf(self) -> bool {
        self.width > 0 && self.height > 0
    }

    /// Apply a size change. A request with a zero width or height is
    /// intentionally ignored, not an error; a non-zero request changes
    /// only the size.
    pub fn resize(&mut self, width: u32, height: u32) -> (changed: bool)
        requires
            old(self).wf(),
        ensures
            final(self).wf(),
            changed == (width != 0 && height != 0),
            !changed ==> *final(self) == *old(self),
            changed ==> *final(self) == (SurfaceConfig { width, height, ..*old(self) }),
    {
        if width == 0 || height == 0 {
            return false;
        }
        self.width = width;
        self.height = height;
        true
    }
}

} // verus!
