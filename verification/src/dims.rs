//! Label dimensions and their approximate comparison.
//!
//! Dimensions are stored in thousandths of a millimetre, so that values
//! which round-trip through independent decimal serializers on either side
//! of the wire can be compared by a relative-epsilon rule instead of exact
//! equality.

use vstd::prelude::*;

verus! {

/// The size of a label and the space reserved along its edges, each in
/// thousandths of a millimetre.
#[derive(Clone)]
pub struct LabelDimensions {
    /// Width of the label.
    pub width: u32,
    /// Height of the label.
    pub height: u32,
    /// Space reserved on the left, by printed direction.
    pub margin_left: u32,
    /// Space reserved on the right, by printed direction.
    pub margin_right: u32,
    /// Space reserved on top, by printed direction.
    pub margin_top: u32,
    /// Space reserved at the bottom, by printed direction.
    pub margin_bottom: u32,
}

/// Two lengths agree up to a relative epsilon of 2^-16 of the larger one.
pub open spec fn spec_approx_eq(a: int, b: int) -> bool {
    65536 * (if a >= b {
        a - b
    } else {
        b - a
    }) <= (if a >= b {
        a
    } else {
        b
    })
}

/// Two lengths agree when their difference is at most a relative epsilon of
/// 2^-16 of the larger one.
fn approx_eq(a: u32, b: u32) -> (r: bool)
    ensures
        r == spec_approx_eq(a as int, b as int),
{
    let (hi, lo): (u32, u32) = if a >= b {
        (a, b)
    } else {
        (b, a)
    };
    65536u64 * ((hi - lo) as u64) <= hi as u64
}

impl LabelDimensions {
    /// Field-wise approximate equality of two dimension records.
    pub open spec fn spec_approx_cmp(self, other: LabelDimensions) -> bool {
        &&& spec_approx_eq(self.width as int, other.width as int)
        &&& spec_approx_eq(self.height as int, other.height as int)
        &&& spec_approx_eq(self.margin_left as int, other.margin_left as int)
        &&& spec_approx_eq(self.margin_right as int, other.margin_right as int)
        &&& spec_approx_eq(self.margin_top as int, other.margin_top as int)
        &&& spec_approx_eq(self.margin_bottom as int, other.margin_bottom as int)
    }

    /// Compares sizes approximately, because values serialized by
    /// independent decimal encoders on either side of the wire need not
    /// match exactly; a relative epsilon of 2^-16 is far finer than any
    /// measurement here.
    pub fn approx_cmp(&self, other: &Self) -> (r: bool)
        ensures
            r == self.spec_approx_cmp(*other),
    {
        approx_eq(self.width, other.width) && approx_eq(self.height, other.height) && approx_eq(
            self.margin_left,
            other.margin_left,
        ) && approx_eq(self.margin_right, other.margin_right) && approx_eq(
            self.margin_top,
            other.margin_top,
        ) && approx_eq(self.margin_bottom, other.margin_bottom)
    }

    /// The width left for content once both horizontal margins are
    /// reserved, clamped at zero.
    pub fn content_width(&self) -> (r: u32)
        ensures
            r as int == if self.margin_left + self.margin_right <= self.width {
                self.width - self.margin_left - self.margin_right
            } else {
                0
            },
    {
        let margins: u64 = self.margin_left as u64 + self.margin_right as u64;
        if margins <= self.width as u64 {
            self.width - self.margin_left - self.margin_right
        } else {
            0
        }
    }

    /// The height left for content once both vertical margins are reserved,
    /// clamped at zero.
    pub fn content_height(&self) -> (r: u32)
        ensures
            r as int == if self.margin_top + self.margin_bottom <= self.height {
                self.height - self.margin_top - self.margin_bottom
            } else {
                0
            },
    {
        let margins: u64 = self.margin_top as u64 + self.margin_bottom as u64;
        if margins <= self.height as u64 {
            self.height - self.margin_top - self.margin_bottom
        } else {
            0
        }
    }
}

/// The approximate comparison is reflexive: every dimension record compares
/// equal to itself.
pub proof fn lemma_approx_cmp_reflexive(a: LabelDimensions)
    ensures
        a.spec_approx_cmp(a),
{
}

/// The approximate comparison detects differences: whenever any one field of
/// two records differs by more than 2^-16 of the larger value, the records
/// compare unequal.
pub proof fn lemma_approx_cmp_differs(a: LabelDimensions, b: LabelDimensions)
    requires
        !spec_approx_eq(a.width as int, b.width as int) || !spec_approx_eq(
            a.height as int,
            b.height as int,
        ) || !spec_approx_eq(a.margin_left as int, b.margin_left as int) || !spec_approx_eq(
            a.margin_right as int,
            b.margin_right as int,
        ) || !spec_approx_eq(a.margin_top as int, b.margin_top as int) || !spec_approx_eq(
            a.margin_bottom as int,
            b.margin_bottom as int,
        ),
    ensures
        !a.spec_approx_cmp(b),
{
}

} // verus!
