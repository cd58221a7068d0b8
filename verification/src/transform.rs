//! Placement transforms.
//!
//! A transform is a 4x4 single-precision matrix in column-major order, held
//! as the 16 raw 32-bit words of its entries.  The word encoding is exactly
//! the payload that is copied into a GPU uniform buffer, and it lets the
//! scene logic treat matrix entries as opaque plain values: composing two
//! transforms is delegated to the linear-algebra crate behind one trusted
//! wrapper, while everything the scene graph does around it is verified.

use vstd::prelude::*;

verus! {

/// The word encoding of the entry one (the multiplicative unit of the
/// entry arithmetic).
pub const UNIT_WORD: u32 = 0x3F80_0000;

/// The word encoding of the entry zero.
pub const ZERO_WORD: u32 = 0x0000_0000;

/// A 4x4 placement matrix: 16 entry words in column-major order.
#[derive(Clone, Copy, Debug, PartialEq, Eq)]
pub struct Transform {
    pub words: [u32; 16],
}

/// Whether `w` encodes an undefined entry (a NaN): every exponent bit
/// set and a nonzero mantissa.
pub open spec fn is_nan_word(w: u32) -> bool {
    w & 0x7F80_0000 == 0x7F80_0000 && w & 0x007F_FFFF != 0
}

/// Whether some word of `s` encodes an undefined entry.
pub open spec fn has_nan_word(s: Seq<u32>) -> bool {
    exists|i: int| 0 <= i < s.len() && is_nan_word(#[trigger] s[i])
}

/// Whether the product of two 4x4 matrices, both given as 16 entry words
/// in column-major order, has an undefined entry — an infinity times a
/// zero, or partial products that overflow and cancel.  Whether this
/// happens is a function of the operand words alone, even though the bit
/// patterns of the undefined entries themselves are not (see
/// [`Transform::compose`]).
pub uninterp spec fn product_has_nan(a: Seq<u32>, b: Seq<u32>) -> bool;

/// The words of the product of two 4x4 matrices, both given as 16 entry
/// words in column-major order.  The product is computed by the
/// linear-algebra crate (see [`Transform::compose`]); where it has no
/// undefined entry, its entry words are a function of the operand words
/// alone.  Where it has one, the undefined words' payloads differ
/// between machines, so nothing equates the result to this name there.
pub uninterp spec fn mat_product(a: Seq<u32>, b: Seq<u32>) -> Seq<u32>;

/// The words of the identity matrix.
pub open spec fn identity_words() -> Seq<u32> {
    seq![
        UNIT_WORD, ZERO_WORD, ZERO_WORD, ZERO_WORD,
        ZERO_WORD, UNIT_WORD, ZERO_WORD, ZERO_WORD,
        ZERO_WORD, ZERO_WORD, UNIT_WORD, ZERO_WORD,
        ZERO_WORD, ZERO_WORD, ZERO_WORD, UNIT_WORD,
    ]
}

/// The words of the translation matrix that moves by the vector whose
/// coordinate words are `x`, `y`, `z`: the identity with the offset in its
/// fourth column.
pub open spec fn translation_words(x: u32, y: u32, z: u32) -> Seq<u32> {
    seq![
        UNIT_WORD, ZERO_WORD, ZERO_WORD, ZERO_WORD,
        ZERO_WORD, UNIT_WORD, ZERO_WORD, ZERO_WORD,
        ZERO_WORD, ZERO_WORD, UNIT_WORD, ZERO_WORD,
        x, y, z, UNIT_WORD,
    ]
}

impl View for Transform {
    type V = Seq<u32>;

    open spec fn view(&self) -> Seq<u32> {
        self.words@
    }
}

impl Transform {
    /// Builds a transform from 16 entry words in column-major order.
    pub fn from_words(words: [u32; 16]) -> (t: Transform)
        ensures
            t@ == words@,
    {
        Transform { words }
    }

    /// The entry words, column-major.
    pub fn words(&self) -> (w: [u32; 16])
        ensures
            w@ == self@,
    {
        self.words
    }

    /// The identity transform.
    pub fn identity() -> (t: Transform)
        ensures
            t@ == identity_words(),
    {
        let t = Transform {
            words: [
                UNIT_WORD, ZERO_WORD, ZERO_WORD, ZERO_WORD,
                ZERO_WORD, UNIT_WORD, ZERO_WORD, ZERO_WORD,
                ZERO_WORD, ZERO_WORD, UNIT_WORD, ZERO_WORD,
                ZERO_WORD, ZERO_WORD, ZERO_WORD, UNIT_WORD,
            ],
        };
        proof {
            assert(t@ =~= identity_words());
        }
        t
    }

    /// The translation by the vector whose coordinate words are `x`, `y`, `z`.
    pub fn translation(x: u32, y: u32, z: u32) -> (t: Transform)
        ensures
            t@ == translation_words(x, y, z),
    {
        let t = Transform {
            words: [
                UNIT_WORD, ZERO_WORD, ZERO_WORD, ZERO_WORD,
                ZERO_WORD, UNIT_WORD, ZERO_WORD, ZERO_WORD,
                ZERO_WORD, ZERO_WORD, UNIT_WORD, ZERO_WORD,
                x, y, z, UNIT_WORD,
            ],
        };
        proof {
            assert(t@ =~= translation_words(x, y, z));
        }
        t
    }

    /// The matrix product `self * other`.
    ///
    /// Relies on nalgebra_glm's 4x4 matrix multiplication (`TMat4 * TMat4`
    /// on statically sized matrices: scalar per-column multiply-add loops
    /// in a fixed evaluation order, reached through `make_mat4` and
    /// `value_ptr` for the column-major entry slices).  Each product
    /// entry is a correctly rounded single-precision sum of products, so
    /// where no entry comes out undefined the result words are a function
    /// of the operand words alone, named by [`mat_product`]; whether any
    /// entry comes out undefined is such a function too, named by
    /// [`product_has_nan`].  The bit patterns of undefined entries are
    /// not portable between machines, so the result words are pinned only
    /// in the defined case.
    #[verifier::external_body]
    pub fn compose(&self, other: &Transform) -> (t: Transform)
        ensures
            has_nan_word(t@) == product_has_nan(self@, other@),
            !product_has_nan(self@, other@) ==> t@ == mat_product(self@, other@),
    {
        let a: nalgebra_glm::Mat4 = nalgebra_glm::make_mat4(bytemuck::cast_slice(self.words.as_slice()));
        let b: nalgebra_glm::Mat4 = nalgebra_glm::make_mat4(bytemuck::cast_slice(other.words.as_slice()));
        let product = a * b;
        let mut words: [u32; 16] = [0; 16];
        words.copy_from_slice(bytemuck::cast_slice(nalgebra_glm::value_ptr(&product)));
        Transform { words }
    }
}

} // verus!
