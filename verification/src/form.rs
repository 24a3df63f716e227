use std::cmp::Ordering;

use vstd::prelude::*;

verus! {

/// The shape of an image's storage, ordered by how much is known of it.
#[derive(Copy, Clone, Debug, PartialEq, Eq, Structural)]
pub enum ImageForm {
    /// The image has width == 0 and/or height == 0 or has aliased pixels.
    Malformed,
    /// The image has width > 0 and height > 0 and doesn't have aliased pixel.
    /// In other words, for a given pixel in the buffer, there is at most one coordinate pair that maps to the pixel.
    WellFormed,
    /// The image is in row-major form; i.e. rows are interated over first and pixels second.
    /// Implies [`ImageForm::WellFormed`].
    RowMajor,
    /// The image is in column-major form; i.e. columns are interated over first and pixels second.
    /// Implies [`ImageForm::WellFormed`].
    ColumnMajor,
    /// The image has width = 1 and height = 1.
    /// Implies [`ImageForm::WellFormed`].
    SinglePixel,
    /// The image's buffer is fully packed and utilized by the bounds of the image.
    /// Implies [`ImageForm::WellFormed`].
    Packed,
    /// The image is in row-major form and packed.
    /// Implies [`ImageForm::RowMajor`] and [`ImageForm::Packed`].
    RowMajorPacked,
    /// The image is in column-major form and packed.
    /// Implies [`ImageForm::ColumnMajor`] and [`ImageForm::Packed`].
    ColumnMajorPacked,
}

/// `a` implies `b`: every image of form `a` is also of form `b`.
pub open spec fn form_implies(a: ImageForm, b: ImageForm) -> bool {
    a == b || match a {
        ImageForm::RowMajor | ImageForm::ColumnMajor | ImageForm::SinglePixel | ImageForm::Packed => b
            == ImageForm::WellFormed,
        ImageForm::RowMajorPacked => b == ImageForm::Packed || b == ImageForm::RowMajor || b
            == ImageForm::WellFormed,
        ImageForm::ColumnMajorPacked => b == ImageForm::Packed || b == ImageForm::ColumnMajor || b
            == ImageForm::WellFormed,
        _ => false,
    }
}

/// The comparison of two forms: equal, stronger (it implies the other), weaker, or incomparable.
pub open spec fn form_order(a: ImageForm, b: ImageForm) -> Option<Ordering> {
    if a == b {
        Some(Ordering::Equal)
    } else if form_implies(a, b) {
        Some(Ordering::Greater)
    } else if form_implies(b, a) {
        Some(Ordering::Less)
    } else {
        None
    }
}

/// How many implication steps lead from a form down to [`ImageForm::WellFormed`].
pub open spec fn form_rank(form: ImageForm) -> nat {
    match form {
        ImageForm::Malformed => 0,
        ImageForm::WellFormed => 1,
        ImageForm::RowMajor | ImageForm::ColumnMajor | ImageForm::SinglePixel | ImageForm::Packed => 2,
        _ => 3,
    }
}

impl ImageForm {
    /// Returns whether every image of form `self` is also of form `other`.
    pub fn implies(&self, other: &Self) -> (implied: bool)
        ensures
            implied == form_implies(*self, *other),
        decreases form_rank(*self),
    {
        match self {
            _ if *self == *other => true,
            Self::RowMajor => Self::WellFormed.implies(other),
            Self::ColumnMajor => Self::WellFormed.implies(other),
            Self::SinglePixel => Self::WellFormed.implies(other),
            Self::Packed => Self::WellFormed.implies(other),
            Self::RowMajorPacked => Self::Packed.implies(other) || Self::RowMajor.implies(other),
            Self::ColumnMajorPacked => Self::Packed.implies(other) || Self::ColumnMajor.implies(other),
            _ => false,
        }
    }

    /// Returns whether the form is [`ImageForm::Malformed`].
    pub fn is_mal_formed(&self) -> (malformed: bool)
        ensures
            malformed == (*self == ImageForm::Malformed),
    {
        self <= &Self::Malformed
    }

    /// Returns whether the form implies [`ImageForm::WellFormed`].
    pub fn is_well_formed(&self) -> (well_formed: bool)
        ensures
            well_formed == form_implies(*self, ImageForm::WellFormed),
    {
        self >= &Self::WellFormed
    }

    /// Returns whether the form implies [`ImageForm::RowMajor`].
    pub fn is_row_major(&self) -> (row_major: bool)
        ensures
            row_major == form_implies(*self, ImageForm::RowMajor),
    {
        self >= &Self::RowMajor
    }

    /// Returns whether the form implies [`ImageForm::ColumnMajor`].
    pub fn is_column_major(&self) -> (column_major: bool)
        ensures
            column_major == form_implies(*self, ImageForm::ColumnMajor),
    {
        self >= &Self::ColumnMajor
    }

    /// Returns whether the form implies [`ImageForm::SinglePixel`].
    pub fn is_single_pixel(&self) -> (single_pixel: bool)
        ensures
            single_pixel == form_implies(*self, ImageForm::SinglePixel),
    {
        self >= &Self::SinglePixel
    }

    /// Returns whether the form implies [`ImageForm::Packed`].
    pub fn is_packed(&self) -> (packed: bool)
        ensures
            packed == form_implies(*self, ImageForm::Packed),
    {
        self >= &Self::Packed
    }

    /// Returns whether the form implies [`ImageForm::RowMajorPacked`].
    pub fn is_row_major_packed(&self) -> (row_major_packed: bool)
        ensures
            row_major_packed == form_implies(*self, ImageForm::RowMajorPacked),
    {
        self >= &Self::RowMajorPacked
    }

    /// Returns whether the form implies [`ImageForm::ColumnMajorPacked`].
    pub fn is_column_major_packed(&self) -> (column_major_packed: bool)
        ensures
            column_major_packed == form_implies(*self, ImageForm::ColumnMajorPacked),
    {
        self >= &Self::ColumnMajorPacked
    }
}

impl PartialOrd for ImageForm {
    fn partial_cmp(&self, other: &Self) -> (order: Option<Ordering>) {
        match (*self, *other) {
            (x, y) if x == y => Some(Ordering::Equal),
            (x, y) if x.implies(&y) => Some(Ordering::Greater),
            (x, y) if y.implies(&x) => Some(Ordering::Less),
            _ => None,
        }
    }
}

impl vstd::std_specs::cmp::PartialOrdSpecImpl for ImageForm {
    open spec fn obeys_partial_cmp_spec() -> bool {
        true
    }

    open spec fn partial_cmp_spec(&self, other: &Self) -> Option<Ordering> {
        form_order(*self, *other)
    }
}

/// Implication between forms is a partial order: reflexive, antisymmetric and transitive.
pub proof fn lemma_implies_partial_order(a: ImageForm, b: ImageForm, c: ImageForm)
    ensures
        form_implies(a, a),
        form_implies(a, b) && form_implies(b, a) ==> a == b,
        form_implies(a, b) && form_implies(b, c) ==> form_implies(a, c),
{
}

/// Comparing two forms one way gives the reverse of comparing them the other way, and forms compare equal exactly when they are the same.
pub proof fn lemma_order_antisymmetric(a: ImageForm, b: ImageForm)
    ensures
        form_order(a, b) == Some(Ordering::Equal) <==> a == b,
        form_order(a, b) == Some(Ordering::Greater) <==> form_order(b, a) == Some(Ordering::Less),
        form_order(a, b) is None <==> form_order(b, a) is None,
{
}

/// Every form that the documentation says implies another does so, and the stronger tests imply the weaker ones.
pub proof fn lemma_documented_implications(f: ImageForm)
    ensures
        form_implies(ImageForm::RowMajor, ImageForm::WellFormed),
        form_implies(ImageForm::ColumnMajor, ImageForm::WellFormed),
        form_implies(ImageForm::SinglePixel, ImageForm::WellFormed),
        form_implies(ImageForm::Packed, ImageForm::WellFormed),
        form_implies(ImageForm::RowMajorPacked, ImageForm::RowMajor),
        form_implies(ImageForm::RowMajorPacked, ImageForm::Packed),
        form_implies(ImageForm::ColumnMajorPacked, ImageForm::ColumnMajor),
        form_implies(ImageForm::ColumnMajorPacked, ImageForm::Packed),
        form_implies(f, ImageForm::RowMajor) ==> form_implies(f, ImageForm::WellFormed),
        form_implies(f, ImageForm::ColumnMajor) ==> form_implies(f, ImageForm::WellFormed),
        form_implies(f, ImageForm::SinglePixel) ==> form_implies(f, ImageForm::WellFormed),
        form_implies(f, ImageForm::Packed) ==> form_implies(f, ImageForm::WellFormed),
        form_implies(f, ImageForm::RowMajorPacked) ==> form_implies(f, ImageForm::RowMajor)
            && form_implies(f, ImageForm::Packed),
        form_implies(f, ImageForm::ColumnMajorPacked) ==> form_implies(f, ImageForm::ColumnMajor)
            && form_implies(f, ImageForm::Packed),
        form_implies(f, ImageForm::WellFormed) <==> f != ImageForm::Malformed,
{
}

/// Nothing implies a form but the forms the documentation says are stronger: a form is implied
/// only by itself and by the forms documented (directly or through another form) to imply it.
pub proof fn lemma_only_documented_implications(a: ImageForm)
    ensures
        form_implies(a, ImageForm::Malformed) <==> a == ImageForm::Malformed,
        form_implies(a, ImageForm::SinglePixel) <==> a == ImageForm::SinglePixel,
        form_implies(a, ImageForm::RowMajor) <==> a == ImageForm::RowMajor || a
            == ImageForm::RowMajorPacked,
        form_implies(a, ImageForm::ColumnMajor) <==> a == ImageForm::ColumnMajor || a
            == ImageForm::ColumnMajorPacked,
        form_implies(a, ImageForm::Packed) <==> a == ImageForm::Packed || a
            == ImageForm::RowMajorPacked || a == ImageForm::ColumnMajorPacked,
        form_implies(a, ImageForm::RowMajorPacked) <==> a == ImageForm::RowMajorPacked,
        form_implies(a, ImageForm::ColumnMajorPacked) <==> a == ImageForm::ColumnMajorPacked,
        form_implies(a, ImageForm::WellFormed) <==> a != ImageForm::Malformed,
{
}

} // verus!
