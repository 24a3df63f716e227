use std::cmp::Ordering;
use image_interop::form::ImageForm;

#[test]
fn test_image_form_partial_ord() {
    assert!(ImageForm::WellFormed >= ImageForm::WellFormed);
    assert!(ImageForm::Packed <= ImageForm::Packed);
    assert!(ImageForm::Malformed <= ImageForm::Malformed);

    assert!(ImageForm::Packed >= ImageForm::WellFormed);
    assert!(ImageForm::SinglePixel >= ImageForm::WellFormed);

    assert!(ImageForm::Packed <= ImageForm::RowMajorPacked);
    assert!(ImageForm::RowMajor <= ImageForm::RowMajorPacked);
    assert!(ImageForm::WellFormed <= ImageForm::RowMajorPacked);

    assert!(!(ImageForm::SinglePixel < ImageForm::SinglePixel));
    assert!(!(ImageForm::Packed <= ImageForm::WellFormed));
}

#[test]
fn implies_is_reflexive_and_follows_the_documented_chain() {
    let all = [
        ImageForm::Malformed,
        ImageForm::WellFormed,
        ImageForm::RowMajor,
        ImageForm::ColumnMajor,
        ImageForm::SinglePixel,
        ImageForm::Packed,
        ImageForm::RowMajorPacked,
        ImageForm::ColumnMajorPacked,
    ];
    for f in all.iter() {
        assert!(f.implies(f));
    }
    assert!(ImageForm::RowMajorPacked.implies(&ImageForm::RowMajor));
    assert!(ImageForm::RowMajorPacked.implies(&ImageForm::Packed));
    assert!(ImageForm::RowMajorPacked.implies(&ImageForm::WellFormed));
    assert!(ImageForm::ColumnMajorPacked.implies(&ImageForm::ColumnMajor));
    assert!(!ImageForm::ColumnMajorPacked.implies(&ImageForm::RowMajor));
    assert!(!ImageForm::WellFormed.implies(&ImageForm::Packed));
    assert!(!ImageForm::Malformed.implies(&ImageForm::WellFormed));
    assert!(!ImageForm::SinglePixel.implies(&ImageForm::Packed));
}

#[test]
fn implies_is_antisymmetric_and_transitive() {
    let all = [
        ImageForm::Malformed,
        ImageForm::WellFormed,
        ImageForm::RowMajor,
        ImageForm::ColumnMajor,
        ImageForm::SinglePixel,
        ImageForm::Packed,
        ImageForm::RowMajorPacked,
        ImageForm::ColumnMajorPacked,
    ];
    for a in all.iter() {
        for b in all.iter() {
            if a.implies(b) && b.implies(a) {
                assert_eq!(a, b);
            }
            for c in all.iter() {
                if a.implies(b) && b.implies(c) {
                    assert!(a.implies(c));
                }
            }
        }
    }
}

#[test]
fn partial_cmp_reverses_when_arguments_swap() {
    assert_eq!(ImageForm::Packed.partial_cmp(&ImageForm::WellFormed), Some(Ordering::Greater));
    assert_eq!(ImageForm::WellFormed.partial_cmp(&ImageForm::Packed), Some(Ordering::Less));
    assert_eq!(ImageForm::RowMajor.partial_cmp(&ImageForm::ColumnMajor), None);
    assert_eq!(ImageForm::ColumnMajor.partial_cmp(&ImageForm::RowMajor), None);
    assert_eq!(ImageForm::SinglePixel.partial_cmp(&ImageForm::SinglePixel), Some(Ordering::Equal));
}

#[test]
fn form_tests_follow_implication() {
    assert!(ImageForm::Malformed.is_mal_formed());
    assert!(!ImageForm::WellFormed.is_mal_formed());
    assert!(!ImageForm::Malformed.is_well_formed());
    assert!(ImageForm::SinglePixel.is_well_formed());
    assert!(ImageForm::RowMajorPacked.is_row_major());
    assert!(ImageForm::RowMajorPacked.is_packed());
    assert!(ImageForm::RowMajorPacked.is_row_major_packed());
    assert!(!ImageForm::RowMajorPacked.is_column_major());
    assert!(ImageForm::ColumnMajorPacked.is_column_major());
    assert!(ImageForm::ColumnMajorPacked.is_column_major_packed());
    assert!(!ImageForm::Packed.is_row_major_packed());
    assert!(ImageForm::SinglePixel.is_single_pixel());
    assert!(!ImageForm::Packed.is_single_pixel());
}
