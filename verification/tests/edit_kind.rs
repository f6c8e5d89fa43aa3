use librarian::edit_kind::{EditOperation, EditStatus, EditType, MetadataSearchType, ModifyValuesBy};

#[test]
fn names() {
    assert_eq!(EditOperation::Create.get_name(), "Create");
    assert_eq!(EditOperation::Merge.get_name(), "Merge");
    assert_eq!(EditStatus::ForceAccepted.get_name(), "Force Accepted");
    assert_eq!(EditStatus::ForceRejected.get_name(), "Force Rejected");
    assert_eq!(EditStatus::Cancelled.get_name(), "Cancelled");
    assert_eq!(EditType::Collection.get_name(), "Collection");
    assert_eq!(EditType::Tag.get_name(), "Tag");
}

#[test]
fn status_classes_partition() {
    let all = [
        EditStatus::Accepted,
        EditStatus::Pending,
        EditStatus::Rejected,
        EditStatus::Failed,
        EditStatus::Cancelled,
        EditStatus::ForceAccepted,
        EditStatus::ForceRejected,
    ];
    for s in all {
        let n = [s.is_accepted(), s.is_rejected(), s.is_pending()].iter().filter(|b| **b).count();
        assert_eq!(n, 1);
    }
    assert!(EditStatus::ForceAccepted.is_accepted());
    assert!(EditStatus::Failed.is_rejected());
    assert!(EditStatus::Pending.is_pending());
}

#[test]
fn codes_round_trip() {
    for v in 0u8..=255 {
        if let Some(op) = EditOperation::try_from_u8(v) {
            assert_eq!(op.into_u8(), v);
        } else {
            assert!(v > 3);
        }
        if let Some(s) = EditStatus::try_from_u8(v) {
            assert_eq!(s.into_u8(), v);
        } else {
            assert!(v > 6);
        }
        if let Some(t) = EditType::try_from_u8(v) {
            assert_eq!(t.into_u8(), v);
        } else {
            assert!(v > 3);
        }
    }
    assert_eq!(EditStatus::try_from_u8(5), Some(EditStatus::ForceAccepted));
    assert_eq!(EditOperation::try_from_u8(4), None);
}

#[test]
fn defaulting_codes() {
    assert_eq!(ModifyValuesBy::from_u8(1), ModifyValuesBy::Append);
    assert_eq!(ModifyValuesBy::from_u8(2), ModifyValuesBy::Remove);
    assert_eq!(ModifyValuesBy::from_u8(9), ModifyValuesBy::Overwrite);
    assert_eq!(ModifyValuesBy::default(), ModifyValuesBy::Overwrite);
    assert_eq!(ModifyValuesBy::Remove.into_u8(), 2);
    assert_eq!(MetadataSearchType::from_u8(1), MetadataSearchType::Person);
    assert_eq!(MetadataSearchType::from_u8(0), MetadataSearchType::Book);
    assert_eq!(MetadataSearchType::from_u8(77), MetadataSearchType::Book);
    assert_eq!(MetadataSearchType::Person.into_u8(), 1);
}
