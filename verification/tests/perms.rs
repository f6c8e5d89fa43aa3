use librarian::perms::{GroupPermissions, Permissions, SpecificPermissions};

#[test]
fn presets_hold_expected_bits() {
    assert_eq!(SpecificPermissions::as_basic().bits, 0b0000_0111);
    assert_eq!(SpecificPermissions::as_editor().bits, 0b0011_1111);
    assert_eq!(SpecificPermissions::as_manager().bits, 0b1111_1111);
    assert_eq!(Permissions::basic().group.bits, 4);
    assert_eq!(Permissions::manager().group.bits, 2);
    assert_eq!(Permissions::empty().group.bits, 0);
    assert_eq!(Permissions::empty().specific.bits, 0);
}

#[test]
fn presets_are_nested() {
    let basic = SpecificPermissions::as_basic();
    let editor = SpecificPermissions::as_editor();
    let manager = SpecificPermissions::as_manager();
    assert!(editor.contains(basic));
    assert!(manager.contains(editor));
    assert!(!basic.contains(editor));
}

#[test]
fn contains_and_intersects() {
    let p = Permissions::editor();
    assert!(p.contains_specific(SpecificPermissions::edit()));
    assert!(!p.contains_specific(SpecificPermissions::force_vote()));
    assert!(p.intersects_specific(SpecificPermissions::force_vote().union(SpecificPermissions::viewing())));
    assert!(!p.intersects_group(GroupPermissions::admin()));
    assert!(p.contains_group(GroupPermissions::basic()));
    assert!(p.contains_any(GroupPermissions::admin(), SpecificPermissions::create()));
    assert!(!p.contains_any(GroupPermissions::admin(), SpecificPermissions::manage_members()));
    assert!(p.intersects_any(GroupPermissions::admin(), SpecificPermissions::delete()));
    assert!(!p.intersects_any(GroupPermissions::manager(), SpecificPermissions::force_vote()));
    assert!(GroupPermissions::empty().is_empty());
    assert!(!SpecificPermissions::comment().is_empty());
}

#[test]
fn rights_of_presets() {
    let empty = Permissions::empty();
    assert!(!empty.has_creation_perms());
    assert!(!empty.has_deletion_perms());
    assert!(!empty.has_editing_perms());
    assert!(!empty.has_voting_perms());
    assert!(!empty.is_admin());

    let basic = Permissions::basic();
    assert!(basic.has_voting_perms());
    assert!(!basic.has_editing_perms());
    assert!(!basic.has_creation_perms());
    assert!(!basic.has_deletion_perms());

    let editor = Permissions::editor();
    assert!(editor.has_editing_perms());
    assert!(editor.has_creation_perms());
    assert!(editor.has_deletion_perms());

    let manager = Permissions::manager();
    assert!(manager.has_creation_perms() && manager.has_deletion_perms());
    assert!(manager.has_editing_perms() && manager.has_voting_perms());
    assert!(!manager.is_admin());
}

#[test]
fn staff_hold_every_right_without_specific_flags() {
    let admin = Permissions { group: GroupPermissions::admin(), specific: SpecificPermissions::empty() };
    assert!(admin.is_admin());
    assert!(admin.has_creation_perms());
    assert!(admin.has_deletion_perms());
    assert!(admin.has_editing_perms());
    assert!(admin.has_voting_perms());
}

#[test]
fn perm_string_form() {
    assert_eq!(Permissions::manager().to_perm_string(), "2-255");
    assert_eq!(Permissions::empty().to_perm_string(), "0-0");
    let p = Permissions {
        group: GroupPermissions { bits: u64::MAX },
        specific: SpecificPermissions { bits: 12345 },
    };
    assert_eq!(p.to_perm_string(), "18446744073709551615-12345");
}

#[test]
fn perm_string_round_trip() {
    for p in [
        Permissions::empty(),
        Permissions::basic(),
        Permissions::editor(),
        Permissions::manager(),
        Permissions { group: GroupPermissions { bits: u64::MAX }, specific: SpecificPermissions { bits: 7 } },
    ] {
        assert_eq!(Permissions::from_perm_string(&p.to_perm_string()), Some(p));
    }
}

#[test]
fn perm_string_rejected() {
    assert_eq!(Permissions::from_perm_string("4"), None);
    assert_eq!(Permissions::from_perm_string("4-"), None);
    assert_eq!(Permissions::from_perm_string("-7"), None);
    assert_eq!(Permissions::from_perm_string("4-7-1"), None);
    assert_eq!(Permissions::from_perm_string("x-7"), None);
    assert_eq!(Permissions::from_perm_string("18446744073709551616-0"), None);
    assert_eq!(
        Permissions::from_perm_string("+4-7"),
        Some(Permissions { group: GroupPermissions { bits: 4 }, specific: SpecificPermissions { bits: 7 } })
    );
}
