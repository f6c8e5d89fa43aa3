use vstd::prelude::*;
use crate::text::{
    chars_of, decimal, decimal_string, index_of, lemma_decimal, lemma_index_of_concat,
    lemma_parse_decimal, parse_unsigned, parse_unsigned_chars, push_char, push_decimal,
    split_once, split_once_chars,
};

verus! {

/// Permissions a member has through its group: a set of bit flags
/// (admin = bit 0, manager = bit 1, basic = bit 2).
#[derive(Debug, Clone, Copy, PartialEq, Eq, Structural, Hash, PartialOrd, Ord)]
pub struct GroupPermissions {
    pub bits: u64,
}

/// Permissions granted one by one: a set of bit flags (view = bit 0,
/// voting = bit 1, comment = bit 2, edit = bit 3, delete = bit 4,
/// create = bit 5, force vote = bit 6, manage members = bit 7).
#[derive(Debug, Clone, Copy, PartialEq, Eq, Structural, Hash, PartialOrd, Ord)]
pub struct SpecificPermissions {
    pub bits: u64,
}

/// Every flag of `b` is set in `a`.
pub open spec fn bits_contain(a: u64, b: u64) -> bool {
    a & b == b
}

/// `a` and `b` have a flag in common.
pub open spec fn bits_intersect(a: u64, b: u64) -> bool {
    a & b != 0
}

pub open spec fn group_admin_bits() -> u64 {
    1
}

pub open spec fn group_manager_bits() -> u64 {
    2
}

pub open spec fn group_basic_bits() -> u64 {
    4
}

pub open spec fn specific_view_bits() -> u64 {
    1
}

pub open spec fn specific_voting_bits() -> u64 {
    2
}

pub open spec fn specific_comment_bits() -> u64 {
    4
}

pub open spec fn specific_edit_bits() -> u64 {
    8
}

pub open spec fn specific_delete_bits() -> u64 {
    16
}

pub open spec fn specific_create_bits() -> u64 {
    32
}

pub open spec fn specific_force_vote_bits() -> u64 {
    64
}

pub open spec fn specific_manage_members_bits() -> u64 {
    128
}

/// The flags of the basic preset: view, voting, comment.
pub open spec fn basic_preset_bits() -> u64 {
    7
}

/// The flags of the editor preset: the basic preset, edit, delete, create.
pub open spec fn editor_preset_bits() -> u64 {
    63
}

/// The flags of the manager preset: every specific flag.
pub open spec fn manager_preset_bits() -> u64 {
    255
}

impl GroupPermissions {
    /// No flag set.
    pub fn empty() -> (res: Self)
        ensures
            res.bits == 0,
    {
        GroupPermissions { bits: 0 }
    }

    /// The admin flag.
    pub fn admin() -> (res: Self)
        ensures
            res.bits == group_admin_bits(),
    {
        GroupPermissions { bits: 1 }
    }

    /// The manager flag.
    pub fn manager() -> (res: Self)
        ensures
            res.bits == group_manager_bits(),
    {
        GroupPermissions { bits: 2 }
    }

    /// The basic flag.
    pub fn basic() -> (res: Self)
        ensures
            res.bits == group_basic_bits(),
    {
        GroupPermissions { bits: 4 }
    }

    /// The flags of either set.
    pub fn union(self, other: Self) -> (res: Self)
        ensures
            res.bits == self.bits | other.bits,
    {
        GroupPermissions { bits: self.bits | other.bits }
    }

    /// Whether every flag of `other` is set in `self`.
    pub fn contains(self, other: Self) -> (res: bool)
        ensures
            res == bits_contain(self.bits, other.bits),
    {
        self.bits & other.bits == other.bits
    }

    /// Whether `self` and `other` have a flag in common.
    pub fn intersects(self, other: Self) -> (res: bool)
        ensures
            res == bits_intersect(self.bits, other.bits),
    {
        self.bits & other.bits != 0
    }

    /// Whether no flag is set.
    pub fn is_empty(self) -> (res: bool)
        ensures
            res == (self.bits == 0),
    {
        self.bits == 0
    }
}

impl SpecificPermissions {
    /// No flag set.
    pub fn empty() -> (res: Self)
        ensures
            res.bits == 0,
    {
        SpecificPermissions { bits: 0 }
    }

    /// The view flag.
    pub fn viewing() -> (res: Self)
        ensures
            res.bits == specific_view_bits(),
    {
        SpecificPermissions { bits: 1 }
    }

    /// The voting flag.
    pub fn voting() -> (res: Self)
        ensures
            res.bits == specific_voting_bits(),
    {
        SpecificPermissions { bits: 2 }
    }

    /// The comment flag.
    pub fn comment() -> (res: Self)
        ensures
            res.bits == specific_comment_bits(),
    {
        SpecificPermissions { bits: 4 }
    }

    /// The edit flag.
    pub fn edit() -> (res: Self)
        ensures
            res.bits == specific_edit_bits(),
    {
        SpecificPermissions { bits: 8 }
    }

    /// The delete flag.
    pub fn delete() -> (res: Self)
        ensures
            res.bits == specific_delete_bits(),
    {
        SpecificPermissions { bits: 16 }
    }

    /// The create flag.
    pub fn create() -> (res: Self)
        ensures
            res.bits == specific_create_bits(),
    {
        SpecificPermissions { bits: 32 }
    }

    /// The force-vote flag.
    pub fn force_vote() -> (res: Self)
        ensures
            res.bits == specific_force_vote_bits(),
    {
        SpecificPermissions { bits: 64 }
    }

    /// The manage-members flag.
    pub fn manage_members() -> (res: Self)
        ensures
            res.bits == specific_manage_members_bits(),
    {
        SpecificPermissions { bits: 128 }
    }

    /// The flags of either set.
    pub fn union(self, other: Self) -> (res: Self)
        ensures
            res.bits == self.bits | other.bits,
    {
        SpecificPermissions { bits: self.bits | other.bits }
    }

    /// Whether every flag of `other` is set in `self`.
    pub fn contains(self, other: Self) -> (res: bool)
        ensures
            res == bits_contain(self.bits, other.bits),
    {
        self.bits & other.bits == other.bits
    }

    /// Whether `self` and `other` have a flag in common.
    pub fn intersects(self, other: Self) -> (res: bool)
        ensures
            res == bits_intersect(self.bits, other.bits),
    {
        self.bits & other.bits != 0
    }

    /// Whether no flag is set.
    pub fn is_empty(self) -> (res: bool)
        ensures
            res == (self.bits == 0),
    {
        self.bits == 0
    }

    /// View, voting and comment.
    pub fn as_basic() -> (res: Self)
        ensures
            res.bits == basic_preset_bits(),
    {
        let r = Self::viewing().union(Self::voting()).union(Self::comment());
        assert(1u64 | 2u64 | 4u64 == 7u64) by (bit_vector);
        r
    }

    /// The basic preset with edit, delete and create.
    pub fn as_editor() -> (res: Self)
        ensures
            res.bits == editor_preset_bits(),
    {
        let r = Self::as_basic().union(Self::edit()).union(Self::delete()).union(Self::create());
        assert(7u64 | 8u64 | 16u64 | 32u64 == 63u64) by (bit_vector);
        r
    }

    /// The editor preset with force vote and manage members.
    pub fn as_manager() -> (res: Self)
        ensures
            res.bits == manager_preset_bits(),
    {
        let r = Self::as_editor().union(Self::force_vote()).union(Self::manage_members());
        assert(63u64 | 64u64 | 128u64 == 255u64) by (bit_vector);
        r
    }
}

/// The permissions of a member: its group flags and its specific flags.
#[derive(Debug, Clone, Copy, PartialEq, Eq, Structural, Hash, PartialOrd, Ord)]
pub struct Permissions {
    pub group: GroupPermissions,
    pub specific: SpecificPermissions,
}

/// The group flags that grant every right: admin or manager.
pub open spec fn staff_bits() -> u64 {
    3
}

/// Holds a right: the group is admin or manager, or the specific flag
/// `flag` is set.
pub open spec fn has_right(p: Permissions, flag: u64) -> bool {
    bits_intersect(p.group.bits, staff_bits()) || bits_intersect(p.specific.bits, flag)
}

impl Permissions {
    /// No flag at all.
    pub fn empty() -> (res: Self)
        ensures
            res.group.bits == 0,
            res.specific.bits == 0,
    {
        Permissions { group: GroupPermissions::empty(), specific: SpecificPermissions::empty() }
    }

    /// Group basic, specific basic preset.
    pub fn basic() -> (res: Self)
        ensures
            res.group.bits == group_basic_bits(),
            res.specific.bits == basic_preset_bits(),
    {
        Permissions { group: GroupPermissions::basic(), specific: SpecificPermissions::as_basic() }
    }

    /// Group basic, specific editor preset.
    pub fn editor() -> (res: Self)
        ensures
            res.group.bits == group_basic_bits(),
            res.specific.bits == editor_preset_bits(),
    {
        Permissions { group: GroupPermissions::basic(), specific: SpecificPermissions::as_editor() }
    }

    /// Group manager, specific manager preset.
    pub fn manager() -> (res: Self)
        ensures
            res.group.bits == group_manager_bits(),
            res.specific.bits == manager_preset_bits(),
    {
        Permissions {
            group: GroupPermissions::manager(),
            specific: SpecificPermissions::as_manager(),
        }
    }

    /// Returns true if all of the flags in `value` are set in the group flags.
    pub fn contains_group(self, value: GroupPermissions) -> (res: bool)
        ensures
            res == bits_contain(self.group.bits, value.bits),
    {
        self.group.contains(value)
    }

    /// Returns true if all of the flags in `value` are set in the specific flags.
    pub fn contains_specific(self, value: SpecificPermissions) -> (res: bool)
        ensures
            res == bits_contain(self.specific.bits, value.bits),
    {
        self.specific.contains(value)
    }

    /// Returns true if the group flags and `value` have a flag in common.
    pub fn intersects_group(self, value: GroupPermissions) -> (res: bool)
        ensures
            res == bits_intersect(self.group.bits, value.bits),
    {
        self.group.intersects(value)
    }

    /// Returns true if the specific flags and `value` have a flag in common.
    pub fn intersects_specific(self, value: SpecificPermissions) -> (res: bool)
        ensures
            res == bits_intersect(self.specific.bits, value.bits),
    {
        self.specific.intersects(value)
    }

    /// Returns true if all flags of `group` are group flags, or all flags of
    /// `specific` are specific flags.
    pub fn contains_any(self, group: GroupPermissions, specific: SpecificPermissions) -> (res: bool)
        ensures
            res == (bits_contain(self.group.bits, group.bits) || bits_contain(
                self.specific.bits,
                specific.bits,
            )),
    {
        self.group.contains(group) || self.specific.contains(specific)
    }

    /// Returns true if `group` shares a flag with the group flags, or
    /// `specific` with the specific flags.
    pub fn intersects_any(self, group: GroupPermissions, specific: SpecificPermissions) -> (res:
        bool)
        ensures
            res == (bits_intersect(self.group.bits, group.bits) || bits_intersect(
                self.specific.bits,
                specific.bits,
            )),
    {
        self.group.intersects(group) || self.specific.intersects(specific)
    }

    /// Whether the group flags hold admin.
    pub fn is_admin(self) -> (res: bool)
        ensures
            res == bits_contain(self.group.bits, group_admin_bits()),
    {
        self.contains_group(GroupPermissions::admin())
    }

    fn staff() -> (res: GroupPermissions)
        ensures
            res.bits == staff_bits(),
    {
        let r = GroupPermissions::admin().union(GroupPermissions::manager());
        assert(1u64 | 2u64 == 3u64) by (bit_vector);
        r
    }

    /// Either group admin or manager, or the specific create flag.
    pub fn has_creation_perms(self) -> (res: bool)
        ensures
            res == has_right(self, specific_create_bits()),
    {
        self.intersects_any(Self::staff(), SpecificPermissions::create())
    }

    /// Either group admin or manager, or the specific delete flag.
    pub fn has_deletion_perms(self) -> (res: bool)
        ensures
            res == has_right(self, specific_delete_bits()),
    {
        self.intersects_any(Self::staff(), SpecificPermissions::delete())
    }

    /// Either group admin or manager, or the specific edit flag.
    pub fn has_editing_perms(self) -> (res: bool)
        ensures
            res == has_right(self, specific_edit_bits()),
    {
        self.intersects_any(Self::staff(), SpecificPermissions::edit())
    }

    /// Either group admin or manager, or the specific voting flag.
    pub fn has_voting_perms(self) -> (res: bool)
        ensures
            res == has_right(self, specific_voting_bits()),
    {
        self.intersects_any(Self::staff(), SpecificPermissions::voting())
    }

    /// The stored text form: the group bits and the specific bits in decimal,
    /// joined by `-`.
    pub fn to_perm_string(self) -> (res: String)
        ensures
            res@ == perm_text(self),
    {
        let mut s = decimal_string(self.group.bits);
        push_char(&mut s, '-');
        push_decimal(&mut s, self.specific.bits);
        s
    }

    /// Reads the stored text form: the text before the first `-` and the text
    /// after it must both be decimal numbers that fit in 64 bits.
    pub fn from_perm_string(value: &str) -> (res: Option<Self>)
        ensures
            res == parse_perm_text(value@),
    {
        let v = chars_of(value);
        match split_once_chars(&v, '-') {
            Some((l, r)) => {
                let g = parse_unsigned_chars(&l, u64::MAX);
                let sp = parse_unsigned_chars(&r, u64::MAX);
                match (g, sp) {
                    (Some(g), Some(sp)) => Some(
                        Permissions {
                            group: GroupPermissions { bits: g },
                            specific: SpecificPermissions { bits: sp },
                        },
                    ),
                    _ => None,
                }
            },
            None => None,
        }
    }
}

/// The stored text form of `p`.
pub open spec fn perm_text(p: Permissions) -> Seq<char> {
    decimal(p.group.bits as nat).push('-') + decimal(p.specific.bits as nat)
}

/// What the stored text form `s` reads as, if anything.
pub open spec fn parse_perm_text(s: Seq<char>) -> Option<Permissions> {
    match split_once(s, '-') {
        Some((l, r)) => match (
            parse_unsigned(l, u64::MAX as nat),
            parse_unsigned(r, u64::MAX as nat),
        ) {
            (Some(g), Some(sp)) => Some(
                Permissions {
                    group: GroupPermissions { bits: g as u64 },
                    specific: SpecificPermissions { bits: sp as u64 },
                },
            ),
            _ => None,
        },
        None => None,
    }
}

/// Reading back the stored text form of any permissions gives them back.
pub proof fn law_perm_text_round_trip(p: Permissions)
    ensures
        parse_perm_text(perm_text(p)) == Some(p),
{
    let a = decimal(p.group.bits as nat);
    let b = decimal(p.specific.bits as nat);
    lemma_decimal(p.group.bits as nat);
    lemma_decimal(p.specific.bits as nat);
    let s = perm_text(p);
    let tail = seq!['-'] + b;
    assert(s =~= a + tail);
    lemma_index_of_concat(a, tail, '-');
    assert(index_of(tail, '-') == Some(0int));
    assert(s.take(a.len() as int) =~= a);
    assert(s.skip(a.len() as int + 1) =~= b);
    lemma_parse_decimal(p.group.bits as nat, u64::MAX as nat);
    lemma_parse_decimal(p.specific.bits as nat, u64::MAX as nat);
}

/// A member whose group is admin or manager holds every right, whatever its
/// specific flags.
pub proof fn law_staff_hold_every_right(p: Permissions, flag: u64)
    requires
        bits_contain(p.group.bits, group_admin_bits()) || bits_contain(
            p.group.bits,
            group_manager_bits(),
        ),
    ensures
        has_right(p, flag),
{
    let g = p.group.bits;
    assert((g & 1u64 == 1u64 || g & 2u64 == 2u64) ==> g & 3u64 != 0u64) by (bit_vector);
}

/// A member with no group flag and no specific flag holds no right.
pub proof fn law_empty_holds_no_right(p: Permissions, flag: u64)
    requires
        p.group.bits == 0,
        p.specific.bits == 0,
    ensures
        !has_right(p, flag),
{
    assert(0u64 & 3u64 == 0u64) by (bit_vector);
    assert(0u64 & flag == 0u64) by (bit_vector);
}

/// The presets grow: each holds every flag of the one before
/// (basic within editor within manager), and every flag of a preset is set
/// in any flag set that contains the larger preset.
pub proof fn law_presets_nested(bits: u64)
    ensures
        bits_contain(editor_preset_bits(), basic_preset_bits()),
        bits_contain(manager_preset_bits(), editor_preset_bits()),
        bits_contain(bits, manager_preset_bits()) ==> bits_contain(bits, editor_preset_bits()),
        bits_contain(bits, editor_preset_bits()) ==> bits_contain(bits, basic_preset_bits()),
{
    assert(63u64 & 7u64 == 7u64) by (bit_vector);
    assert(255u64 & 63u64 == 63u64) by (bit_vector);
    assert(bits & 255u64 == 255u64 ==> bits & 63u64 == 63u64) by (bit_vector);
    assert(bits & 63u64 == 63u64 ==> bits & 7u64 == 7u64) by (bit_vector);
}

} // verus!
