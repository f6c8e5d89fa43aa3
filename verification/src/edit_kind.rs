use vstd::prelude::*;

verus! {

/// What an edit does to its model.
#[derive(Debug, Clone, Copy, PartialEq, Eq, Structural)]
pub enum EditOperation {
    Create,
    Delete,
    Modify,
    Merge,
}

/// The stored code of an edit operation.
pub open spec fn operation_code(op: EditOperation) -> u8 {
    match op {
        EditOperation::Create => 0,
        EditOperation::Delete => 1,
        EditOperation::Modify => 2,
        EditOperation::Merge => 3,
    }
}

impl EditOperation {
    /// The display name.
    pub fn get_name(self) -> (res: &'static str)
        ensures
            res@ == match self {
                EditOperation::Create => "Create"@,
                EditOperation::Delete => "Delete"@,
                EditOperation::Modify => "Modify"@,
                EditOperation::Merge => "Merge"@,
            },
    {
        match self {
            Self::Create => "Create",
            Self::Delete => "Delete",
            Self::Modify => "Modify",
            Self::Merge => "Merge",
        }
    }

    /// The stored code.
    pub fn into_u8(self) -> (res: u8)
        ensures
            res == operation_code(self),
    {
        match self {
            Self::Create => 0,
            Self::Delete => 1,
            Self::Modify => 2,
            Self::Merge => 3,
        }
    }

    /// The operation with the stored code `value`, if there is one.
    pub fn try_from_u8(value: u8) -> (res: Option<Self>)
        ensures
            match res {
                Some(op) => operation_code(op) == value,
                None => value > 3,
            },
    {
        match value {
            0 => Some(Self::Create),
            1 => Some(Self::Delete),
            2 => Some(Self::Modify),
            3 => Some(Self::Merge),
            _ => None,
        }
    }
}

/// Where an edit stands.
#[derive(Debug, Clone, Copy, PartialEq, Eq, Structural)]
pub enum EditStatus {
    Accepted,
    Pending,
    Rejected,
    Failed,
    Cancelled,
    ForceAccepted,
    ForceRejected,
}

/// The stored code of an edit status.
pub open spec fn status_code(s: EditStatus) -> u8 {
    match s {
        EditStatus::Accepted => 0,
        EditStatus::Pending => 1,
        EditStatus::Rejected => 2,
        EditStatus::Failed => 3,
        EditStatus::Cancelled => 4,
        EditStatus::ForceAccepted => 5,
        EditStatus::ForceRejected => 6,
    }
}

/// The edit went through: accepted, by vote or by force.
pub open spec fn status_accepted(s: EditStatus) -> bool {
    s is Accepted || s is ForceAccepted
}

/// The edit did not go through: rejected, failed, cancelled or force rejected.
pub open spec fn status_rejected(s: EditStatus) -> bool {
    s is Rejected || s is Failed || s is Cancelled || s is ForceRejected
}

/// The edit is still open.
pub open spec fn status_pending(s: EditStatus) -> bool {
    s is Pending
}

impl EditStatus {
    /// The display name.
    pub fn get_name(self) -> (res: &'static str)
        ensures
            res@ == match self {
                EditStatus::Accepted => "Accepted"@,
                EditStatus::Pending => "Pending"@,
                EditStatus::Rejected => "Rejected"@,
                EditStatus::Failed => "Failed"@,
                EditStatus::Cancelled => "Cancelled"@,
                EditStatus::ForceAccepted => "Force Accepted"@,
                EditStatus::ForceRejected => "Force Rejected"@,
            },
    {
        match self {
            Self::Accepted => "Accepted",
            Self::Pending => "Pending",
            Self::Rejected => "Rejected",
            Self::Failed => "Failed",
            Self::Cancelled => "Cancelled",
            Self::ForceAccepted => "Force Accepted",
            Self::ForceRejected => "Force Rejected",
        }
    }

    /// Accepted or force accepted.
    pub fn is_accepted(self) -> (res: bool)
        ensures
            res == status_accepted(self),
    {
        matches!(self, Self::Accepted | Self::ForceAccepted)
    }

    /// Rejected, failed, cancelled or force rejected.
    pub fn is_rejected(self) -> (res: bool)
        ensures
            res == status_rejected(self),
    {
        matches!(self, Self::Rejected | Self::Failed | Self::Cancelled | Self::ForceRejected)
    }

    /// Still pending.
    pub fn is_pending(self) -> (res: bool)
        ensures
            res == status_pending(self),
    {
        matches!(self, Self::Pending)
    }

    /// The stored code.
    pub fn into_u8(self) -> (res: u8)
        ensures
            res == status_code(self),
    {
        match self {
            Self::Accepted => 0,
            Self::Pending => 1,
            Self::Rejected => 2,
            Self::Failed => 3,
            Self::Cancelled => 4,
            Self::ForceAccepted => 5,
            Self::ForceRejected => 6,
        }
    }

    /// The status with the stored code `value`, if there is one.
    pub fn try_from_u8(value: u8) -> (res: Option<Self>)
        ensures
            match res {
                Some(s) => status_code(s) == value,
                None => value > 6,
            },
    {
        match value {
            0 => Some(Self::Accepted),
            1 => Some(Self::Pending),
            2 => Some(Self::Rejected),
            3 => Some(Self::Failed),
            4 => Some(Self::Cancelled),
            5 => Some(Self::ForceAccepted),
            6 => Some(Self::ForceRejected),
            _ => None,
        }
    }
}

/// Every status is exactly one of accepted, rejected and pending.
pub proof fn law_status_partition(s: EditStatus)
    ensures
        status_accepted(s) || status_rejected(s) || status_pending(s),
        !(status_accepted(s) && status_rejected(s)),
        !(status_accepted(s) && status_pending(s)),
        !(status_rejected(s) && status_pending(s)),
{
}

/// The kind of model an edit is about.
#[derive(Debug, Clone, Copy, PartialEq, Eq, Structural)]
pub enum EditType {
    Book,
    Person,
    Tag,
    Collection,
}

/// The stored code of an edit type.
pub open spec fn edit_type_code(t: EditType) -> u8 {
    match t {
        EditType::Book => 0,
        EditType::Person => 1,
        EditType::Tag => 2,
        EditType::Collection => 3,
    }
}

impl EditType {
    /// The display name.
    pub fn get_name(self) -> (res: &'static str)
        ensures
            res@ == match self {
                EditType::Book => "Book"@,
                EditType::Person => "Person"@,
                EditType::Tag => "Tag"@,
                EditType::Collection => "Collection"@,
            },
    {
        match self {
            Self::Book => "Book",
            Self::Person => "Person",
            Self::Tag => "Tag",
            Self::Collection => "Collection",
        }
    }

    /// The stored code.
    pub fn into_u8(self) -> (res: u8)
        ensures
            res == edit_type_code(self),
    {
        match self {
            Self::Book => 0,
            Self::Person => 1,
            Self::Tag => 2,
            Self::Collection => 3,
        }
    }

    /// The edit type with the stored code `value`, if there is one.
    pub fn try_from_u8(value: u8) -> (res: Option<Self>)
        ensures
            match res {
                Some(t) => edit_type_code(t) == value,
                None => value > 3,
            },
    {
        match value {
            0 => Some(Self::Book),
            1 => Some(Self::Person),
            2 => Some(Self::Tag),
            3 => Some(Self::Collection),
            _ => None,
        }
    }
}

/// The stored codes of operations, statuses and edit types read back as the
/// values they were made from, and a code that reads as a value is that
/// value's code.
pub proof fn law_codes_round_trip(op: EditOperation, s: EditStatus, t: EditType)
    ensures
        operation_code(op) <= 3,
        status_code(s) <= 6,
        edit_type_code(t) <= 3,
        forall|o2: EditOperation| operation_code(o2) == operation_code(op) ==> o2 == op,
        forall|s2: EditStatus| status_code(s2) == status_code(s) ==> s2 == s,
        forall|t2: EditType| edit_type_code(t2) == edit_type_code(t) ==> t2 == t,
{
}

/// How a list of values is changed by a mass edit.
#[derive(Debug, Clone, Copy, PartialEq, Eq, Structural)]
pub enum ModifyValuesBy {
    Overwrite,
    Append,
    Remove,
}

impl ModifyValuesBy {
    /// The value with code `value`; any unknown code gives `Overwrite`.
    pub fn from_u8(value: u8) -> (res: Self)
        ensures
            res == match value {
                1 => ModifyValuesBy::Append,
                2 => ModifyValuesBy::Remove,
                _ => ModifyValuesBy::Overwrite,
            },
    {
        match value {
            1 => Self::Append,
            2 => Self::Remove,
            _ => Self::Overwrite,
        }
    }

    /// The code.
    pub fn into_u8(self) -> (res: u8)
        ensures
            res == match self {
                ModifyValuesBy::Overwrite => 0u8,
                ModifyValuesBy::Append => 1u8,
                ModifyValuesBy::Remove => 2u8,
            },
    {
        match self {
            Self::Overwrite => 0,
            Self::Append => 1,
            Self::Remove => 2,
        }
    }
}

impl Default for ModifyValuesBy {
    fn default() -> (res: Self)
        ensures
            res == ModifyValuesBy::Overwrite,
    {
        Self::Overwrite
    }
}

/// What a metadata search looks for.
#[derive(Debug, Clone, Copy, PartialEq, Eq, Structural)]
pub enum MetadataSearchType {
    Book,
    Person,
}

impl MetadataSearchType {
    /// The value with code `value`; any unknown code gives `Book`.
    pub fn from_u8(value: u8) -> (res: Self)
        ensures
            res == (if value == 1 {
                MetadataSearchType::Person
            } else {
                MetadataSearchType::Book
            }),
    {
        if value == 1 {
            Self::Person
        } else {
            Self::Book
        }
    }

    /// The code.
    pub fn into_u8(self) -> (res: u8)
        ensures
            res == (if self is Person {
                1u8
            } else {
                0u8
            }),
    {
        match self {
            Self::Book => 0,
            Self::Person => 1,
        }
    }
}

} // verus!
