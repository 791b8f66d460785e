//! The closed set of operation kinds the provider serves.

use vstd::prelude::*;

verus! {

/// One kind of blobstore operation. Each kind has an inbound channel of its
/// own; the variants stand in the order in which the channels are established.
#[derive(Clone, Copy, Debug, PartialEq, Eq, Hash, Structural)]
pub enum OperationKind {
    ClearContainer,
    ContainerExists,
    CreateContainer,
    DeleteContainer,
    GetContainerInfo,
    ListContainerObjects,
    CopyObject,
    DeleteObject,
    DeleteObjects,
    GetContainerData,
    GetObjectInfo,
    HasObject,
    MoveObject,
    WriteContainerData,
}

/// Number of operation kinds.
pub const OPERATION_COUNT: usize = 14;

impl OperationKind {
    /// All kinds, in the order in which their channels are established.
    pub open spec fn all() -> Seq<OperationKind> {
        seq![
            OperationKind::ClearContainer,
            OperationKind::ContainerExists,
            OperationKind::CreateContainer,
            OperationKind::DeleteContainer,
            OperationKind::GetContainerInfo,
            OperationKind::ListContainerObjects,
            OperationKind::CopyObject,
            OperationKind::DeleteObject,
            OperationKind::DeleteObjects,
            OperationKind::GetContainerData,
            OperationKind::GetObjectInfo,
            OperationKind::HasObject,
            OperationKind::MoveObject,
            OperationKind::WriteContainerData,
        ]
    }

    /// Position of the kind in [`OperationKind::all`].
    pub open spec fn index(self) -> int {
        match self {
            OperationKind::ClearContainer => 0,
            OperationKind::ContainerExists => 1,
            OperationKind::CreateContainer => 2,
            OperationKind::DeleteContainer => 3,
            OperationKind::GetContainerInfo => 4,
            OperationKind::ListContainerObjects => 5,
            OperationKind::CopyObject => 6,
            OperationKind::DeleteObject => 7,
            OperationKind::DeleteObjects => 8,
            OperationKind::GetContainerData => 9,
            OperationKind::GetObjectInfo => 10,
            OperationKind::HasObject => 11,
            OperationKind::MoveObject => 12,
            OperationKind::WriteContainerData => 13,
        }
    }

    /// The kind whose channel is established first.
    pub open spec fn first_spec() -> OperationKind {
        OperationKind::ClearContainer
    }

    /// The kind established after `self`, or `None` for the last one.
    pub open spec fn successor_spec(self) -> Option<OperationKind> {
        if self.index() + 1 < Self::all().len() {
            Some(Self::all()[self.index() + 1])
        } else {
            None
        }
    }

    /// The name of the operation on the wire.
    pub open spec fn name_spec(self) -> Seq<char> {
        match self {
            OperationKind::ClearContainer => "clear-container"@,
            OperationKind::ContainerExists => "container-exists"@,
            OperationKind::CreateContainer => "create-container"@,
            OperationKind::DeleteContainer => "delete-container"@,
            OperationKind::GetContainerInfo => "get-container-info"@,
            OperationKind::ListContainerObjects => "list-container-objects"@,
            OperationKind::CopyObject => "copy-object"@,
            OperationKind::DeleteObject => "delete-object"@,
            OperationKind::DeleteObjects => "delete-objects"@,
            OperationKind::GetContainerData => "get-container-data"@,
            OperationKind::GetObjectInfo => "get-object-info"@,
            OperationKind::HasObject => "has-object"@,
            OperationKind::MoveObject => "move-object"@,
            OperationKind::WriteContainerData => "write-container-data"@,
        }
    }

    /// The kind whose channel is established first.
    pub fn first() -> (kind: OperationKind)
        ensures
            kind == Self::first_spec(),
            kind == Self::all()[0],
    {
        OperationKind::ClearContainer
    }

    /// The kind established after `self`, or `None` for the last one.
    pub fn successor(self) -> (next: Option<OperationKind>)
        ensures
            next == self.successor_spec(),
    {
        match self {
            OperationKind::ClearContainer => Some(OperationKind::ContainerExists),
            OperationKind::ContainerExists => Some(OperationKind::CreateContainer),
            OperationKind::CreateContainer => Some(OperationKind::DeleteContainer),
            OperationKind::DeleteContainer => Some(OperationKind::GetContainerInfo),
            OperationKind::GetContainerInfo => Some(OperationKind::ListContainerObjects),
            OperationKind::ListContainerObjects => Some(OperationKind::CopyObject),
            OperationKind::CopyObject => Some(OperationKind::DeleteObject),
            OperationKind::DeleteObject => Some(OperationKind::DeleteObjects),
            OperationKind::DeleteObjects => Some(OperationKind::GetContainerData),
            OperationKind::GetContainerData => Some(OperationKind::GetObjectInfo),
            OperationKind::GetObjectInfo => Some(OperationKind::HasObject),
            OperationKind::HasObject => Some(OperationKind::MoveObject),
            OperationKind::MoveObject => Some(OperationKind::WriteContainerData),
            OperationKind::WriteContainerData => None,
        }
    }

    /// Position of the kind in the order of establishment.
    pub fn position(self) -> (i: usize)
        ensures
            i == self.index(),
            i < OPERATION_COUNT,
            Self::all()[i as int] == self,
    {
        match self {
            OperationKind::ClearContainer => 0,
            OperationKind::ContainerExists => 1,
            OperationKind::CreateContainer => 2,
            OperationKind::DeleteContainer => 3,
            OperationKind::GetContainerInfo => 4,
            OperationKind::ListContainerObjects => 5,
            OperationKind::CopyObject => 6,
            OperationKind::DeleteObject => 7,
            OperationKind::DeleteObjects => 8,
            OperationKind::GetContainerData => 9,
            OperationKind::GetObjectInfo => 10,
            OperationKind::HasObject => 11,
            OperationKind::MoveObject => 12,
            OperationKind::WriteContainerData => 13,
        }
    }

    /// The kind at position `i`, if `i` is below [`OPERATION_COUNT`].
    pub fn from_position(i: usize) -> (kind: Option<OperationKind>)
        ensures
            i < OPERATION_COUNT <==> kind is Some,
            kind matches Some(k) ==> k == Self::all()[i as int] && k.index() == i,
    {
        match i {
            0 => Some(OperationKind::ClearContainer),
            1 => Some(OperationKind::ContainerExists),
            2 => Some(OperationKind::CreateContainer),
            3 => Some(OperationKind::DeleteContainer),
            4 => Some(OperationKind::GetContainerInfo),
            5 => Some(OperationKind::ListContainerObjects),
            6 => Some(OperationKind::CopyObject),
            7 => Some(OperationKind::DeleteObject),
            8 => Some(OperationKind::DeleteObjects),
            9 => Some(OperationKind::GetContainerData),
            10 => Some(OperationKind::GetObjectInfo),
            11 => Some(OperationKind::HasObject),
            12 => Some(OperationKind::MoveObject),
            13 => Some(OperationKind::WriteContainerData),
            _ => None,
        }
    }

    /// The name of the operation on the wire, as in
    /// `wrpc:blobstore/blobstore.clear-container`.
    pub fn name(self) -> (name: &'static str)
        ensures
            name@ == self.name_spec(),
    {
        match self {
            OperationKind::ClearContainer => "clear-container",
            OperationKind::ContainerExists => "container-exists",
            OperationKind::CreateContainer => "create-container",
            OperationKind::DeleteContainer => "delete-container",
            OperationKind::GetContainerInfo => "get-container-info",
            OperationKind::ListContainerObjects => "list-container-objects",
            OperationKind::CopyObject => "copy-object",
            OperationKind::DeleteObject => "delete-object",
            OperationKind::DeleteObjects => "delete-objects",
            OperationKind::GetContainerData => "get-container-data",
            OperationKind::GetObjectInfo => "get-object-info",
            OperationKind::HasObject => "has-object",
            OperationKind::MoveObject => "move-object",
            OperationKind::WriteContainerData => "write-container-data",
        }
    }
}

/// The positions are those of [`OperationKind::all`], which lists every kind
/// exactly once.
pub proof fn lemma_kinds_enumerated(kind: OperationKind)
    ensures
        OperationKind::all().len() == OPERATION_COUNT,
        0 <= kind.index() < OperationKind::all().len(),
        OperationKind::all()[kind.index()] == kind,
        OperationKind::all().no_duplicates(),
{
    let all = OperationKind::all();
    assert forall|i: int, j: int| 0 <= i < all.len() && 0 <= j < all.len() && i != j implies all[i]
        != all[j] by {
        assert(all[i].index() == i);
        assert(all[j].index() == j);
    }
}

} // verus!
