//! Which messages a kind of record gives rise to, and with which fields.
//!
//! A record, such as a user or a channel, is described by its fields and the
//! marks on them. From that description follow the commands by which clients
//! create, read, update and delete such records, and the events by which the
//! server tells of it. A field is an identifier, a permanent field, a field
//! that only the server sets, or an ordinary one:
//!
//! - an identifier names the record. The server draws it, unless it is marked
//!   as given by the client;
//! - a permanent field is set at creation and never changed;
//! - a field under the server's authority is set by the server at creation;
//! - any other field is set at creation and may be updated.

use vstd::prelude::*;

verus! {

/// How a field is marked as an identifier.
#[derive(Debug, Clone, Copy, PartialEq, Eq, Structural)]
pub enum IdMark {
    /// Not an identifier.
    Unmarked,
    /// An identifier that the server draws.
    ServerAuthoritative,
    /// An identifier that the client gives.
    ClientAuthoritative,
}

/// The marks on one field.
#[derive(Debug, Clone, Copy, PartialEq, Eq, Structural)]
pub struct FieldMarks {
    pub id: IdMark,
    pub permanent: bool,
    pub server_authoritative: bool,
}

/// What a field is.
#[derive(Debug, Clone, Copy, PartialEq, Eq, Structural)]
pub enum FieldKind {
    Id { client_authoritative: bool },
    Permanent,
    ServerAuthoritative,
    Other,
}

/// Marks that do not go together.
#[derive(Debug, Clone, Copy, PartialEq, Eq, Structural)]
pub enum MarkError {
    /// An identifier is under the server's authority as it is; to put it
    /// under the client's, the identifier mark says so.
    IdIsServerAuthoritative,
    /// An identifier is permanent as it is.
    IdIsPermanent,
    /// A field under the server's authority is permanent as it is.
    PermanentIsServerAuthoritative,
}

/// Why a record cannot be described.
#[derive(Debug, Clone, Copy, PartialEq, Eq, Structural)]
pub enum RecordError {
    /// The field at `index` is the first whose marks do not go together.
    Field { index: usize, error: MarkError },
    /// No field is an identifier.
    NoId,
}

/// The messages that a record can give rise to.
#[derive(Debug, Clone, Copy, PartialEq, Eq, Structural)]
pub enum Message {
    CreateCommand,
    ReadCommand,
    UpdateCommand,
    DeleteCommand,
    CreateEvent,
    UpdateEvent,
    DeleteEvent,
}

/// A class of fields.
#[derive(Debug, Clone, Copy, PartialEq, Eq, Structural)]
pub enum FieldClass {
    /// Every identifier.
    Id,
    /// The identifiers that the client gives.
    ClientId,
    Permanent,
    ServerAuthoritative,
    Other,
}

/// What the marks make of a field. Of marks that do not go together, the
/// first of the three faults in the order of `MarkError` is reported.
pub open spec fn kind_of(marks: FieldMarks) -> Result<FieldKind, MarkError> {
    let is_id = !(marks.id is Unmarked);
    if is_id && marks.server_authoritative {
        Err(MarkError::IdIsServerAuthoritative)
    } else if marks.permanent && is_id {
        Err(MarkError::IdIsPermanent)
    } else if marks.permanent && marks.server_authoritative {
        Err(MarkError::PermanentIsServerAuthoritative)
    } else if is_id {
        Ok(FieldKind::Id { client_authoritative: marks.id is ClientAuthoritative })
    } else if marks.permanent {
        Ok(FieldKind::Permanent)
    } else if marks.server_authoritative {
        Ok(FieldKind::ServerAuthoritative)
    } else {
        Ok(FieldKind::Other)
    }
}

/// Whether a field of this kind belongs to the class.
pub open spec fn in_class(kind: FieldKind, class: FieldClass) -> bool {
    match class {
        FieldClass::Id => kind is Id,
        FieldClass::ClientId => kind == (FieldKind::Id { client_authoritative: true }),
        FieldClass::Permanent => kind is Permanent,
        FieldClass::ServerAuthoritative => kind is ServerAuthoritative,
        FieldClass::Other => kind is Other,
    }
}

/// The positions of the fields of a class, in the order of the fields.
pub open spec fn positions(kinds: Seq<FieldKind>, class: FieldClass) -> Seq<usize>
    decreases kinds.len(),
{
    if kinds.len() == 0 {
        Seq::empty()
    } else {
        let earlier = positions(kinds.drop_last(), class);
        if in_class(kinds.last(), class) {
            earlier.push((kinds.len() - 1) as usize)
        } else {
            earlier
        }
    }
}

/// Whether a record has a field of the class.
pub open spec fn has(kinds: Seq<FieldKind>, class: FieldClass) -> bool {
    exists|i: int| 0 <= i < kinds.len() && in_class(#[trigger] kinds[i], class)
}

/// Whether a record of these fields has the message. It can always be
/// created and deleted. It can be read if there is more to it than its
/// identifiers, and updated if it has an ordinary field.
pub open spec fn generates(kinds: Seq<FieldKind>, message: Message) -> bool {
    match message {
        Message::ReadCommand => has(kinds, FieldClass::Other) || has(
            kinds,
            FieldClass::ServerAuthoritative,
        ) || has(kinds, FieldClass::Permanent),
        Message::UpdateCommand => has(kinds, FieldClass::Other),
        Message::UpdateEvent => has(kinds, FieldClass::Other),
        _ => true,
    }
}

/// The classes whose fields a message holds, in the order in which it holds
/// them.
pub open spec fn classes_of(message: Message) -> Seq<FieldClass> {
    match message {
        Message::CreateCommand => seq![
            FieldClass::ClientId,
            FieldClass::Other,
            FieldClass::Permanent,
        ],
        Message::ReadCommand => seq![FieldClass::Id],
        Message::UpdateCommand => seq![FieldClass::Id, FieldClass::Other],
        Message::DeleteCommand => seq![FieldClass::Id],
        Message::CreateEvent => seq![
            FieldClass::Id,
            FieldClass::ServerAuthoritative,
            FieldClass::Other,
            FieldClass::Permanent,
        ],
        Message::UpdateEvent => seq![FieldClass::Id, FieldClass::Other],
        Message::DeleteEvent => seq![FieldClass::Id],
    }
}

/// The positions of the fields of the given classes, class after class.
pub open spec fn positions_of_all(kinds: Seq<FieldKind>, classes: Seq<FieldClass>) -> Seq<usize>
    decreases classes.len(),
{
    if classes.len() == 0 {
        Seq::empty()
    } else {
        positions_of_all(kinds, classes.drop_last()) + positions(kinds, classes.last())
    }
}

/// The positions of the fields that a message holds, in its order.
pub open spec fn fields_of(kinds: Seq<FieldKind>, message: Message) -> Seq<usize> {
    positions_of_all(kinds, classes_of(message))
}

/// Whether every one of the first `count` fields has marks that go together.
pub open spec fn marks_agree(fields: Seq<FieldMarks>, count: int) -> bool {
    forall|i: int| 0 <= i < count ==> (#[trigger] kind_of(fields[i])) is Ok
}

/// What a field is, by its marks.
pub fn classify(marks: FieldMarks) -> (kind: Result<FieldKind, MarkError>)
    ensures
        kind == kind_of(marks),
{
    let (is_id, client_authoritative) = match marks.id {
        IdMark::Unmarked => (false, false),
        IdMark::ServerAuthoritative => (true, false),
        IdMark::ClientAuthoritative => (true, true),
    };
    if is_id && marks.server_authoritative {
        Err(MarkError::IdIsServerAuthoritative)
    } else if marks.permanent && is_id {
        Err(MarkError::IdIsPermanent)
    } else if marks.permanent && marks.server_authoritative {
        Err(MarkError::PermanentIsServerAuthoritative)
    } else if is_id {
        Ok(FieldKind::Id { client_authoritative })
    } else if marks.permanent {
        Ok(FieldKind::Permanent)
    } else if marks.server_authoritative {
        Ok(FieldKind::ServerAuthoritative)
    } else {
        Ok(FieldKind::Other)
    }
}

/// Whether a field of this kind belongs to the class.
pub fn belongs(kind: FieldKind, class: FieldClass) -> (belongs: bool)
    ensures
        belongs == in_class(kind, class),
{
    match (class, kind) {
        (FieldClass::Id, FieldKind::Id { .. }) => true,
        (FieldClass::ClientId, FieldKind::Id { client_authoritative }) => client_authoritative,
        (FieldClass::Permanent, FieldKind::Permanent) => true,
        (FieldClass::ServerAuthoritative, FieldKind::ServerAuthoritative) => true,
        (FieldClass::Other, FieldKind::Other) => true,
        _ => false,
    }
}

/// Describes a record by the kinds of its fields.
///
/// The fields are taken in their order, and the first whose marks do not go
/// together is reported. A record whose marks all go together must have an
/// identifier.
pub fn message_enum_source(fields: &Vec<FieldMarks>) -> (record: Result<Vec<FieldKind>, RecordError>)
    ensures
        match record {
            Ok(kinds) => {
                &&& marks_agree(fields@, fields@.len() as int)
                &&& kinds@.len() == fields@.len()
                &&& forall|i: int|
                    0 <= i < fields@.len() ==> kind_of(fields@[i]) == Ok::<FieldKind, MarkError>(
                        #[trigger] kinds@[i],
                    )
                &&& has(kinds@, FieldClass::Id)
            },
            Err(RecordError::Field { index, error }) => {
                &&& index < fields@.len()
                &&& marks_agree(fields@, index as int)
                &&& kind_of(fields@[index as int]) == Err::<FieldKind, MarkError>(error)
            },
            Err(RecordError::NoId) => {
                &&& marks_agree(fields@, fields@.len() as int)
                &&& forall|i: int|
                    0 <= i < fields@.len() ==> !((#[trigger] kind_of(fields@[i]))->Ok_0 is Id)
            },
        },
{
    let mut kinds: Vec<FieldKind> = Vec::new();
    let mut seen_id = false;
    let mut i: usize = 0;
    while i < fields.len()
        invariant
            i <= fields@.len(),
            kinds@.len() == i,
            marks_agree(fields@, i as int),
            forall|j: int|
                0 <= j < i ==> kind_of(fields@[j]) == Ok::<FieldKind, MarkError>(
                    #[trigger] kinds@[j],
                ),
            seen_id == has(kinds@, FieldClass::Id),
        decreases fields@.len() - i,
    {
        let ghost earlier = kinds@;
        match classify(fields[i]) {
            Ok(kind) => {
                kinds.push(kind);
                proof {
                    if has(earlier, FieldClass::Id) {
                        let j = choose|j: int|
                            0 <= j < earlier.len() && in_class(#[trigger] earlier[j], FieldClass::Id);
                        assert(in_class(kinds@[j], FieldClass::Id));
                    }
                    if in_class(kind, FieldClass::Id) {
                        assert(in_class(kinds@[i as int], FieldClass::Id));
                    }
                    if has(kinds@, FieldClass::Id) && !in_class(kind, FieldClass::Id) {
                        let j = choose|j: int|
                            0 <= j < kinds@.len() && in_class(#[trigger] kinds@[j], FieldClass::Id);
                        assert(in_class(earlier[j], FieldClass::Id));
                    }
                }
                if belongs(kind, FieldClass::Id) {
                    seen_id = true;
                }
            },
            Err(error) => {
                return Err(RecordError::Field { index: i, error });
            },
        }
        i += 1;
    }
    if seen_id {
        Ok(kinds)
    } else {
        proof {
            assert forall|j: int| 0 <= j < fields@.len() implies !((#[trigger] kind_of(
                fields@[j],
            ))->Ok_0 is Id) by {
                assert(!in_class(kinds@[j], FieldClass::Id));
            }
        }
        Err(RecordError::NoId)
    }
}

/// Whether a record has a field of the class.
pub fn has_class(kinds: &Vec<FieldKind>, class: FieldClass) -> (found: bool)
    ensures
        found == has(kinds@, class),
{
    let mut i: usize = 0;
    while i < kinds.len()
        invariant
            i <= kinds@.len(),
            forall|j: int| 0 <= j < i ==> !in_class(#[trigger] kinds@[j], class),
        decreases kinds@.len() - i,
    {
        if belongs(kinds[i], class) {
            return true;
        }
        i += 1;
    }
    false
}

/// Whether a record of these fields has the message.
pub fn is_generated(kinds: &Vec<FieldKind>, message: Message) -> (generated: bool)
    ensures
        generated == generates(kinds@, message),
{
    match message {
        Message::ReadCommand => has_class(kinds, FieldClass::Other) || has_class(
            kinds,
            FieldClass::ServerAuthoritative,
        ) || has_class(kinds, FieldClass::Permanent),
        Message::UpdateCommand => has_class(kinds, FieldClass::Other),
        Message::UpdateEvent => has_class(kinds, FieldClass::Other),
        _ => true,
    }
}

fn append_class(kinds: &Vec<FieldKind>, class: FieldClass, list: &mut Vec<usize>)
    ensures
        final(list)@ == old(list)@ + positions(kinds@, class),
{
    let mut i: usize = 0;
    assert(kinds@.take(0) =~= Seq::<FieldKind>::empty());
    while i < kinds.len()
        invariant
            i <= kinds@.len(),
            list@ == old(list)@ + positions(kinds@.take(i as int), class),
        decreases kinds@.len() - i,
    {
        assert(kinds@.take(i + 1).drop_last() =~= kinds@.take(i as int));
        if belongs(kinds[i], class) {
            list.push(i);
        }
        i += 1;
    }
    assert(kinds@.take(i as int) =~= kinds@);
}

/// The positions of the fields that a message holds, in its order.
pub fn message_fields(kinds: &Vec<FieldKind>, message: Message) -> (list: Vec<usize>)
    ensures
        list@ == fields_of(kinds@, message),
{
    let mut list: Vec<usize> = Vec::new();
    proof {
        reveal_with_fuel(positions_of_all, 5);
    }
    match message {
        Message::CreateCommand => {
            append_class(kinds, FieldClass::ClientId, &mut list);
            append_class(kinds, FieldClass::Other, &mut list);
            append_class(kinds, FieldClass::Permanent, &mut list);
            assert(classes_of(message).drop_last() =~= seq![FieldClass::ClientId, FieldClass::Other]);
            assert(classes_of(message).drop_last().drop_last() =~= seq![FieldClass::ClientId]);
        },
        Message::CreateEvent => {
            append_class(kinds, FieldClass::Id, &mut list);
            append_class(kinds, FieldClass::ServerAuthoritative, &mut list);
            append_class(kinds, FieldClass::Other, &mut list);
            append_class(kinds, FieldClass::Permanent, &mut list);
            assert(classes_of(message).drop_last() =~= seq![
                FieldClass::Id,
                FieldClass::ServerAuthoritative,
                FieldClass::Other,
            ]);
            assert(classes_of(message).drop_last().drop_last() =~= seq![
                FieldClass::Id,
                FieldClass::ServerAuthoritative,
            ]);
            assert(classes_of(message).drop_last().drop_last().drop_last() =~= seq![
                FieldClass::Id,
            ]);
        },
        Message::UpdateCommand | Message::UpdateEvent => {
            append_class(kinds, FieldClass::Id, &mut list);
            append_class(kinds, FieldClass::Other, &mut list);
            assert(classes_of(message).drop_last() =~= seq![FieldClass::Id]);
        },
        Message::ReadCommand | Message::DeleteCommand | Message::DeleteEvent => {
            append_class(kinds, FieldClass::Id, &mut list);
        },
    }
    assert(list@ =~= fields_of(kinds@, message));
    list
}

} // verus!
