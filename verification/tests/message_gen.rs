use aspen_core::message_gen::{
    belongs, classify, has_class, is_generated, message_enum_source, message_fields, FieldClass,
    FieldKind, FieldMarks, IdMark, MarkError, Message, RecordError,
};

const ID: FieldMarks =
    FieldMarks { id: IdMark::ServerAuthoritative, permanent: false, server_authoritative: false };
const CLIENT_ID: FieldMarks =
    FieldMarks { id: IdMark::ClientAuthoritative, permanent: false, server_authoritative: false };
const PERMANENT: FieldMarks =
    FieldMarks { id: IdMark::Unmarked, permanent: true, server_authoritative: false };
const SERVER: FieldMarks =
    FieldMarks { id: IdMark::Unmarked, permanent: false, server_authoritative: true };
const PLAIN: FieldMarks =
    FieldMarks { id: IdMark::Unmarked, permanent: false, server_authoritative: false };

const ALL: [Message; 7] = [
    Message::CreateCommand,
    Message::ReadCommand,
    Message::UpdateCommand,
    Message::DeleteCommand,
    Message::CreateEvent,
    Message::UpdateEvent,
    Message::DeleteEvent,
];

fn generated(kinds: &Vec<FieldKind>) -> Vec<Message> {
    ALL.iter().copied().filter(|m| is_generated(kinds, *m)).collect()
}

#[test]
fn marks_make_kinds() {
    assert_eq!(classify(ID), Ok(FieldKind::Id { client_authoritative: false }));
    assert_eq!(classify(CLIENT_ID), Ok(FieldKind::Id { client_authoritative: true }));
    assert_eq!(classify(PERMANENT), Ok(FieldKind::Permanent));
    assert_eq!(classify(SERVER), Ok(FieldKind::ServerAuthoritative));
    assert_eq!(classify(PLAIN), Ok(FieldKind::Other));
}

#[test]
fn marks_that_do_not_go_together() {
    let id_server = FieldMarks { server_authoritative: true, ..ID };
    assert_eq!(classify(id_server), Err(MarkError::IdIsServerAuthoritative));
    let id_permanent = FieldMarks { permanent: true, ..CLIENT_ID };
    assert_eq!(classify(id_permanent), Err(MarkError::IdIsPermanent));
    let permanent_server = FieldMarks { server_authoritative: true, ..PERMANENT };
    assert_eq!(classify(permanent_server), Err(MarkError::PermanentIsServerAuthoritative));
    let everything = FieldMarks { permanent: true, server_authoritative: true, ..ID };
    assert_eq!(classify(everything), Err(MarkError::IdIsServerAuthoritative));
}

#[test]
fn classes_of_kinds() {
    let server_id = FieldKind::Id { client_authoritative: false };
    let client_id = FieldKind::Id { client_authoritative: true };
    assert!(belongs(server_id, FieldClass::Id));
    assert!(belongs(client_id, FieldClass::Id));
    assert!(!belongs(server_id, FieldClass::ClientId));
    assert!(belongs(client_id, FieldClass::ClientId));
    assert!(belongs(FieldKind::Permanent, FieldClass::Permanent));
    assert!(belongs(FieldKind::ServerAuthoritative, FieldClass::ServerAuthoritative));
    assert!(belongs(FieldKind::Other, FieldClass::Other));
    assert!(!belongs(FieldKind::Other, FieldClass::Id));
    assert!(!belongs(FieldKind::Permanent, FieldClass::Other));
    assert!(!belongs(client_id, FieldClass::Other));
}

#[test]
fn a_message_record() {
    // id, channel_id (permanent), content, attachments, author and timestamp (server)
    let fields = vec![ID, PERMANENT, PLAIN, PLAIN, SERVER, SERVER];
    let kinds = message_enum_source(&fields).unwrap();
    assert_eq!(
        kinds,
        vec![
            FieldKind::Id { client_authoritative: false },
            FieldKind::Permanent,
            FieldKind::Other,
            FieldKind::Other,
            FieldKind::ServerAuthoritative,
            FieldKind::ServerAuthoritative,
        ]
    );
    assert_eq!(generated(&kinds), ALL.to_vec());
    assert_eq!(message_fields(&kinds, Message::CreateCommand), vec![2, 3, 1]);
    assert_eq!(message_fields(&kinds, Message::ReadCommand), vec![0]);
    assert_eq!(message_fields(&kinds, Message::UpdateCommand), vec![0, 2, 3]);
    assert_eq!(message_fields(&kinds, Message::DeleteCommand), vec![0]);
    assert_eq!(message_fields(&kinds, Message::CreateEvent), vec![0, 4, 5, 2, 3, 1]);
    assert_eq!(message_fields(&kinds, Message::UpdateEvent), vec![0, 2, 3]);
    assert_eq!(message_fields(&kinds, Message::DeleteEvent), vec![0]);
}

#[test]
fn a_react_record_has_only_identifiers() {
    // message_id and emoji (given by the client), user_id
    let kinds = message_enum_source(&vec![CLIENT_ID, CLIENT_ID, ID]).unwrap();
    assert_eq!(
        generated(&kinds),
        vec![
            Message::CreateCommand,
            Message::DeleteCommand,
            Message::CreateEvent,
            Message::DeleteEvent
        ]
    );
    assert_eq!(message_fields(&kinds, Message::CreateCommand), vec![0, 1]);
    assert_eq!(message_fields(&kinds, Message::CreateEvent), vec![0, 1, 2]);
    assert_eq!(message_fields(&kinds, Message::DeleteCommand), vec![0, 1, 2]);
    assert!(has_class(&kinds, FieldClass::Id));
    assert!(has_class(&kinds, FieldClass::ClientId));
    assert!(!has_class(&kinds, FieldClass::Other));
}

#[test]
fn an_icon_record_is_read_but_not_updated() {
    // id, data (permanent), mime_type (permanent)
    let kinds = message_enum_source(&vec![ID, PERMANENT, PERMANENT]).unwrap();
    assert_eq!(
        generated(&kinds),
        vec![
            Message::CreateCommand,
            Message::ReadCommand,
            Message::DeleteCommand,
            Message::CreateEvent,
            Message::DeleteEvent
        ]
    );
    assert_eq!(message_fields(&kinds, Message::CreateCommand), vec![1, 2]);
}

#[test]
fn a_record_needs_an_identifier() {
    assert_eq!(message_enum_source(&vec![PLAIN, PERMANENT, SERVER]), Err(RecordError::NoId));
    assert_eq!(message_enum_source(&vec![]), Err(RecordError::NoId));
}

#[test]
fn the_first_faulty_field_is_reported() {
    let id_permanent = FieldMarks { permanent: true, ..ID };
    let permanent_server = FieldMarks { server_authoritative: true, ..PERMANENT };
    assert_eq!(
        message_enum_source(&vec![PLAIN, permanent_server, id_permanent]),
        Err(RecordError::Field { index: 1, error: MarkError::PermanentIsServerAuthoritative })
    );
    assert_eq!(
        message_enum_source(&vec![id_permanent]),
        Err(RecordError::Field { index: 0, error: MarkError::IdIsPermanent })
    );
}
