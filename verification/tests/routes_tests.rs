use chat_hub::codec::decode;
use chat_hub::errors::{
    db_error_to_service_error, ServiceError, STATUS_BAD_REQUEST, STATUS_INTERNAL_SERVER_ERROR,
    STATUS_UNAUTHORIZED,
};
use chat_hub::records::{Member, Room, User};
use chat_hub::routes::{join_room, leave_room, remove_member};
use chat_hub::wire::ClientWsMessageType;

fn room(id: i64, created_by: i64, deleted_at: Option<i64>) -> Room {
    Room {
        id,
        name: "general".to_string(),
        created_by,
        created_at: 1000,
        deleted_at,
    }
}

fn member(id: i64, room_id: i64, user_id: i64) -> Member {
    Member {
        id,
        room_id,
        user_id,
        created_at: 1000,
        last_joined_at: 1000,
        deleted_at: None,
    }
}

fn user(id: i64, name: &str) -> User {
    User {
        id,
        name: name.to_string(),
        password: "SECRET-REDACTED".to_string(),
        created_at: 1000,
    }
}

fn err_of<T>(r: Result<T, ServiceError>) -> ServiceError {
    match r {
        Err(e) => e,
        Ok(_) => panic!("expected an error"),
    }
}

#[test]
fn join_rejects_deleted_room() {
    let e = err_of(join_room(&room(7, 3, Some(2000)), None));
    assert_eq!(e.code, STATUS_BAD_REQUEST);
    assert_eq!(e.message(), "Room is deleted");
}

#[test]
fn join_reports_whether_membership_must_be_created() {
    let r = room(7, 3, None);
    assert_eq!(join_room(&r, None).unwrap(), true);
    let m = member(5, 7, 9);
    assert_eq!(join_room(&r, Some(&m)).unwrap(), false);
}

#[test]
fn leave_rejects_unknown_room() {
    let e = err_of(leave_room(None, None, 0, ""));
    assert_eq!(e.code, STATUS_BAD_REQUEST);
    assert_eq!(e.message(), "Room does not exist");
}

#[test]
fn leave_rejects_non_member() {
    let r = room(7, 3, None);
    let e = err_of(leave_room(Some(&r), None, 0, ""));
    assert_eq!(e.code, STATUS_BAD_REQUEST);
    assert_eq!(e.message(), "User is not a member of the room");
}

#[test]
fn leave_builds_notice_and_response() {
    let r = room(7, 3, None);
    let m = member(5, 7, 9);
    let out = leave_room(Some(&r), Some(&m), 2, "ann").unwrap();
    assert!(!out.delete_room);
    assert_eq!(out.response.room_name, "general");
    assert_eq!(out.response.created_at, 1000);
    assert_eq!(out.response.member_id, 5);
    assert_eq!(out.response.active_members_count, 2);
    let notice = decode(&out.notice).expect("leave notice is a valid frame");
    assert_eq!(notice.message_type, ClientWsMessageType::Leave);
    assert_eq!(notice.member_id, 5);
    assert_eq!(notice.member_name, "ann");
    assert_eq!(notice.message, "left the room by user's request");
}

#[test]
fn leave_of_last_member_deletes_room_row() {
    let r = room(7, 3, None);
    let m = member(5, 7, 9);
    assert!(leave_room(Some(&r), Some(&m), 0, "ann").unwrap().delete_room);
}

#[test]
fn remove_rejects_unknown_room() {
    let e = err_of(remove_member(None, 3, &user(9, "ann"), None, 0));
    assert_eq!(e.code, STATUS_BAD_REQUEST);
    assert_eq!(e.message(), "Room does not exist");
}

#[test]
fn remove_rejects_non_creator() {
    let r = room(7, 3, None);
    let e = err_of(remove_member(Some(&r), 4, &user(9, "ann"), None, 0));
    assert_eq!(e.code, STATUS_UNAUTHORIZED);
    assert_eq!(e.message(), "Unauthorized");
}

#[test]
fn remove_rejects_non_member_target() {
    let r = room(7, 3, None);
    let e = err_of(remove_member(Some(&r), 3, &user(9, "ann"), None, 0));
    assert_eq!(e.code, STATUS_BAD_REQUEST);
    assert_eq!(e.message(), "User is not a member of the room");
}

#[test]
fn remove_builds_kick_notice_and_response() {
    let r = room(7, 3, None);
    let m = member(5, 7, 9);
    let out = remove_member(Some(&r), 3, &user(9, "ann"), Some(&m), 1).unwrap();
    assert!(!out.delete_room);
    assert_eq!(out.response.removed_user_id, 9);
    assert_eq!(out.response.removed_user_name, "ann");
    assert_eq!(out.response.active_members_count, 1);
    let notice = decode(&out.notice).expect("kick notice is a valid frame");
    assert_eq!(notice.message_type, ClientWsMessageType::Kick);
    assert_eq!(notice.member_id, 5);
    assert_eq!(notice.member_name, "ann");
    assert_eq!(notice.message, "user is kicked");
}

#[test]
fn store_errors_map_by_sql_state() {
    let e = db_error_to_service_error(Some("23503"));
    assert_eq!((e.code, e.message()), (STATUS_BAD_REQUEST, "foreign key violation"));
    let e = db_error_to_service_error(Some("23505"));
    assert_eq!((e.code, e.message()), (STATUS_BAD_REQUEST, "unique key violation"));
    let e = db_error_to_service_error(Some("P0002"));
    assert_eq!((e.code, e.message()), (STATUS_BAD_REQUEST, "Invalid input"));
    let e = db_error_to_service_error(Some("57014"));
    assert_eq!(
        (e.code, e.message()),
        (STATUS_INTERNAL_SERVER_ERROR, "Database error: 57014")
    );
    let e = db_error_to_service_error(None);
    assert_eq!(
        (e.code, e.message()),
        (
            STATUS_BAD_REQUEST,
            "Bad Request: err: row_count_err, most likely data is not found"
        )
    );
}
