use task_store::{decimal_text, is_blank_title, is_whitespace_char, AppError, Operation};

#[test]
fn error_statuses() {
    assert_eq!(AppError::EmptyTitle.status_code(), 422);
    assert_eq!(AppError::IdNotFound(3).status_code(), 404);
    assert_eq!(AppError::Internal.status_code(), 500);
}

#[test]
fn error_messages() {
    assert_eq!(AppError::EmptyTitle.message(), "`title` field of `Task` cannot be empty!");
    assert_eq!(AppError::IdNotFound(42).message(), "`42` id not found!");
    assert_eq!(AppError::Internal.message(), "Internal server error!");
}

#[test]
fn success_statuses() {
    assert_eq!(Operation::Insert.success_status(), 201);
    assert_eq!(Operation::Update.success_status(), 201);
    assert_eq!(Operation::FindAll.success_status(), 200);
    assert_eq!(Operation::FindById.success_status(), 200);
    assert_eq!(Operation::Delete.success_status(), 200);
}

#[test]
fn decimal_rendering() {
    assert_eq!(decimal_text(0), "0");
    assert_eq!(decimal_text(7), "7");
    assert_eq!(decimal_text(10), "10");
    assert_eq!(decimal_text(1234567890), "1234567890");
    assert_eq!(decimal_text(u64::MAX), u64::MAX.to_string());
}

#[test]
fn whitespace_matches_std() {
    for u in 0u32..0x3100 {
        if let Some(c) = char::from_u32(u) {
            assert_eq!(is_whitespace_char(c), c.is_whitespace(), "{:?}", c);
        }
    }
}

#[test]
fn blank_titles() {
    assert!(is_blank_title(""));
    assert!(is_blank_title("   "));
    assert!(is_blank_title("\t\r\n\u{2003}"));
    assert!(!is_blank_title(" a "));
    assert!(!is_blank_title("x"));
}
