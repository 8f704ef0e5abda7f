use revolt_core::errors::{query_outcome, CodeLocation, Error, ErrorType, ToRevoltError};
use revolt_core::text::decimal_string;

fn here() -> CodeLocation {
    CodeLocation::new("crates/core/result/src/lib.rs", 389, 21)
}

#[test]
fn use_macro_to_construct_error() {
    let error = Error::new(ErrorType::LabelMe, &here());
    assert!(matches!(error.error_type, ErrorType::LabelMe));
}

#[test]
fn use_macro_to_construct_complex_error() {
    let error = Error::new(ErrorType::LabelMe, &here());
    assert!(matches!(error.error_type, ErrorType::LabelMe));
}

#[test]
fn location_is_written_file_line_column() {
    let error = Error::new(ErrorType::NotFound, &CodeLocation::new("src/a.rs", 7, 120));
    assert_eq!(error.location, "src/a.rs:7:120");
    assert_eq!(CodeLocation::new("x.rs", 0, 4294967295).render(), "x.rs:0:4294967295");
}

#[test]
fn location_numbers_read_back() {
    let text = CodeLocation::new("f.rs", 1234, 56).render();
    let parts: Vec<&str> = text.split(':').collect();
    assert_eq!(parts[0], "f.rs");
    assert_eq!(parts[1].parse::<u32>().unwrap(), 1234);
    assert_eq!(parts[2].parse::<u32>().unwrap(), 56);
}

#[test]
fn decimal_rendering() {
    assert_eq!(decimal_string(0), "0");
    assert_eq!(decimal_string(9), "9");
    assert_eq!(decimal_string(10), "10");
    assert_eq!(decimal_string(14702), "14702");
    assert_eq!(decimal_string(u64::MAX), "18446744073709551615");
    for n in [1u64, 99, 100, 65535, 1 << 40] {
        assert_eq!(decimal_string(n), n.to_string());
    }
}

#[test]
fn unit_error_reads_as_its_name() {
    let error = Error::new(ErrorType::LabelMe, &CodeLocation::new("lib.rs", 3, 5));
    assert_eq!(error.to_string(), "LabelMe occurred in lib.rs:3:5");
}

#[test]
fn limit_error_reads_with_its_limit() {
    let error = Error::new(ErrorType::TooManyAttachments { max: 5 }, &CodeLocation::new("m.rs", 10, 2));
    assert_eq!(error.to_string(), "TooManyAttachments { max: 5 } occurred in m.rs:10:2");
}

#[test]
fn permission_error_quotes_the_permission() {
    let error = Error::new(
        ErrorType::MissingPermission { permission: "ManageChannel".to_string() },
        &CodeLocation::new("p.rs", 1, 1),
    );
    assert_eq!(
        error.to_string(),
        "MissingPermission { permission: \"ManageChannel\" } occurred in p.rs:1:1"
    );
}

#[test]
fn database_error_reads_with_both_fields() {
    let error = Error::database("find_one", "users", &CodeLocation::new("db.rs", 40, 9));
    assert_eq!(
        error.to_string(),
        "DatabaseError { operation: \"find_one\", collection: \"users\" } occurred in db.rs:40:9"
    );
}

#[test]
fn quoted_fields_escape_like_debug() {
    let t = ErrorType::FailedValidation { error: "a \"b\"\n\\c".to_string() };
    let q = t.quoted_fields();
    assert_eq!(q, vec![format!("{:?}", "a \"b\"\n\\c")]);
    assert_eq!(q[0], "\"a \\\"b\\\"\\n\\\\c\"");
}

#[test]
fn debug_text_with_given_quotes() {
    let t = ErrorType::FeatureDisabled { feature: "voice".to_string() };
    assert_eq!(t.debug_text_with(&vec!["<q>".to_string()]), "FeatureDisabled { feature: <q> }");
    let d = ErrorType::DatabaseError { operation: "o".to_string(), collection: "c".to_string() };
    assert_eq!(d.debug_text_with(&vec!["A".to_string(), "B".to_string()]), "DatabaseError { operation: A, collection: B }");
    let error = Error::new(ErrorType::UnknownUser, &CodeLocation::new("u.rs", 2, 3));
    assert_eq!(error.to_string_with(&vec![]), "UnknownUser occurred in u.rs:2:3");
}

fn every_kind() -> Vec<ErrorType> {
    let s = |x: &str| x.to_string();
    vec![
        ErrorType::LabelMe,
        ErrorType::AlreadyOnboarded,
        ErrorType::UsernameTaken,
        ErrorType::InvalidUsername,
        ErrorType::DiscriminatorChangeRatelimited,
        ErrorType::UnknownUser,
        ErrorType::AlreadyFriends,
        ErrorType::AlreadySentRequest,
        ErrorType::Blocked,
        ErrorType::BlockedByOther,
        ErrorType::NotFriends,
        ErrorType::TooManyPendingFriendRequests { max: 100 },
        ErrorType::UnknownChannel,
        ErrorType::UnknownAttachment,
        ErrorType::UnknownMessage,
        ErrorType::CannotEditMessage,
        ErrorType::CannotJoinCall,
        ErrorType::TooManyAttachments { max: 5 },
        ErrorType::TooManyEmbeds { max: 10 },
        ErrorType::TooManyReplies { max: 5 },
        ErrorType::TooManyChannels { max: 200 },
        ErrorType::EmptyMessage,
        ErrorType::PayloadTooLarge,
        ErrorType::CannotRemoveYourself,
        ErrorType::GroupTooLarge { max: 50 },
        ErrorType::AlreadyInGroup,
        ErrorType::NotInGroup,
        ErrorType::AlreadyPinned,
        ErrorType::NotPinned,
        ErrorType::UnknownServer,
        ErrorType::InvalidRole,
        ErrorType::Banned,
        ErrorType::TooManyServers { max: 100 },
        ErrorType::TooManyEmoji { max: 100 },
        ErrorType::TooManyRoles { max: 200 },
        ErrorType::AlreadyInServer,
        ErrorType::CannotTimeoutYourself,
        ErrorType::ReachedMaximumBots,
        ErrorType::IsBot,
        ErrorType::IsNotBot,
        ErrorType::BotIsPrivate,
        ErrorType::CannotReportYourself,
        ErrorType::MissingPermission { permission: s("SendMessage") },
        ErrorType::MissingUserPermission { permission: s("Access") },
        ErrorType::NotElevated,
        ErrorType::NotPrivileged,
        ErrorType::CannotGiveMissingPermissions,
        ErrorType::NotOwner,
        ErrorType::IsElevated,
        ErrorType::DatabaseError { operation: s("update_one"), collection: s("channels") },
        ErrorType::InternalError,
        ErrorType::InvalidOperation,
        ErrorType::InvalidCredentials,
        ErrorType::InvalidProperty,
        ErrorType::InvalidSession,
        ErrorType::InvalidFlagValue,
        ErrorType::NotAuthenticated,
        ErrorType::DuplicateNonce,
        ErrorType::NotFound,
        ErrorType::NoEffect,
        ErrorType::FailedValidation { error: s("length \"too\" long\t") },
        ErrorType::LiveKitUnavailable,
        ErrorType::NotAVoiceChannel,
        ErrorType::AlreadyConnected,
        ErrorType::NotConnected,
        ErrorType::UnknownNode,
        ErrorType::ProxyError,
        ErrorType::FileTooSmall,
        ErrorType::FileTooLarge { max: usize::MAX },
        ErrorType::FileTypeNotAllowed,
        ErrorType::ImageProcessingFailed,
        ErrorType::NoEmbedData,
        ErrorType::VosoUnavailable,
        ErrorType::FeatureDisabled { feature: s("émoji ✓") },
    ]
}

#[test]
fn every_kind_reads_as_its_debug_form() {
    let kinds = every_kind();
    assert_eq!(kinds.len(), 74);
    for kind in kinds {
        let error = Error::new(kind, &CodeLocation::new("src/x.rs", 12, 34));
        let expected = format!("{:?} occurred in {}", error.error_type, error.location);
        assert_eq!(error.to_string(), expected);
        assert_eq!(error.error_type.debug_text(), format!("{:?}", error.error_type));
    }
}

#[test]
fn variant_names() {
    assert_eq!(ErrorType::NotFound.variant_name(), "NotFound");
    assert_eq!(ErrorType::GroupTooLarge { max: 1 }.variant_name(), "GroupTooLarge");
}

#[test]
fn present_result_passes_through() {
    let r: Result<u32, std::fmt::Error> = Ok(7);
    assert_eq!(r.to_internal_error(&here()).unwrap(), 7);
}

#[test]
fn failed_result_becomes_internal_error() {
    let r: Result<u32, std::fmt::Error> = Err(std::fmt::Error);
    let e = r.to_internal_error(&CodeLocation::new("caller.rs", 88, 14)).unwrap_err();
    assert!(matches!(e.error_type, ErrorType::InternalError));
    assert_eq!(e.location, "caller.rs:88:14");
}

#[test]
fn present_option_passes_through() {
    assert_eq!(Some("v").to_internal_error(&here()).unwrap(), "v");
}

#[test]
fn absent_option_becomes_internal_error() {
    let e = None::<u8>.to_internal_error(&CodeLocation::new("o.rs", 5, 6)).unwrap_err();
    assert!(matches!(e.error_type, ErrorType::InternalError));
    assert_eq!(e.location, "o.rs:5:6");
}

#[test]
fn result_and_its_option_agree() {
    let at = CodeLocation::new("same.rs", 1, 2);
    let ok: Result<i32, String> = Ok(3);
    assert_eq!(ok.clone().to_internal_error(&at).unwrap(), ok.ok().to_internal_error(&at).unwrap());
    let err: Result<i32, String> = Err("boom".to_string());
    let a = err.clone().to_internal_error(&at).unwrap_err();
    let b = err.ok().to_internal_error(&at).unwrap_err();
    assert_eq!(a.to_string(), b.to_string());
    assert!(!a.to_string().contains("boom"));
}

#[test]
fn query_failure_becomes_database_error() {
    let failed: Result<u8, &str> = Err("connection reset");
    let e = query_outcome(failed, "find", "messages", &CodeLocation::new("q.rs", 9, 1)).unwrap_err();
    match e.error_type {
        ErrorType::DatabaseError { operation, collection } => {
            assert_eq!(operation, "find");
            assert_eq!(collection, "messages");
        }
        _ => panic!("not a database error"),
    }
    assert_eq!(e.location, "q.rs:9:1");
    let fine: Result<u8, &str> = Ok(4);
    assert_eq!(query_outcome(fine, "find", "messages", &here()).unwrap(), 4);
}
