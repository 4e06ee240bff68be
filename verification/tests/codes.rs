use nntp_client::response_code::{Kind, ResponseCode};

#[test]
fn known_codes_classify() {
    assert_eq!(ResponseCode::from_code(101), ResponseCode::Known(Kind::Capabilities));
    assert_eq!(ResponseCode::from_code(205), ResponseCode::Known(Kind::ConnectionClosing));
    assert_eq!(ResponseCode::from_code(211), ResponseCode::Known(Kind::GroupSelected));
    assert_eq!(ResponseCode::from_code(281), ResponseCode::Known(Kind::AuthenticationAccepted));
    assert_eq!(ResponseCode::from_code(381), ResponseCode::Known(Kind::PasswordRequired));
    assert_eq!(ResponseCode::from_code(411), ResponseCode::Known(Kind::NoSuchNewsgroup));
    assert_eq!(ResponseCode::from_code(481), ResponseCode::Known(Kind::AuthenticationRejected));
}

#[test]
fn unknown_codes_stay_numeric() {
    assert_eq!(ResponseCode::from_code(299), ResponseCode::Unknown(299));
    assert_eq!(ResponseCode::from_code(555), ResponseCode::Unknown(555));
}

#[test]
fn kind_codes_round_trip() {
    for kind in [
        Kind::Help,
        Kind::Capabilities,
        Kind::DateTime,
        Kind::ServiceAvailable,
        Kind::ServiceAvailableNoPosting,
        Kind::ConnectionClosing,
        Kind::GroupSelected,
        Kind::ListFollows,
        Kind::ArticleFollows,
        Kind::HeadFollows,
        Kind::BodyFollows,
        Kind::ArticleExists,
        Kind::OverviewFollows,
        Kind::NewArticlesFollow,
        Kind::NewGroupsFollow,
        Kind::AuthenticationAccepted,
        Kind::PasswordRequired,
        Kind::ServiceTemporarilyUnavailable,
        Kind::NoSuchNewsgroup,
        Kind::NoNewsgroupSelected,
        Kind::NoArticleSelected,
        Kind::AuthenticationRequired,
        Kind::AuthenticationRejected,
        Kind::ServicePermanentlyUnavailable,
    ] {
        assert_eq!(ResponseCode::from_code(kind.code()), ResponseCode::Known(kind));
    }
}

#[test]
fn multiline_table() {
    assert!(ResponseCode::from_code(100).is_multiline());
    assert!(ResponseCode::from_code(101).is_multiline());
    assert!(ResponseCode::from_code(211).is_multiline());
    assert!(ResponseCode::from_code(215).is_multiline());
    assert!(ResponseCode::from_code(220).is_multiline());
    assert!(ResponseCode::from_code(221).is_multiline());
    assert!(ResponseCode::from_code(222).is_multiline());
    assert!(ResponseCode::from_code(224).is_multiline());
    assert!(ResponseCode::from_code(230).is_multiline());
    assert!(ResponseCode::from_code(231).is_multiline());

    assert!(!ResponseCode::from_code(200).is_multiline());
    assert!(!ResponseCode::from_code(205).is_multiline());
    assert!(!ResponseCode::from_code(281).is_multiline());
    assert!(!ResponseCode::from_code(381).is_multiline());
    assert!(!ResponseCode::from_code(411).is_multiline());
    assert!(!ResponseCode::from_code(299).is_multiline());
}
