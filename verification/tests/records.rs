use state_accessor::content::resolve_history_visibility;
use state_accessor::content::resolve_membership;
use state_accessor::identifiers::user_is_on_server;
use state_accessor::Error;
use state_accessor::HistoryVisibility;
use state_accessor::MembershipState;
use state_accessor::PduEvent;
use std::sync::Arc;

fn entry(content: &str) -> Result<Option<Arc<PduEvent>>, Error> {
    Ok(Some(Arc::new(PduEvent {
        event_id: "$event:example.org".to_owned(),
        content: content.to_owned(),
    })))
}

#[test]
fn absent_membership_is_leave() {
    assert_eq!(resolve_membership(Ok(None)), Ok(MembershipState::Leave));
}

#[test]
fn absent_history_visibility_is_shared() {
    assert_eq!(resolve_history_visibility(Ok(None)), Ok(HistoryVisibility::Shared));
}

#[test]
fn each_membership_decodes() {
    assert_eq!(resolve_membership(entry(r#"{"membership":"join"}"#)), Ok(MembershipState::Join));
    assert_eq!(resolve_membership(entry(r#"{"membership":"invite"}"#)), Ok(MembershipState::Invite));
    assert_eq!(resolve_membership(entry(r#"{"membership":"leave"}"#)), Ok(MembershipState::Leave));
    assert_eq!(resolve_membership(entry(r#"{"membership":"ban"}"#)), Ok(MembershipState::Ban));
    assert_eq!(resolve_membership(entry(r#"{"membership":"knock"}"#)), Ok(MembershipState::Knock));
}

#[test]
fn membership_record_may_hold_more_fields() {
    let content = r#"{"displayname":"Alice","membership":"join","reason":"hello"}"#;
    assert_eq!(resolve_membership(entry(content)), Ok(MembershipState::Join));
}

#[test]
fn unknown_membership_keeps_its_text() {
    assert_eq!(
        resolve_membership(entry(r#"{"membership":"org.example.lurk"}"#)),
        Ok(MembershipState::Unrecognized("org.example.lurk".to_owned()))
    );
}

#[test]
fn undecodable_membership_is_corruption() {
    let expected = Err(Error::BadDatabase("Invalid room membership event in database."));
    assert_eq!(resolve_membership(entry("not json")), expected);
    assert_eq!(resolve_membership(entry("{}")), expected);
    assert_eq!(resolve_membership(entry(r#"{"membership":7}"#)), expected);
    assert_eq!(resolve_membership(entry(r#"{"history_visibility":"joined"}"#)), expected);
}

#[test]
fn store_failure_passes_through_membership() {
    let failure = Error::Unavailable("backend down".to_owned());
    assert_eq!(resolve_membership(Err(failure.clone())), Err(failure));
}

#[test]
fn each_history_visibility_decodes() {
    assert_eq!(
        resolve_history_visibility(entry(r#"{"history_visibility":"world_readable"}"#)),
        Ok(HistoryVisibility::WorldReadable)
    );
    assert_eq!(
        resolve_history_visibility(entry(r#"{"history_visibility":"shared"}"#)),
        Ok(HistoryVisibility::Shared)
    );
    assert_eq!(
        resolve_history_visibility(entry(r#"{"history_visibility":"invited"}"#)),
        Ok(HistoryVisibility::Invited)
    );
    assert_eq!(
        resolve_history_visibility(entry(r#"{"history_visibility":"joined"}"#)),
        Ok(HistoryVisibility::Joined)
    );
}

#[test]
fn unknown_history_visibility_keeps_its_text() {
    assert_eq!(
        resolve_history_visibility(entry(r#"{"history_visibility":"org.example.friends"}"#)),
        Ok(HistoryVisibility::Unrecognized("org.example.friends".to_owned()))
    );
}

#[test]
fn undecodable_history_visibility_is_corruption() {
    let expected = Err(Error::BadDatabase("Invalid history visibility event in database."));
    assert_eq!(resolve_history_visibility(entry("not json")), expected);
    assert_eq!(resolve_history_visibility(entry("{}")), expected);
    assert_eq!(resolve_history_visibility(entry(r#"{"history_visibility":null}"#)), expected);
    assert_eq!(resolve_history_visibility(entry(r#"{"membership":"join"}"#)), expected);
}

#[test]
fn store_failure_passes_through_history_visibility() {
    let failure = Error::Unavailable("backend down".to_owned());
    assert_eq!(resolve_history_visibility(Err(failure.clone())), Err(failure));
}

#[test]
fn membership_predicates() {
    assert!(MembershipState::Join.is_joined());
    assert!(!MembershipState::Invite.is_joined());
    assert!(!MembershipState::Leave.is_joined());
    assert!(!MembershipState::Ban.is_joined());
    assert!(!MembershipState::Knock.is_joined());
    assert!(!MembershipState::Unrecognized("join".to_owned()).is_joined());

    assert!(MembershipState::Join.is_invited_or_joined());
    assert!(MembershipState::Invite.is_invited_or_joined());
    assert!(!MembershipState::Leave.is_invited_or_joined());
    assert!(!MembershipState::Ban.is_invited_or_joined());
    assert!(!MembershipState::Knock.is_invited_or_joined());
    assert!(!MembershipState::Unrecognized("invite".to_owned()).is_invited_or_joined());
}

#[test]
fn user_belongs_to_the_server_in_its_identifier() {
    let server = "example.org".to_owned();
    assert!(user_is_on_server("@a:example.org", &server));
    assert!(!user_is_on_server("@a:other.org", &server));
    assert!(!user_is_on_server("@example.org:other.org", &server));
}

#[test]
fn server_name_includes_the_port() {
    assert!(user_is_on_server("@a:example.org:8448", &"example.org:8448".to_owned()));
    assert!(!user_is_on_server("@a:example.org:8448", &"example.org".to_owned()));
}

#[test]
fn text_that_is_no_user_identifier_belongs_nowhere() {
    let server = "example.org".to_owned();
    assert!(!user_is_on_server("a:example.org", &server));
    assert!(!user_is_on_server("@a", &server));
    assert!(!user_is_on_server("example.org", &server));
    assert!(!user_is_on_server("", &server));
    assert!(!user_is_on_server("@a:", &"".to_owned()));
}

#[test]
fn error_messages() {
    assert_eq!(Error::bad_database("broken"), Error::BadDatabase("broken"));
    assert_eq!(Error::BadDatabase("broken").message(), "broken");
    assert_eq!(Error::Unavailable("backend down".to_owned()).message(), "backend down");
}
