use mpd_dashboard::failure::{handle, Failure, Handling, Origin};

const FAILURES: [Failure; 4] =
    [Failure::Connection, Failure::Protocol, Failure::Render, Failure::Image];
const ORIGINS: [Origin; 4] =
    [Origin::InitialLoad, Origin::Operation, Origin::PushChannel, Origin::ArtRetrieval];

#[test]
fn a_failed_picture_is_always_replaced() {
    for origin in ORIGINS {
        assert_eq!(handle(Failure::Image, origin), Handling::UsePlaceholder);
    }
}

#[test]
fn retrieving_art_never_fails_for_the_caller() {
    for failure in FAILURES {
        assert_eq!(handle(failure, Origin::ArtRetrieval), Handling::UsePlaceholder);
    }
}

#[test]
fn a_push_channel_closes_silently() {
    for failure in [Failure::Connection, Failure::Protocol, Failure::Render] {
        assert_eq!(handle(failure, Origin::PushChannel), Handling::CloseChannel);
    }
}

#[test]
fn an_unreachable_daemon_is_shown_on_the_first_page_only() {
    assert_eq!(handle(Failure::Connection, Origin::InitialLoad), Handling::ShowOnPage);
    assert_eq!(handle(Failure::Connection, Origin::Operation), Handling::FailOperation);
    assert_eq!(handle(Failure::Protocol, Origin::InitialLoad), Handling::FailOperation);
    assert_eq!(handle(Failure::Render, Origin::InitialLoad), Handling::FailOperation);
}

#[test]
fn every_other_failure_ends_its_operation() {
    assert_eq!(handle(Failure::Protocol, Origin::Operation), Handling::FailOperation);
    assert_eq!(handle(Failure::Render, Origin::Operation), Handling::FailOperation);
}
