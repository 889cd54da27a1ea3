use scrum_discord_bot::observability::{init_subscriber, SubscriberError};
use tracing::Dispatch;

#[test]
fn subscriber_is_installed_once() {
    assert_eq!(init_subscriber(Dispatch::none()), Ok(()));
    assert_eq!(
        init_subscriber(Dispatch::none()),
        Err(SubscriberError::LoggerAlreadySet)
    );
}
