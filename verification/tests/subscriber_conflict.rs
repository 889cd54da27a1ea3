use scrum_discord_bot::observability::{init_subscriber, SubscriberError};
use tracing::Dispatch;

#[test]
fn subscriber_installed_elsewhere_is_reported() {
    tracing::dispatcher::set_global_default(Dispatch::none()).unwrap();
    assert_eq!(
        init_subscriber(Dispatch::none()),
        Err(SubscriberError::SubscriberAlreadySet)
    );
}
