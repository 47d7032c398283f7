pub mod subscriptions;
