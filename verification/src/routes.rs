pub mod subscriptions_confirm;
