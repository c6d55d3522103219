//! Records of the commands that register webhooks by hand.

pub mod master_webhook;
