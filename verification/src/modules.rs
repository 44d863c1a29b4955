pub mod checkout;
pub mod customer;
pub mod discount;
pub mod discount_redemptions;
pub mod files;
pub mod license_key_instances;
pub mod license_keys;
pub mod order_items;
pub mod orders;
pub mod prices;
pub mod products;
pub mod store;
pub mod subscription_invoice;
pub mod subscription_items;
pub mod subscriptions;
pub mod usage_records;
pub mod user;
pub mod variants;
pub mod webhook;
