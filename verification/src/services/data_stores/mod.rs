pub mod hashmap_2fa_store;
pub mod hashmap_user_store;
pub mod redis_keys;
