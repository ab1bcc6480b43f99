//! The reference plugins: what each answers to a request, and what it logs.
pub mod hello_world;
pub mod http_echo;
pub mod telegram_bot;
