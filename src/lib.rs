pub mod chat;
pub mod chat_join_request;
pub mod invite_link;
pub mod keyboard_button_request_chat;
pub mod keyboard_button_request_user;
pub mod rights;
pub mod shared_chat;
pub mod timestamp;
pub mod user;
pub mod wire;
