pub mod user_handler;
