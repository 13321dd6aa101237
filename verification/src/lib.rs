pub mod aspen_config;
pub mod aspen_protocol;
pub mod broadcast;
pub mod command_response;
pub mod connection;
pub mod fanout;
pub mod handle_request;
pub mod ids;
pub mod login;
pub mod mailbox;
pub mod message_gen;
pub mod nats_connection_manager;
pub mod records;
pub mod registry;
