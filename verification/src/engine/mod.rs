pub mod capabilities;
pub mod smtp_server;
pub mod extractor;
pub mod parser;
pub mod tasks;
pub mod outbound;
pub mod imap_sync;
