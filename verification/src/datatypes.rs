//! Plain data that the states hold and exchange.

pub mod commit;
pub mod installation;
pub mod server;
