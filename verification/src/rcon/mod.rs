pub mod client;
pub mod packet;
