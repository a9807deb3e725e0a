pub mod route;
pub mod srv;
pub mod addr;
pub mod discovery;
pub mod resolver;
