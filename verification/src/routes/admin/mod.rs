pub mod logout;
pub mod newsletters;
pub mod password;
