pub mod autoconfig;
pub mod email;
pub mod login;
pub mod views;
