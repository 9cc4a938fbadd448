//! Client-side logic of a todo web application: the backend's endpoints,
//! the session and its effects, the sign-in and todo workflows as state
//! machines, and the text shown on the pages.

pub mod account;
pub mod api;
pub mod channel;
pub mod datetime;
pub mod decimal;
pub mod login;
pub mod modal;
pub mod pages;
pub mod session;
pub mod todos;
