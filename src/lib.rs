// A chat backend: users sign up and log in, open chats with one another and
// exchange texts, all kept in one document store.
pub mod ids;
pub mod laws;
pub mod model;
pub mod repository;
pub mod service;
