pub mod comments;
pub mod issue;
pub mod issues;
pub mod notifications;
pub mod projects;
pub mod repositories;
pub mod roles;
pub mod subscriptions;
pub mod tasks;
pub mod teams;
pub mod users;
pub mod health;
pub mod languages;
