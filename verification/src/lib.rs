//! Request validation for a user-creation endpoint: a payload that has been
//! read from a request body is held to its declared field rules, and every
//! failure on the way is classified and rendered as a status code and a body.

pub mod app_error;
pub mod rules;
pub mod user_post;
pub mod validated_json;
