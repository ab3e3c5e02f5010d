//! A small course catalogue service: domain records, the error taxonomy,
//! the data-access rules over a course table, request handling and the
//! route table, each with its contract proved.

pub mod models;
pub mod error;
pub mod db_access;
pub mod handlers;
pub mod routers;
