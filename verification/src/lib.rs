//! The data layer of a small blog: users write posts, publish them, and
//! comment on posts.
//!
//! [`store::Store`] is the relational store, [`models`] holds the rows and the
//! repository operations on a store, [`associations`] regroups child rows
//! under their parents, and [`errors`] is the error taxonomy that callers see.
//! Every operation carries a contract over [`relation::StoreView`], the
//! mathematical model of a store's three tables, and [`theorems`] proves what
//! holds of the operations on every well-formed store.

pub mod associations;
pub mod errors;
pub mod models;
pub mod relation;
pub mod store;
pub mod theorems;
