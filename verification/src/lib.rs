//! Static analysis of game script definitions: scope-type inference and
//! recursive validation of scripted expressions over a source-located
//! key/value tree.

pub mod block;
pub mod cache;
pub mod catalog;
pub mod chain;
pub mod context;
pub mod data;
pub mod date;
pub mod db;
pub mod desc;
pub mod everything;
pub mod expression;
pub mod helpers;
pub mod index;
pub mod item;
pub mod modif;
pub mod report;
pub mod scopes;
pub mod token;
pub mod validate;
pub mod validator;
