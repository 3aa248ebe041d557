//! Rule checks over an introspected API-description tree: every class,
//! method, parameter and property is held to a fixed set of documentation
//! and accessor-consistency rules, and the findings come back as one
//! severity-ranked list of warnings.
pub mod checker;
pub mod class;
pub mod driver;
pub mod entities;
pub mod laws;
pub mod method;
pub mod parameter;
pub mod property;
pub mod sorting;
pub mod warning;
