//! The front end: it lowers the tokens of a host function to the source of a
//! builder that returns the function as a syntax tree.

pub mod condition_mapper;
pub mod error;
pub mod expression_mapper;
pub mod function_mapper;
pub mod grammar;
pub mod loop_mapper;
pub mod numbers;
pub mod statement_mapper;
pub mod token_container;
pub mod token_iterator;
