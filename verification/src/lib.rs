//! A small imperative-language interpreter with machine-checked loop contracts,
//! together with the front end that lowers host syntax into its syntax tree.
//!
//! - [`expressions`] holds the syntax tree and, for every kind of node, its
//!   meaning as a function of the environment and the executor that is proved
//!   to compute that meaning. The meaning takes an amount of fuel, which
//!   bounds the iterations of any one `while` loop and the nesting of contract
//!   conditions; [`expressions::fuel`] proves that a larger amount changes
//!   nothing where a smaller one suffices, and [`expressions::scoping`] what
//!   every evaluation keeps of the environment.
//! - [`interpreter`] holds the environment, a stack of frames with the
//!   contract table of the function that runs, the failures of an evaluation,
//!   and the entry points.
//! - [`lowering`] holds the grammar of the subset of host syntax that can be
//!   lowered, and the recursive-descent transformer that is proved to follow
//!   it: from the tokens of a function item to the source of a builder
//!   procedure that returns the function as a syntax tree.

pub mod expressions;
pub mod interpreter;
pub mod lowering;
pub mod text;

pub use expressions::functions::Function;
pub use expressions::Expression;
pub use interpreter::Interpreter;
