pub mod eval;
pub mod expressions;
pub mod filter;
pub mod rewrite;
pub mod schema;
pub mod soundness;
