//! The solver registry and the matching of quotes to orders: solvers
//! register and open pools, users ask for quotes, a solver answers a pending
//! request, which consumes it, and the order made from the quote is later
//! reported as filled by the solver it was given to.
//!
//! `records` holds the data, `rules` says what each operation answers and
//! changes, `contract` holds the operations themselves.

pub mod contract;
pub mod records;
pub mod rules;

pub use self::contract::FusionSolver;
pub use self::records::{
    ChainSignature,
    FusionOrder,
    OrderStatus,
    QuoteRequest,
    QuoteResponse,
    Solver,
    SolverPool,
};
