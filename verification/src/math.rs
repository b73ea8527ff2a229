//! The interval estimates.

pub mod agresti_coull;
pub mod lemmas;

pub mod range;
pub mod wald;
pub mod wilson_score;

pub use self::agresti_coull::AgrestiCoull;
pub use self::wald::Wald;
pub use self::wilson_score::WilsonScore;
