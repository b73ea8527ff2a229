//! Confidence intervals for a binomial proportion.
//!
//! A [`Sample`] holds a number of trials and what was observed in them,
//! either a number of successes or a proportion. From a sample and a
//! z-score the traits [`Wald`], [`WilsonScore`] and [`AgrestiCoull`] compute
//! an interval, in centre form ([`CenteredInterval`]) or in bound form
//! ([`BoundedInterval`]).
//!
//! Real numbers are held as [`Decimal`]: a checked fixed-point number with
//! nine fractional digits. Each part of an estimate is the exact value of
//! its formula, computed in whole numbers and rounded once: means and
//! margins toward zero, lower bounds down, upper bounds up. Where an
//! estimate does not exist, as for a sample of no trials or a z-score of a
//! magnitude beyond one hundred thousand, the result is [`Decimal::Nan`].
//! No operation fails or panics.

pub mod count;
pub mod decimal;
pub mod error;
pub mod interval;
pub mod math;
pub mod proportion;
pub mod sample;
pub mod text;
pub mod wide;

pub use self::count::Count;
pub use self::decimal::Decimal;
pub use self::error::Error;
pub use self::interval::{
    BoundedInterval, CenteredInterval, Interval, LowerUpperInterval, MeanMarginInterval,
};
pub use self::math::{AgrestiCoull, Wald, WilsonScore};
pub use self::proportion::Proportion;
pub use self::sample::{NSuccessesSample, PHatSample, ProportionSample, Sample};
