//! Streaming TrendFlex oscillator over IEEE-754 binary64 bit patterns.
//!
//! Sample values are carried as the `u64` bit patterns of binary64 numbers,
//! which keeps every state transition of the indicator inside verified code;
//! the floating-point arithmetic of each step is performed by the caller and
//! handed back through [`trend_flex::TrendFlex::finish_update`].

pub mod transform;
pub mod trend_flex;
