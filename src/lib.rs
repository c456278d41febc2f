//! Bounded-concurrency episode fetching: extension resolution, file naming,
//! retry budgets, outcome messages and batch aggregation, plus the layout
//! arithmetic of the terminal panels that report on them.

pub mod text;
pub mod downloads;
pub mod batch;
pub mod ui;
