//! A verified autograder core: exact fixed-precision grading arithmetic,
//! a staged test pipeline with point accounting, supervised subprocess
//! command descriptions, a structured feedback document with a proven
//! renderer, and the decision rules of each grading stage. Everything
//! here is specified and checked with Verus; the thin shell that performs
//! file and process I/O lives outside and feeds these functions their
//! inputs.

pub mod config;
pub mod finder;
pub mod formatter;
pub mod fs;
pub mod genos;
pub mod gs;
pub mod output;
pub mod points;
pub mod process;
pub mod render;
pub mod score;
pub mod stage;
pub mod strutil;
pub mod test;
pub mod tid;
pub mod writer;

pub use formatter::Formatter;
pub use output::{Content, Output, RichText, Section, Status, StatusUpdates, Update};
pub use points::PointQuantity;
pub use points::Points;
pub use process::{Command, ExitStatus, ProcessOutput, SignalType, StdinPipe};
pub use score::Score;
pub use stage::{StageResult, StageStatus};
pub use tid::TestId;

