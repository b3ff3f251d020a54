//! Batch job dispatch for image compression: parameter records, file
//! discovery, job building, and bookkeeping of a worker pool's progress.

pub mod cspars;
pub mod dispatch;
pub mod error;
pub mod jobs;
pub mod level;
pub mod paths;
pub mod pool;
pub mod report;
pub mod scanfiles;
pub mod text;

pub use cspars::{build_parameters, CsImagePars, CsJpegPars, CsPngPars, ScaleFactor};
pub use dispatch::{DispatchError, Dispatcher, EngineOutcome, Failure, JobState};
pub use error::{BuildError, ConfigError, PathMappingError};
pub use jobs::{build_jobs, single_directory, validate_inputs, BuildPlan, Job};
pub use level::get_png_level;
pub use pool::{pool_size, worker_count};
pub use report::{report, Report};
pub use scanfiles::{is_valid, scanfiles, RootListing, WalkEntry};
