//! Staged, queue-driven audio transcription: the rules of the three workers,
//! the naming of files in the stage directories, and the client-side policy
//! for talking to the recognition service.

use vstd::prelude::*;

pub mod adder;
pub mod api;
pub mod clean_worker;
pub mod client;
pub mod filer;
pub mod ingest;
pub mod layout;
pub mod name_laws;
pub mod names;
pub mod queue;
pub mod res_worker;
pub mod store;
pub mod text;
pub mod worker;

verus! {

/// Queue that carries new transcription requests.
pub const INPUT_QUEUE: &'static str = "asr_input";

/// Queue that carries the outcome of a recognition job.
pub const RESULT_QUEUE: &'static str = "asr_result";

/// Queue that carries requests to purge a job on the recognition service.
pub const CLEAN_QUEUE: &'static str = "asr_clean";

/// Stage directory of files that were received and not yet queued.
pub const DIR_INCOMING: &'static str = "incoming";

/// Stage directory of files that are being recognised.
pub const DIR_WORKING: &'static str = "working";

/// Stage directory of files whose recognition succeeded.
pub const DIR_PROCESSED: &'static str = "processed";

/// Stage directory of files whose recognition failed.
pub const DIR_FAILED: &'static str = "failed";

/// Extension of the companion metadata file.
pub const INFO_EXTENSION: &'static str = ".meta";

/// Name of the transcript on the recognition service.
pub const ASR_FILE_RES: &'static str = "resultFinal.txt";

/// Name of the auxiliary result on the recognition service.
pub const ASR_FILE_LAT: &'static str = "lat.restored.txt";

} // verus!
