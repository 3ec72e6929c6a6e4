//! Hand-over of a file from the incoming directory to the first queue.

use vstd::prelude::*;
use vstd::string::*;
use crate::api::{ASRMessage, ASRMessageView};
use crate::layout::{audio_move, meta_move, moves, FileMove, Stage};
use crate::text::owned;

verus! {

/// The moves that take `file` and its companion from the incoming directory
/// into the working directory, where the audio gets the name `new_name`.
pub fn take_in(file: &str, new_name: &str) -> (r: (FileMove, FileMove))
    ensures
        r.0@ == audio_move(file@, new_name@, Stage::Incoming, Stage::Working),
        r.1@ == meta_move(file@, new_name@, Stage::Incoming, Stage::Working),
{
    moves(file, new_name, Stage::Incoming, Stage::Working)
}

/// A new job identifier. Wraps `ulid::Ulid::new` and `Ulid::to_string`: the
/// value depends on the clock and on chance, so all that is claimed is its
/// length of 26 characters.
#[verifier::external_body]
fn fresh_id() -> (r: String)
    ensures
        r@.len() == 26,
{
    ulid::Ulid::new().to_string()
}

/// The base directory that a message names: the server's own where one is
/// given, else the local one.
pub open spec fn message_dir(base_dir: Seq<char>, server_base_dir: Seq<char>) -> Seq<char> {
    if server_base_dir.len() == 0 {
        base_dir
    } else {
        server_base_dir
    }
}

/// The input message for `file` under the job identifier `id`.
pub fn input_message(file: &str, id: &str, base_dir: &str, server_base_dir: &str) -> (r:
    ASRMessage)
    ensures
        r@ == (ASRMessageView {
            id: id@,
            file: file@,
            base_dir: message_dir(base_dir@, server_base_dir@),
        }),
{
    let dir = if server_base_dir.unicode_len() == 0 {
        base_dir
    } else {
        server_base_dir
    };
    ASRMessage { file: owned(file), id: owned(id), base_dir: owned(dir) }
}

/// The input message for `file` under a new job identifier.
pub fn add_file(file: &str, base_dir: &str, server_base_dir: &str) -> (r: ASRMessage)
    ensures
        r.file@ == file@,
        r.base_dir@ == message_dir(base_dir@, server_base_dir@),
        r.id@.len() == 26,
{
    let id = fresh_id();
    input_message(file, id.as_str(), base_dir, server_base_dir)
}

} // verus!
