//! The payloads of the three queues.

use vstd::prelude::*;
use vstd::string::*;
use crate::text::{opt_view, owned, owned_opt};

verus! {

/// Payload of the input queue: one transcription request.
#[derive(Debug)]
pub struct ASRMessage {
    pub id: String,
    pub file: String,
    pub base_dir: String,
}

/// Payload of the result queue: how the recognition of one request ended.
#[derive(Debug)]
pub struct ResultMessage {
    pub id: String,
    pub finished: bool,
    pub file: String,
    pub base_dir: String,
    pub external_id: String,
    pub error: Option<String>,
}

/// Payload of the clean queue: the job to purge on the recognition service.
#[derive(Debug)]
pub struct CleanMessage {
    pub external_id: String,
}

/// What an input message holds, as plain sequences.
pub struct ASRMessageView {
    pub id: Seq<char>,
    pub file: Seq<char>,
    pub base_dir: Seq<char>,
}

/// What a result message holds, as plain sequences.
pub struct ResultMessageView {
    pub id: Seq<char>,
    pub finished: bool,
    pub file: Seq<char>,
    pub base_dir: Seq<char>,
    pub external_id: Seq<char>,
    pub error: Option<Seq<char>>,
}

impl View for ASRMessage {
    type V = ASRMessageView;

    open spec fn view(&self) -> ASRMessageView {
        ASRMessageView { id: self.id@, file: self.file@, base_dir: self.base_dir@ }
    }
}

impl View for ResultMessage {
    type V = ResultMessageView;

    open spec fn view(&self) -> ResultMessageView {
        ResultMessageView {
            id: self.id@,
            finished: self.finished,
            file: self.file@,
            base_dir: self.base_dir@,
            external_id: self.external_id@,
            error: opt_view(self.error),
        }
    }
}

impl View for CleanMessage {
    type V = Seq<char>;

    open spec fn view(&self) -> Seq<char> {
        self.external_id@
    }
}

impl Clone for ASRMessage {
    fn clone(&self) -> (r: Self)
        ensures
            r@ == self@,
    {
        ASRMessage {
            id: owned(self.id.as_str()),
            file: owned(self.file.as_str()),
            base_dir: owned(self.base_dir.as_str()),
        }
    }
}

impl Clone for ResultMessage {
    fn clone(&self) -> (r: Self)
        ensures
            r@ == self@,
    {
        ResultMessage {
            id: owned(self.id.as_str()),
            finished: self.finished,
            file: owned(self.file.as_str()),
            base_dir: owned(self.base_dir.as_str()),
            external_id: owned(self.external_id.as_str()),
            error: owned_opt(&self.error),
        }
    }
}

impl Clone for CleanMessage {
    fn clone(&self) -> (r: Self)
        ensures
            r@ == self@,
    {
        CleanMessage { external_id: owned(self.external_id.as_str()) }
    }
}

} // verus!
