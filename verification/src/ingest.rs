//! Rules of the ingest endpoint: which uploads are accepted, and what is
//! written beside the audio.

use vstd::prelude::*;
use vstd::string::*;
use crate::layout::{FileText, Stage, TextView};
use crate::names::{extension, extension_of, make_name, replace_ext};
use crate::text::owned;

verus! {

/// Largest body of an upload that is taken, in bytes.
pub const BODY_LIMIT_BYTES: usize = 524_288_000;

/// Seconds after which a request is given up.
pub const REQUEST_TIMEOUT_SECS: u64 = 40;

/// Why a request is refused, or failed.
#[derive(Debug)]
pub enum ApiError {
    /// The request is wrong: what is told to the caller, and the details.
    BadRequest(String, String),
    /// The server failed.
    Server(String),
    /// Any other failure, by its text.
    Other(String),
}

impl ApiError {
    /// The error as a line of text.
    pub fn message(&self) -> (r: String)
        ensures
            match *self {
                ApiError::BadRequest(m, d) => r@ == "bad request: "@ + m@ + ", details: "@ + d@,
                ApiError::Server(m) => r@ == "Server error: "@ + m@ + "`"@,
                ApiError::Other(m) => r@ == m@,
            },
    {
        match self {
            ApiError::BadRequest(m, d) => {
                let mut r = owned("bad request: ");
                r.append(m.as_str());
                r.append(", details: ");
                r.append(d.as_str());
                r
            },
            ApiError::Server(m) => {
                let mut r = owned("Server error: ");
                r.append(m.as_str());
                r.append("`");
                r
            },
            ApiError::Other(m) => owned(m.as_str()),
        }
    }

    /// The answer that the caller gets: a wrong request is answered with 400
    /// and what is wrong with it, every other failure with 500 and no detail.
    pub fn into_response(self) -> (r: (u16, String))
        ensures
            match self {
                ApiError::BadRequest(m, _) => r.0 == 400 && r.1@ == m@,
                _ => r.0 == 500 && r.1@ == "Internal Server Error"@,
            },
    {
        match self {
            ApiError::BadRequest(m, _) => (400, m),
            _ => (500, owned("Internal Server Error")),
        }
    }
}

/// A wrong request, with the failure that showed it as its details.
pub fn as_bad_request(msg: &str, err: &str) -> (r: ApiError)
    ensures
        r is BadRequest,
        r->BadRequest_0@ == msg@,
        r->BadRequest_1@ == err@,
{
    ApiError::BadRequest(owned(msg), owned(err))
}

/// A wrong request that is told to the caller as `err`, without details.
pub fn err_bad_request(err: &str) -> (r: ApiError)
    ensures
        r is BadRequest,
        r->BadRequest_0@ == err@,
        r->BadRequest_1@.len() == 0,
{
    ApiError::BadRequest(owned(err), String::new())
}

/// The answer to an accepted upload: the name under which the file is kept.
#[derive(Debug)]
pub struct UploadResult {
    pub id: String,
}

/// The answer of the liveness check.
#[derive(Debug)]
pub struct LiveResult {
    pub success: bool,
    pub version: String,
}

/// The answer of the liveness check of a service of this version.
pub fn live(version: &str) -> (r: LiveResult)
    ensures
        r.success,
        r.version@ == version@,
{
    LiveResult { success: true, version: owned(version) }
}

/// Whether `e` is `mp3`, `wav` or `m4a`, in upper or lower case.
pub open spec fn is_audio_ext(e: Seq<char>) -> bool {
    &&& e.len() == 3
    &&& {
        ||| (e[0] == 'm' || e[0] == 'M') && (e[1] == 'p' || e[1] == 'P') && e[2] == '3'
        ||| (e[0] == 'w' || e[0] == 'W') && (e[1] == 'a' || e[1] == 'A') && (e[2] == 'v' || e[2]
            == 'V')
        ||| (e[0] == 'm' || e[0] == 'M') && e[1] == '4' && (e[2] == 'a' || e[2] == 'A')
    }
}

/// Whether a file of this name is taken for audio: by its extension.
pub open spec fn is_audio_name(name: Seq<char>) -> bool {
    extension_of(name) is Some && is_audio_ext(extension_of(name)->0)
}

/// Tells whether a file of this name is taken for audio.
pub fn is_audio(f_name: &str) -> (r: bool)
    ensures
        r == is_audio_name(f_name@),
{
    match extension(f_name) {
        None => false,
        Some(ext) => {
            let e = ext.as_str();
            if e.unicode_len() != 3 {
                return false;
            }
            let a = e.get_char(0);
            let b = e.get_char(1);
            let c = e.get_char(2);
            ((a == 'm' || a == 'M') && (b == 'p' || b == 'P') && c == '3') || ((a == 'w' || a
                == 'W') && (b == 'a' || b == 'A') && (c == 'v' || c == 'V')) || ((a == 'm' || a
                == 'M') && b == '4' && (c == 'a' || c == 'A'))
        },
    }
}

/// Accepts the name of an uploaded file only where it is taken for audio.
pub fn validate_name(f_name: &str) -> (r: Result<(), String>)
    ensures
        is_audio_name(f_name@) ==> r is Ok,
        !is_audio_name(f_name@) ==> r is Err && r->Err_0@ == "audio expected"@,
{
    if is_audio(f_name) {
        Ok(())
    } else {
        Err(owned("audio expected"))
    }
}

/// The value of the form field `key`: of the last one, where several fields
/// have that name.
pub open spec fn value_of(fields: Seq<(Seq<char>, Seq<char>)>, key: Seq<char>) -> Option<
    Seq<char>,
>
    decreases fields.len(),
{
    if fields.len() == 0 {
        None
    } else if fields.last().0 == key {
        Some(fields.last().1)
    } else {
        value_of(fields.drop_last(), key)
    }
}

/// The fields of a form as plain values: name and value of each.
pub open spec fn pairs(fields: Seq<(String, String)>) -> Seq<(Seq<char>, Seq<char>)> {
    fields.map_values(|p: (String, String)| (p.0@, p.1@))
}

/// The value of the form field `key`, or the empty text.
pub open spec fn text_of(fields: Seq<(Seq<char>, Seq<char>)>, key: Seq<char>) -> Seq<char> {
    match value_of(fields, key) {
        Some(v) => v,
        None => Seq::empty(),
    }
}

/// Looks up the form field `key`.
pub fn lookup<'a>(fields: &'a Vec<(String, String)>, key: &str) -> (r: Option<&'a str>)
    ensures
        match r {
            Some(v) => value_of(pairs(fields@), key@) == Some(v@),
            None => value_of(pairs(fields@), key@) is None,
        },
{
    let mut found: Option<&'a str> = None;
    let mut i: usize = 0;
    while i < fields.len()
        invariant
            i <= fields.len(),
            match found {
                Some(v) => value_of(pairs(fields@).subrange(0, i as int), key@) == Some(v@),
                None => value_of(pairs(fields@).subrange(0, i as int), key@) is None,
            },
        decreases fields.len() - i,
    {
        proof {
            assert(pairs(fields@).subrange(0, i + 1).drop_last() == pairs(fields@).subrange(
                0,
                i as int,
            ));
        }
        if crate::text::same_text(fields[i].0.as_str(), key) {
            found = Some(fields[i].1.as_str());
        }
        i = i + 1;
    }
    proof {
        assert(pairs(fields@).subrange(0, fields.len() as int) == pairs(fields@));
    }
    found
}

/// Looks up the form field `key`, and gives the empty text where it is missing.
pub fn lookup_text<'a>(fields: &'a Vec<(String, String)>, key: &str) -> (r: &'a str)
    ensures
        r@ == text_of(pairs(fields@), key@),
{
    match lookup(fields, key) {
        Some(v) => v,
        None => {
            proof {
                reveal_strlit("");
                assert(""@ =~= Seq::<char>::empty());
            }
            ""
        },
    }
}

/// What is wrong with the fields of an upload: the first of name, surname,
/// office and speakers that is missing or empty.
pub open spec fn first_fault(fields: Seq<(Seq<char>, Seq<char>)>) -> Option<Seq<char>> {
    if text_of(fields, "name"@).len() == 0 {
        Some("no name"@)
    } else if text_of(fields, "surname"@).len() == 0 {
        Some("no surname"@)
    } else if text_of(fields, "office"@).len() == 0 {
        Some("no office"@)
    } else if text_of(fields, "speakers"@).len() == 0 {
        Some("no speakers"@)
    } else {
        None
    }
}

/// Checks that an upload names who sent it: name, surname, office and the
/// number of speakers have to be there and not empty.
pub fn validate(fields: &Vec<(String, String)>) -> (r: Result<(), String>)
    ensures
        match first_fault(pairs(fields@)) {
            Some(text) => r is Err && r->Err_0@ == text,
            None => r is Ok,
        },
{
    if lookup_text(fields, "name").unicode_len() == 0 {
        return Err(owned("no name"));
    }
    if lookup_text(fields, "surname").unicode_len() == 0 {
        return Err(owned("no surname"));
    }
    if lookup_text(fields, "office").unicode_len() == 0 {
        return Err(owned("no office"));
    }
    if lookup_text(fields, "speakers").unicode_len() == 0 {
        return Err(owned("no speakers"));
    }
    Ok(())
}

/// The content of the companion file of an upload.
pub open spec fn meta_text(fields: Seq<(Seq<char>, Seq<char>)>) -> Seq<char> {
    "File     : "@ + text_of(fields, "file"@) + "\n"@ + "Time     : "@ + text_of(fields, "time"@)
        + "\n"@ + "Name     : "@ + text_of(fields, "name"@) + " "@ + text_of(fields, "surname"@)
        + "\n"@ + "Office   : "@ + text_of(fields, "office"@) + "\n"@ + "Speakers : "@ + text_of(
        fields,
        "speakers"@,
    ) + "\n"@
}

/// Writes the companion file of an upload: file, time, sender, office and
/// speakers, a line each.
pub fn make_data(fields: &Vec<(String, String)>) -> (r: String)
    ensures
        r@ == meta_text(pairs(fields@)),
{
    let mut r = owned("File     : ");
    r.append(lookup_text(fields, "file"));
    r.append("\n");
    r.append("Time     : ");
    r.append(lookup_text(fields, "time"));
    r.append("\n");
    r.append("Name     : ");
    r.append(lookup_text(fields, "name"));
    r.append(" ");
    r.append(lookup_text(fields, "surname"));
    r.append("\n");
    r.append("Office   : ");
    r.append(lookup_text(fields, "office"));
    r.append("\n");
    r.append("Speakers : ");
    r.append(lookup_text(fields, "speakers"));
    r.append("\n");
    r
}

/// The fields of an upload with the name of the kept file and the time of
/// its arrival added.
pub open spec fn stamped(fields: Seq<(Seq<char>, Seq<char>)>, file: Seq<char>, time: Seq<char>) -> Seq<
    (Seq<char>, Seq<char>),
> {
    fields.push(("file"@, file)).push(("time"@, time))
}

/// The local time, written as `format` says. Wraps `chrono::Local::now` and
/// `DateTime::format`; the value depends on the clock and the time zone, so
/// nothing is claimed of it. The one format that is admitted is known to be
/// well formed.
#[verifier::external_body]
fn local_time(format: &str) -> (r: String)
    requires
        format@ == "%Y-%m-%d %H:%M:%S"@,
{
    chrono::Local::now().format(format).to_string()
}

/// End of an upload that arrived now: as `finish_upload_at`, with the local
/// time as the time of arrival.
pub fn finish_upload(fields: Vec<(String, String)>, saved_file: Option<String>) -> (r: Result<
    (UploadResult, FileText),
    ApiError,
>)
    ensures
        saved_file is None ==> r is Err && r->Err_0 is BadRequest && r->Err_0->BadRequest_0@
            == "no file"@ && r->Err_0->BadRequest_1@ == "no file"@,
        saved_file is Some && first_fault(pairs(fields@)) is Some ==> r is Err && r->Err_0 is BadRequest
            && r->Err_0->BadRequest_0@ == first_fault(pairs(fields@))->0
            && r->Err_0->BadRequest_1@.len() == 0,
        saved_file is Some && first_fault(pairs(fields@)) is None ==> r is Ok && r->Ok_0.0.id@
            == saved_file->0@ && r->Ok_0.1.name@ == replace_ext(saved_file->0@, ".meta"@)
            && r->Ok_0.1.stage == Stage::Incoming && exists|time: Seq<char>|
            r->Ok_0.1.content@ == meta_text(
                stamped(pairs(fields@), saved_file->0@, time),
            ),
{
    let time = local_time("%Y-%m-%d %H:%M:%S");
    finish_upload_at(fields, saved_file, time.as_str())
}

/// End of an upload. Without a file the request is wrong; so it is where the
/// sender's fields are not complete. Else the companion file is written into
/// the incoming directory beside the audio, which was kept as `saved_file`,
/// and that name is the answer.
pub fn finish_upload_at(fields: Vec<(String, String)>, saved_file: Option<String>, time: &str) -> (r:
    Result<(UploadResult, FileText), ApiError>)
    ensures
        saved_file is None ==> r is Err && r->Err_0 is BadRequest && r->Err_0->BadRequest_0@
            == "no file"@ && r->Err_0->BadRequest_1@ == "no file"@,
        saved_file is Some && first_fault(pairs(fields@)) is Some ==> r is Err && r->Err_0 is BadRequest
            && r->Err_0->BadRequest_0@ == first_fault(pairs(fields@))->0
            && r->Err_0->BadRequest_1@.len() == 0,
        saved_file is Some && first_fault(pairs(fields@)) is None ==> r is Ok && r->Ok_0.0.id@
            == saved_file->0@ && r->Ok_0.1@ == (TextView {
            name: replace_ext(saved_file->0@, ".meta"@),
            stage: Stage::Incoming,
            content: meta_text(stamped(pairs(fields@), saved_file->0@, time@)),
        }),
{
    match saved_file {
        None => Err(as_bad_request("no file", "no file")),
        Some(file) => {
            match validate(&fields) {
                Err(text) => Err(err_bad_request(text.as_str())),
                Ok(()) => {
                    let ghost before = pairs(fields@);
                    let mut all = fields;
                    all.push((owned("file"), owned(file.as_str())));
                    all.push((owned("time"), owned(time)));
                    proof {
                        assert(pairs(all@) =~= stamped(before, file@, time@));
                    }
                    let content = make_data(&all);
                    let meta = FileText {
                        name: make_name(file.as_str(), crate::INFO_EXTENSION),
                        stage: Stage::Incoming,
                        content,
                    };
                    Ok((UploadResult { id: file }, meta))
                },
            }
        },
    }
}

} // verus!
