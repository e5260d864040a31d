//! The job parameter record as this core sees it: an immutable
//! identifier, a frame range, and the serialized parameter text produced
//! by the creative-parameter collaborator, carried opaquely for audit and
//! re-submission.

use vstd::prelude::*;
use vstd::string::StringExecFns;
use crate::codec::{json_i64_at, json_object_at, json_string_at};
use crate::codec::{base64_of, base64_encode, json_i64_field, json_object_field, json_string_field};
use crate::strutil::{spec_decimal, u64_to_string};

verus! {

/// Why a parameter record was rejected.
#[derive(Debug)]
pub enum ParseError {
    /// The named field is missing or holds the wrong kind of value.
    WrongType(String),
    /// The texture selector carries an index no texture answers to.
    WrongTextureIndex(u8),
    /// A field value lies outside its permitted range.
    OutOfRangeError,
}

/// Spec-level image of a ParseError.
pub enum ParseErrorView {
    WrongType(Seq<char>),
    WrongTextureIndex(int),
    OutOfRangeError,
}

impl View for ParseError {
    type V = ParseErrorView;

    open spec fn view(&self) -> ParseErrorView {
        match self {
            ParseError::WrongType(key) => ParseErrorView::WrongType(key@),
            ParseError::WrongTextureIndex(i) => ParseErrorView::WrongTextureIndex(*i as int),
            ParseError::OutOfRangeError => ParseErrorView::OutOfRangeError,
        }
    }
}

/// The message text of a ParseError.
pub open spec fn spec_error_message(e: ParseErrorView) -> Seq<char> {
    match e {
        ParseErrorView::WrongType(key) => key + " was not a number"@,
        ParseErrorView::WrongTextureIndex(i) => "unknown index texture "@ + spec_decimal(
            i as nat,
        ),
        ParseErrorView::OutOfRangeError => "value was out of range"@,
    }
}

impl ParseError {
    /// A human-readable description of the error.
    pub fn message(&self) -> (r: String)
        ensures
            r@ == spec_error_message(self@),
    {
        match self {
            ParseError::WrongType(key) => {
                let mut s = key.clone();
                s.append(" was not a number");
                s
            },
            ParseError::WrongTextureIndex(i) => {
                let mut s = String::from_str("unknown index texture ");
                let d = u64_to_string(*i as u64);
                s.append(d.as_str());
                s
            },
            ParseError::OutOfRangeError => String::from_str("value was out of range"),
        }
    }
}

/// Accepts `value` exactly when it lies in `[min, max]`.
pub fn validate_range(value: u64, min: u64, max: u64) -> (r: Result<u64, ParseError>)
    ensures
        min <= value <= max ==> (r matches Ok(v) && v == value),
        !(min <= value <= max) ==> (r matches Err(e) && e@ == ParseErrorView::OutOfRangeError),
{
    if min <= value && value <= max {
        Ok(value)
    } else {
        Err(ParseError::OutOfRangeError)
    }
}

/// How many texture selectors a parameter record may name.
pub const TEXTURE_KINDS: u8 = 7;

/// Accepts a texture selector index exactly when some texture answers
/// to it.
pub fn validate_texture_index(index: u8) -> (r: Result<u8, ParseError>)
    ensures
        index < TEXTURE_KINDS ==> (r matches Ok(v) && v == index),
        index >= TEXTURE_KINDS ==> (r matches Err(e) && e@ == ParseErrorView::WrongTextureIndex(
            index as int,
        )),
{
    if index < TEXTURE_KINDS {
        Ok(index)
    } else {
        Err(ParseError::WrongTextureIndex(index))
    }
}

/// The frame range of a job: the first and last frame to render.
pub struct FrameArgs {
    pub frame_start: u16,
    pub frame_end: u16,
}

/// The frame range held in the serialized text of a frame record, if the
/// record has both fields and each fits the frame type.
pub open spec fn spec_parse_frames(text: Seq<char>) -> Option<(int, int)> {
    match json_i64_at(text, "_frames_start"@) {
        Some(s) => if 0 <= s <= u16::MAX as int {
            match json_i64_at(text, "_frames_max"@) {
                Some(e) => if 0 <= e <= u16::MAX as int {
                    Some((s, e))
                } else {
                    None
                },
                None => None,
            }
        } else {
            None
        },
        None => None,
    }
}

/// The error reported for a frame record that does not parse.
pub open spec fn spec_frames_error(text: Seq<char>) -> ParseErrorView {
    match json_i64_at(text, "_frames_start"@) {
        Some(s) => if 0 <= s <= u16::MAX as int {
            match json_i64_at(text, "_frames_max"@) {
                Some(_) => ParseErrorView::OutOfRangeError,
                None => ParseErrorView::WrongType("_frames_max"@),
            }
        } else {
            ParseErrorView::OutOfRangeError
        },
        None => ParseErrorView::WrongType("_frames_start"@),
    }
}

impl FrameArgs {
    /// Reads a frame range from the serialized text of a frame record.
    pub fn from_json(text: &str) -> (r: Result<FrameArgs, ParseError>)
        ensures
            r matches Ok(f) ==> spec_parse_frames(text@) == Some(
                (f.frame_start as int, f.frame_end as int),
            ),
            r is Ok <==> spec_parse_frames(text@) is Some,
            r matches Err(e) ==> e@ == spec_frames_error(text@),
    {
        let start = match json_i64_field(text, "_frames_start") {
            Some(v) => v,
            None => {
                return Err(ParseError::WrongType(String::from_str("_frames_start")));
            },
        };
        if !(0 <= start && start <= u16::MAX as i64) {
            return Err(ParseError::OutOfRangeError);
        }
        let end = match json_i64_field(text, "_frames_max") {
            Some(v) => v,
            None => {
                return Err(ParseError::WrongType(String::from_str("_frames_max")));
            },
        };
        if !(0 <= end && end <= u16::MAX as i64) {
            return Err(ParseError::OutOfRangeError);
        }
        Ok(FrameArgs { frame_start: start as u16, frame_end: end as u16 })
    }
}

impl Default for FrameArgs {
    /// The range rendered when a job does not choose one.
    fn default() -> (r: Self)
        ensures
            r.frame_start == 1,
            r.frame_end == 300,
    {
        FrameArgs { frame_start: 1, frame_end: 300 }
    }
}

/// An image-backed texture selection; the only selector whose data this
/// core can hold exactly.
pub struct TexturedArgs {
    pub file_path: String,
}

impl TexturedArgs {
    /// A fresh selection with the placeholder source path.
    pub fn random() -> (r: Self)
        ensures
            r.file_path@ == "path goes here"@,
    {
        TexturedArgs { file_path: String::from_str("path goes here") }
    }
}

/// Where a run places its job directories.
pub struct OutputArgs {
    pub output_dir: String,
}

/// Spec-level image of a job parameter record.
pub struct KaleidoArgsView {
    pub id: Seq<char>,
    pub frame_start: int,
    pub frame_end: int,
    pub params: Seq<char>,
}

/// One job's parameters: the identifier and frame range this core reads,
/// and the full serialized record, kept verbatim.
pub struct KaleidoArgs {
    id: String,
    frames: FrameArgs,
    params: String,
}

impl View for KaleidoArgs {
    type V = KaleidoArgsView;

    closed spec fn view(&self) -> KaleidoArgsView {
        KaleidoArgsView {
            id: self.id@,
            frame_start: self.frames.frame_start as int,
            frame_end: self.frames.frame_end as int,
            params: self.params@,
        }
    }
}

/// The job a serialized parameter record describes, if the record parses:
/// its identifier, its frame range, and the record itself kept verbatim.
pub open spec fn spec_from_json(text: Seq<char>) -> Option<KaleidoArgsView> {
    match json_string_at(text, "id"@) {
        Some(id) => match json_object_at(text, "frames"@) {
            Some(ft) => match spec_parse_frames(ft) {
                Some((s, e)) => Some(
                    KaleidoArgsView { id: id, frame_start: s, frame_end: e, params: text },
                ),
                None => None,
            },
            None => None,
        },
        None => None,
    }
}

/// The error reported for a parameter record that does not parse.
pub open spec fn spec_from_json_error(text: Seq<char>) -> ParseErrorView {
    match json_string_at(text, "id"@) {
        Some(_) => match json_object_at(text, "frames"@) {
            Some(ft) => spec_frames_error(ft),
            None => ParseErrorView::WrongType("frames"@),
        },
        None => ParseErrorView::WrongType("id"@),
    }
}

impl KaleidoArgs {
    /// Assembles a job record from its parts; the serialized text is
    /// carried verbatim.
    pub fn new(id: String, frames: FrameArgs, params: String) -> (r: Self)
        ensures
            r@ == (KaleidoArgsView {
                id: id@,
                frame_start: frames.frame_start as int,
                frame_end: frames.frame_end as int,
                params: params@,
            }),
    {
        KaleidoArgs { id, frames, params }
    }

    /// Reads a job record back from serialized parameter text, as when a
    /// previously registered job is fetched for execution.
    pub fn from_json(text: &str) -> (r: Result<KaleidoArgs, ParseError>)
        ensures
            r matches Ok(j) ==> spec_from_json(text@) == Some(j@),
            r is Ok <==> spec_from_json(text@) is Some,
            r matches Err(e) ==> e@ == spec_from_json_error(text@),
    {
        let id = match json_string_field(text, "id") {
            Some(v) => v,
            None => {
                return Err(ParseError::WrongType(String::from_str("id")));
            },
        };
        let frames_text = match json_object_field(text, "frames") {
            Some(v) => v,
            None => {
                return Err(ParseError::WrongType(String::from_str("frames")));
            },
        };
        let frames = match FrameArgs::from_json(frames_text.as_str()) {
            Ok(f) => f,
            Err(e) => {
                return Err(e);
            },
        };
        Ok(KaleidoArgs { id, frames, params: text.to_owned() })
    }

    /// The base64 payload appended to the renderer invocation, through
    /// which the loader receives the parameters in-band.
    pub fn base64(&self) -> (r: String)
        requires
            self@.params.len() < usize::MAX as int / 16,
        ensures
            r@ == base64_of(self@.params),
    {
        base64_encode(self.params.as_str())
    }

    /// The job's immutable identifier.
    pub fn get_id(&self) -> (r: String)
        ensures
            r@ == self@.id,
    {
        self.id.clone()
    }

    /// The first frame of the job's range.
    pub fn get_start_frame(&self) -> (r: u16)
        ensures
            r as int == self@.frame_start,
    {
        self.frames.frame_start
    }

    /// The last frame of the job's range.
    pub fn get_end_frame(&self) -> (r: u16)
        ensures
            r as int == self@.frame_end,
    {
        self.frames.frame_end
    }

    /// The serialized parameter record, verbatim.
    pub fn parameters_text(&self) -> (r: &String)
        ensures
            r@ == self@.params,
    {
        &self.params
    }

    /// The serialized parameter record, surrendered.
    pub fn into_parameters_text(self) -> (r: String)
        ensures
            r@ == self@.params,
    {
        self.params
    }

    /// An equal copy of this record.
    pub fn clone_args(&self) -> (r: Self)
        ensures
            r@ == self@,
    {
        KaleidoArgs {
            id: self.id.clone(),
            frames: FrameArgs {
                frame_start: self.frames.frame_start,
                frame_end: self.frames.frame_end,
            },
            params: self.params.clone(),
        }
    }
}

/// The parameters file of a job holds its serialized parameter record,
/// verbatim.
pub open spec fn spec_parameters_file(job: KaleidoArgsView) -> Seq<char> {
    job.params
}

/// A parameter record written to the parameters file and read back
/// describes the same job: deserializing the file contents of any job
/// that itself came from parameter text returns that job unchanged.
pub proof fn lemma_parameters_round_trip(text: Seq<char>)
    ensures
        spec_from_json(text) matches Some(job) ==> spec_parameters_file(job) == text
            && spec_from_json(spec_parameters_file(job)) == Some(job),
{
}

} // verus!
