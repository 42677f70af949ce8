//! The print step: where the document is opened, what a print response must
//! look like, and where the decoded bytes go.
use vstd::prelude::*;
use crate::external::{base64_decoded, decode_standard_base64, path_with_extension, with_extension};
use std::collections::VecDeque;
use vstd::string::is_ascii;
use vstd::utf8::is_ascii_chars;

verus! {

/// The shape of a JSON value, as far as a print response is concerned.
#[derive(Debug, Clone, Copy, PartialEq, Eq)]
pub enum ResponseShape {
    Text,
    Null,
    Bool,
    Number,
    Array,
    Object,
}

/// The value the print command answered with. Only text is valid: it holds
/// the document as base64.
#[derive(Debug, Clone)]
pub enum PrintResponse {
    Text(String),
    Null,
    Bool,
    Number,
    Array,
    Object,
}

impl PrintResponse {
    pub open spec fn shape(&self) -> ResponseShape {
        match self {
            PrintResponse::Text(_) => ResponseShape::Text,
            PrintResponse::Null => ResponseShape::Null,
            PrintResponse::Bool => ResponseShape::Bool,
            PrintResponse::Number => ResponseShape::Number,
            PrintResponse::Array => ResponseShape::Array,
            PrintResponse::Object => ResponseShape::Object,
        }
    }
}

/// Why a conversion failed. Each kind ends the run; nothing is retried.
#[derive(Debug)]
pub enum ConversionError {
    /// The protocol server could not be started.
    Spawn,
    /// No session could be negotiated with the server.
    Connect,
    /// The document could not be opened.
    Navigate,
    /// The print command failed.
    Print,
    /// The print command answered with something other than text.
    UnexpectedResponseShape(ResponseShape),
    /// The text of the answer is not valid base64.
    Decode(base64::DecodeError),
    /// The destination could not be opened or written.
    Sink,
}

/// Where the decoded document goes.
#[derive(Debug, Clone, PartialEq, Eq)]
pub enum Destination {
    File(String),
    Stdout,
}

/// The destination for `source`: an explicit output path wins; else, when
/// asked to, the source path with its extension replaced by `pdf`; else
/// standard output.
pub open spec fn destination_for(source: Seq<char>, out_file: Option<Seq<char>>, update_extension: bool) -> Option<Seq<char>> {
    match out_file {
        Some(p) => Some(p),
        None => if update_extension { Some(path_with_extension(source, "pdf"@)) } else { None },
    }
}

impl Destination {
    /// The path written to, or `None` for standard output.
    pub open spec fn path(&self) -> Option<Seq<char>> {
        match self {
            Destination::File(p) => Some(p@),
            Destination::Stdout => None,
        }
    }
}

/// Resolves the destination once, from the command-line choices.
pub fn resolve_destination(source: &str, out_file: Option<String>, update_extension: bool) -> (r: Destination)
    ensures
        r.path() == destination_for(source@, match out_file { Some(p) => Some(p@), None => None }, update_extension),
{
    match out_file {
        Some(p) => Destination::File(p),
        None => {
            if update_extension {
                let ext = "pdf";
                proof {
                    reveal_strlit("pdf");
                    assert(!ext@.contains('/')) by {
                        assert(ext@[0] != '/' && ext@[1] != '/' && ext@[2] != '/');
                    }
                }
                Destination::File(with_extension(source, ext))
            } else {
                Destination::Stdout
            }
        },
    }
}

/// The first choice that is made wins: an explicit path over a derived one,
/// and either over standard output.
pub proof fn lemma_destination_precedence(source: Seq<char>, out_file: Option<Seq<char>>, update_extension: bool)
    ensures
        out_file is Some ==> destination_for(source, out_file, update_extension) == out_file,
        out_file is None && update_extension ==> destination_for(source, out_file, update_extension)
            == Some(path_with_extension(source, "pdf"@)),
        out_file is None && !update_extension ==> destination_for(source, out_file, update_extension) is None,
{
}

/// Whether `path` is absolute: it starts at the root.
pub open spec fn is_absolute_path(path: Seq<char>) -> bool {
    path.len() > 0 && path[0] == '/'
}

/// The URI the browser opens for the document at the absolute path `source`.
pub fn file_uri(source: &str) -> (r: String)
    requires
        is_absolute_path(source@),
    ensures
        r@ == "file://"@ + source@,
{
    let mut out = String::from_str("file://");
    out.append(source);
    out
}

/// The base64 text of a print response; any other shape is refused, with the
/// shape received.
pub fn payload_text(response: PrintResponse) -> (r: Result<String, ConversionError>)
    ensures
        match response {
            PrintResponse::Text(s) => r == Ok::<String, ConversionError>(s),
            _ => r matches Err(ConversionError::UnexpectedResponseShape(k)) && k == response.shape(),
        },
{
    match response {
        PrintResponse::Text(s) => Ok(s),
        PrintResponse::Null => Err(ConversionError::UnexpectedResponseShape(ResponseShape::Null)),
        PrintResponse::Bool => Err(ConversionError::UnexpectedResponseShape(ResponseShape::Bool)),
        PrintResponse::Number => Err(ConversionError::UnexpectedResponseShape(ResponseShape::Number)),
        PrintResponse::Array => Err(ConversionError::UnexpectedResponseShape(ResponseShape::Array)),
        PrintResponse::Object => Err(ConversionError::UnexpectedResponseShape(ResponseShape::Object)),
    }
}

/// How many characters of base64 text are decoded at a time. A multiple of
/// four, so that no piece but the last can hold padding.
pub const DECODE_CHUNK: usize = 4096;

/// `text` cut into pieces of `DECODE_CHUNK` characters, the last one shorter
/// or equal; empty text is one empty piece.
pub open spec fn chunks_of(text: Seq<char>) -> Seq<Seq<char>>
    decreases text.len(),
{
    if text.len() <= DECODE_CHUNK {
        seq![text]
    } else {
        seq![text.take(DECODE_CHUNK as int)] + chunks_of(text.skip(DECODE_CHUNK as int))
    }
}

/// The pieces a payload is decoded in. Text that is not ASCII cannot be
/// base64 and is handed on whole, to be refused by the decoder.
pub open spec fn decode_pieces(text: Seq<char>) -> Seq<Seq<char>> {
    if is_ascii_chars(text) { chunks_of(text) } else { seq![text] }
}

/// Every payload is decoded in at least one piece.
pub proof fn lemma_decode_pieces_nonempty(text: Seq<char>)
    ensures
        decode_pieces(text).len() >= 1,
{
    if is_ascii_chars(text) && text.len() > DECODE_CHUNK {
        assert(chunks_of(text) == seq![text.take(DECODE_CHUNK as int)] + chunks_of(text.skip(DECODE_CHUNK as int)));
    }
}

/// Cuts a payload into the pieces it is decoded in, so that the decoded
/// document never has to be held whole.
pub fn split_payload(text: &str) -> (r: VecDeque<String>)
    ensures
        r@.map_values(|p: String| p@) == decode_pieces(text@),
{
    let mut pieces: VecDeque<String> = VecDeque::new();
    if !text.is_ascii() {
        pieces.push_back(String::from_str(text));
        assert(pieces@.map_values(|p: String| p@) =~= decode_pieces(text@));
        return pieces;
    }
    let n = text.unicode_len();
    let mut start: usize = 0;
    assert(pieces@.map_values(|p: String| p@) =~= Seq::<Seq<char>>::empty());
    assert(text@.skip(0) =~= text@);
    while n - start > DECODE_CHUNK
        invariant
            n == text@.len(),
            start <= n,
            is_ascii(text),
            pieces@.map_values(|p: String| p@) + chunks_of(text@.skip(start as int)) == chunks_of(text@),
        decreases n - start,
    {
        let piece = text.substring_ascii(start, start + DECODE_CHUNK);
        let ghost rest = text@.skip(start as int);
        assert(rest.take(DECODE_CHUNK as int) =~= piece@);
        assert(rest.skip(DECODE_CHUNK as int) =~= text@.skip(start + DECODE_CHUNK));
        let ghost before = pieces@.map_values(|p: String| p@);
        pieces.push_back(String::from_str(piece));
        assert(pieces@.map_values(|p: String| p@) =~= before.push(piece@));
        assert(before.push(piece@) + chunks_of(text@.skip(start + DECODE_CHUNK)) =~= before + chunks_of(rest));
        start = start + DECODE_CHUNK;
    }
    let piece = text.substring_ascii(start, n);
    assert(text@.skip(start as int) =~= piece@);
    let ghost before = pieces@.map_values(|p: String| p@);
    pieces.push_back(String::from_str(piece));
    assert(pieces@.map_values(|p: String| p@) =~= before.push(piece@));
    assert(before.push(piece@) =~= before + chunks_of(text@.skip(start as int)));
    pieces
}

/// Decodes one piece of a payload: the bytes its base64 text stands for, or
/// `Decode` when it is not valid base64.
pub fn decode_piece(piece: &str) -> (r: Result<Vec<u8>, ConversionError>)
    ensures
        match base64_decoded(piece@) {
            Some(b) => r matches Ok(v) && v@ == b,
            None => r matches Err(ConversionError::Decode(_)),
        },
{
    match decode_standard_base64(piece) {
        Ok(bytes) => Ok(bytes),
        Err(e) => Err(ConversionError::Decode(e)),
    }
}

} // verus!
