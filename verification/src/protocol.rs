//! Commands and responses, with their spec-level models.
//!
//! A [`Command`] is the decoded, structured request extracted from one frame
//! by the framing layer; a [`Response`] is the structured reply written back
//! as one frame. The byte encoding of frames is the framing layer's business
//! and never appears here.

use vstd::prelude::*;

verus! {

/// A decoded request. `Other` stands for every recognized-but-unhandled
/// command variant the framing layer may produce.
#[derive(Debug, Clone, PartialEq, Eq)]
pub enum Command {
    /// Read the value under `key`.
    Get { key: String },
    /// Insert or overwrite `value` under `key` (the wire protocol's SET).
    Put { key: String, value: Vec<u8> },
    Other,
}

/// The structured reply written back as one frame: a status acknowledgement,
/// a value payload, or absence.
#[derive(Debug, Clone, PartialEq, Eq)]
pub enum Response {
    Simple(String),
    Bulk(Vec<u8>),
    Null,
}

/// Spec-level picture of a command: the key as a character sequence, the
/// value as a byte sequence.
#[verifier::ext_equal]
pub enum CommandModel {
    Get { key: Seq<char> },
    Put { key: Seq<char>, value: Seq<u8> },
    Other,
}

/// Spec-level picture of a response.
#[verifier::ext_equal]
pub enum ResponseModel {
    Simple(Seq<char>),
    Bulk(Seq<u8>),
    Null,
}

impl View for Command {
    type V = CommandModel;

    open spec fn view(&self) -> CommandModel {
        match self {
            Command::Get { key } => CommandModel::Get { key: key@ },
            Command::Put { key, value } => CommandModel::Put { key: key@, value: value@ },
            Command::Other => CommandModel::Other,
        }
    }
}

impl View for Response {
    type V = ResponseModel;

    open spec fn view(&self) -> ResponseModel {
        match self {
            Response::Simple(text) => ResponseModel::Simple(text@),
            Response::Bulk(bytes) => ResponseModel::Bulk(bytes@),
            Response::Null => ResponseModel::Null,
        }
    }
}

} // verus!
