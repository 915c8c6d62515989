//! The errors of region file processing.

use crate::path::{decimal, decimal_digits, push_decimal, push_digits};
use vstd::prelude::*;
use vstd::string::StringExecFns;

verus! {

/// Why a chunk record does not follow the chunk schema.
#[derive(Clone, Copy, Debug, PartialEq, Eq, Structural, Hash)]
pub enum SchemaFault {
    /// The compressed record could not be inflated.
    Compression,
    /// The inflated record is not a tree of the chunk schema.
    Structure,
    /// The block state words of a section cannot hold 4096 values.
    BlockStates,
}

/// An error which occurred during region file processing.
#[derive(Clone, Copy, Debug, PartialEq, Eq, Structural, Hash)]
pub enum Error {
    /// Reading or writing the region file failed.
    Io,
    /// The region file is shorter than its header.
    HeaderTooSmall,
    /// The chunk record is not of the chunk schema.
    MalformedSchema(SchemaFault),
    /// The length prefix of a chunk is zero or above the limit.
    ChunkTooLarge(usize),
    /// The chunk contained an invalid compression type.
    InvalidCompression(u8),
    /// The chunk does not exist.
    ChunkNotExist,
    /// The chunk uses an unsupported data version.
    UnsupportedDataVersion(i32),
    /// There was an invalid block in the chunk.
    InvalidBlock,
    /// A section index, a palette index or a fixed-size list was out of
    /// bounds.
    IndexOutOfBounds,
    /// Invalid biome ID.
    InvalidBiomeId(i32),
}

impl SchemaFault {
    /// What is wrong with the record, in words.
    pub open spec fn spec_message(self) -> Seq<char> {
        match self {
            SchemaFault::Compression => "the chunk cannot be inflated"@,
            SchemaFault::Structure => "the chunk is not of the schema"@,
            SchemaFault::BlockStates => "block states do not hold 4096 blocks"@,
        }
    }
}

impl Error {
    /// The message of the error.
    pub open spec fn spec_message(self) -> Seq<char> {
        match self {
            Error::Io => "An IO error occurred"@,
            Error::HeaderTooSmall => "The region header is too small."@,
            Error::MalformedSchema(fault) => "Region file contains invalid NBT: "@
                + fault.spec_message(),
            Error::ChunkTooLarge(size) => "Chunk is too large: "@ + decimal_digits(size as nat)
                + " bytes"@,
            Error::InvalidCompression(id) => "Chunk uses invalid compression type "@
                + decimal_digits(id as nat),
            Error::ChunkNotExist => "The chunk does not exist"@,
            Error::UnsupportedDataVersion(_) =>
                "The chunk uses an unsupported data version. Feather currently only supports 1.13.2 region files."@,
            Error::InvalidBlock => "Chunk contains invalid block"@,
            Error::IndexOutOfBounds => "Section index out of bounds"@,
            Error::InvalidBiomeId(id) => "Invalid biome ID "@ + decimal(id as int),
        }
    }

    /// The message of the error, for people to read.
    pub fn message(self) -> (r: String)
        ensures
            r@ == self.spec_message(),
    {
        match self {
            Error::Io => String::from_str("An IO error occurred"),
            Error::HeaderTooSmall => String::from_str("The region header is too small."),
            Error::MalformedSchema(fault) => {
                let mut text = String::from_str("Region file contains invalid NBT: ");
                match fault {
                    SchemaFault::Compression => text.append("the chunk cannot be inflated"),
                    SchemaFault::Structure => text.append("the chunk is not of the schema"),
                    SchemaFault::BlockStates => text.append("block states do not hold 4096 blocks"),
                }
                text
            },
            Error::ChunkTooLarge(size) => {
                let mut text = String::from_str("Chunk is too large: ");
                push_digits(&mut text, size as u64);
                text.append(" bytes");
                text
            },
            Error::InvalidCompression(id) => {
                let mut text = String::from_str("Chunk uses invalid compression type ");
                push_digits(&mut text, id as u64);
                text
            },
            Error::ChunkNotExist => String::from_str("The chunk does not exist"),
            Error::UnsupportedDataVersion(_) => String::from_str(
                "The chunk uses an unsupported data version. Feather currently only supports 1.13.2 region files.",
            ),
            Error::InvalidBlock => String::from_str("Chunk contains invalid block"),
            Error::IndexOutOfBounds => String::from_str("Section index out of bounds"),
            Error::InvalidBiomeId(id) => {
                let mut text = String::from_str("Invalid biome ID ");
                push_decimal(&mut text, id);
                text
            },
        }
    }

    /// Whether the error concerns one chunk only: the chunk is not stored,
    /// or what is stored is not a chunk that can be read. The file and the
    /// other chunks in it can still be used.
    pub open spec fn spec_is_recoverable(self) -> bool {
        !(self is Io || self is HeaderTooSmall)
    }

    /// Tells the errors of one chunk, after which the chunk may be made
    /// anew, from the errors of the file.
    #[verifier::when_used_as_spec(spec_is_recoverable)]
    pub fn is_recoverable(self) -> (r: bool)
        ensures
            r == self.spec_is_recoverable(),
    {
        match self {
            Error::Io => false,
            Error::HeaderTooSmall => false,
            Error::MalformedSchema(_) => true,
            Error::ChunkTooLarge(_) => true,
            Error::InvalidCompression(_) => true,
            Error::ChunkNotExist => true,
            Error::UnsupportedDataVersion(_) => true,
            Error::InvalidBlock => true,
            Error::IndexOutOfBounds => true,
            Error::InvalidBiomeId(_) => true,
        }
    }
}

} // verus!
