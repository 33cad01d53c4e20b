use vstd::prelude::*;

use crate::protocol::RecordingMetadata;

verus! {

/// Why the media store could not serve a request.
#[derive(Debug, Clone, Copy, PartialEq, Eq, Structural)]
pub enum DatabaseError {
    InitializationFailed,
    DatabaseFailure,
    MusicbrainzFailure,
    DataConversionFailure,
    RecordingMetadataNotFound,
    RecordingFileNotFound,
    PlaylistNotFound,
}

/// The lowercase hexadecimal SHA-256 digest of a byte string.
pub uninterp spec fn sha256_hex(bytes: Seq<u8>) -> Seq<char>;

/// Relies on `sha256::digest`: the SHA-256 digest of the bytes, written as
/// 64 lowercase hexadecimal digits.
#[verifier::external_body]
fn content_hash(bytes: &Vec<u8>) -> (r: String)
    ensures
        r@ == sha256_hex(bytes@),
        r@.len() == 64,
{
    sha256::digest(bytes)
}

impl RecordingMetadata {
    /// Records `hash` as the key of the recording's stored audio file, or
    /// clears the association.
    pub fn set_audio_hash(&mut self, hash: Option<String>)
        ensures
            final(self).audio_file_hash == hash,
            final(self).recording == old(self).recording,
    {
        self.audio_file_hash = hash;
    }

    /// Associates the audio `contents` with the recording, keyed by their
    /// content hash, or clears the association; returns the key under which
    /// the contents are to be stored.
    pub fn attach_audio(&mut self, contents: Option<&Vec<u8>>) -> (r: Option<String>)
        ensures
            final(self).recording == old(self).recording,
            final(self).audio_file_hash == r,
            match contents {
                Some(b) => r is Some && r->Some_0@ == sha256_hex(b@),
                None => r.is_none(),
            },
    {
        match contents {
            Some(b) => {
                let key = content_hash(b);
                self.set_audio_hash(Some(key.clone()));
                Some(key)
            },
            None => {
                self.set_audio_hash(None);
                None
            },
        }
    }
}

/// The key of a recording's stored audio file, given the outcome of looking
/// up its metadata: a failed lookup means the metadata is missing, and
/// metadata without a hash means no file is stored.
pub fn recording_file_key(lookup: Result<RecordingMetadata, DatabaseError>) -> (r: Result<String, DatabaseError>)
    ensures
        match lookup {
            Err(_) => r == Err::<String, DatabaseError>(DatabaseError::RecordingMetadataNotFound),
            Ok(m) => match m.audio_file_hash {
                Some(h) => r == Ok::<String, DatabaseError>(h),
                None => r == Err::<String, DatabaseError>(DatabaseError::RecordingFileNotFound),
            },
        },
{
    match lookup {
        Err(_) => Err(DatabaseError::RecordingMetadataNotFound),
        Ok(m) => match m.audio_file_hash {
            Some(h) => Ok(h),
            None => Err(DatabaseError::RecordingFileNotFound),
        },
    }
}

} // verus!
