//! Objects on their way to the store.

use vstd::prelude::*;

verus! {

/// An object to upload: its bytes and what the store is told about them.
#[derive(Clone, Debug, PartialEq, Eq)]
pub struct ObjectToUpload {
    pub body: Vec<u8>,
    pub content_type: Option<String>,
    pub content_length: Option<i64>,
}

/// Builds an [`ObjectToUpload`] part by part.
#[derive(Clone, Debug, PartialEq, Eq)]
pub struct ObjectToUploadBuilder {
    body: Vec<u8>,
    content_type: Option<String>,
    content_length: Option<i64>,
}

impl ObjectToUploadBuilder {
    /// The object that the builder would build now.
    pub closed spec fn pending(self) -> ObjectToUpload {
        ObjectToUpload {
            body: self.body,
            content_type: self.content_type,
            content_length: self.content_length,
        }
    }

    /// Starts an object of the bytes `body`, with type and length unset.
    pub fn from_vecu8(body: Vec<u8>) -> (builder: ObjectToUploadBuilder)
        ensures
            builder.pending() == (ObjectToUpload { body, content_type: None, content_length: None }),
    {
        ObjectToUploadBuilder { body, content_length: None, content_type: None }
    }

    /// Sets the length that the store is told.
    pub fn content_length(self, content_length: Option<i64>) -> (builder: ObjectToUploadBuilder)
        ensures
            builder.pending() == (ObjectToUpload { content_length, ..self.pending() }),
    {
        ObjectToUploadBuilder {
            body: self.body,
            content_type: self.content_type,
            content_length,
        }
    }

    /// Sets the media type that the store is told.
    pub fn content_type(self, content_type: Option<String>) -> (builder: ObjectToUploadBuilder)
        ensures
            builder.pending() == (ObjectToUpload { content_type, ..self.pending() }),
    {
        ObjectToUploadBuilder {
            body: self.body,
            content_type,
            content_length: self.content_length,
        }
    }

    /// The object as built so far.
    pub fn build(self) -> (object: ObjectToUpload)
        ensures
            object == self.pending(),
    {
        ObjectToUpload {
            body: self.body,
            content_type: self.content_type,
            content_length: self.content_length,
        }
    }
}

} // verus!
