//! Messages and their attachments.

use vstd::prelude::*;
use crate::json::JsonValue;
use crate::text::owned;

verus! {

/// A chat message.
#[derive(Debug, Clone)]
pub struct Message {
    /// Unique identifier for this message
    pub id: String,
    /// The message text/content
    pub text: String,
    /// User ID of the sender
    pub sender_id: String,
    /// Channel/conversation ID where this message was sent
    pub channel_id: String,
    /// When the message was created (milliseconds since the Unix epoch)
    pub created_at: i64,
    /// When the message was last edited, if it was
    pub edited_at: Option<i64>,
    /// Attachments (files, images, etc.)
    pub attachments: Vec<Attachment>,
    /// Optional platform-specific metadata
    pub metadata: Option<JsonValue>,
}

impl Message {
    /// A message created now, with no edit time, attachments or metadata.
    pub fn new(id: &str, text: &str, sender_id: &str, channel_id: &str) -> (m: Self)
        ensures
            m.id@ == id@,
            m.text@ == text@,
            m.sender_id@ == sender_id@,
            m.channel_id@ == channel_id@,
            m.edited_at is None,
            m.attachments@.len() == 0,
            m.metadata is None,
    {
        Message {
            id: owned(id),
            text: owned(text),
            sender_id: owned(sender_id),
            channel_id: owned(channel_id),
            created_at: crate::clock::now_millis(),
            edited_at: None,
            attachments: Vec::new(),
            metadata: None,
        }
    }

    /// The same message with `attachment` added after the others.
    pub fn with_attachment(self, attachment: Attachment) -> (m: Self)
        ensures
            m.attachments@ == self.attachments@.push(attachment),
            m == (Message { attachments: m.attachments, ..self }),
    {
        let mut s = self;
        s.attachments.push(attachment);
        s
    }

    /// The same message with the given metadata.
    pub fn with_metadata(self, metadata: JsonValue) -> (m: Self)
        ensures
            m == (Message { metadata: Some(metadata), ..self }),
    {
        let mut s = self;
        s.metadata = Some(metadata);
        s
    }
}

/// A file or media attachment.
#[derive(Debug, Clone)]
pub struct Attachment {
    /// Unique identifier for this attachment
    pub id: String,
    /// Filename
    pub filename: String,
    /// MIME type (e.g., "image/png", "application/pdf")
    pub mime_type: String,
    /// Size in bytes
    pub size: u64,
    /// URL to access the file
    pub url: String,
    /// Optional thumbnail URL (for images/videos)
    pub thumbnail_url: Option<String>,
}

impl Attachment {
    /// An attachment with the given fields and no thumbnail.
    pub fn new(id: &str, filename: &str, mime_type: &str, size: u64, url: &str) -> (a: Self)
        ensures
            a.id@ == id@,
            a.filename@ == filename@,
            a.mime_type@ == mime_type@,
            a.size == size,
            a.url@ == url@,
            a.thumbnail_url is None,
    {
        Attachment {
            id: owned(id),
            filename: owned(filename),
            mime_type: owned(mime_type),
            size,
            url: owned(url),
            thumbnail_url: None,
        }
    }

    /// The same attachment with the given thumbnail URL.
    pub fn with_thumbnail(self, thumbnail_url: &str) -> (a: Self)
        ensures
            a.thumbnail_url matches Some(t) && t@ == thumbnail_url@,
            a == (Attachment { thumbnail_url: a.thumbnail_url, ..self }),
    {
        let mut s = self;
        s.thumbnail_url = Some(owned(thumbnail_url));
        s
    }
}

} // verus!
