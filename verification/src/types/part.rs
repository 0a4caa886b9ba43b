//! Content parts of messages and artifacts.

use vstd::prelude::*;
use super::Metadata;

verus! {

/// The content payload of a part: one of text, raw bytes, a URL or JSON data.
#[derive(Debug)]
pub enum PartContent {
    Text(String),
    Raw(Vec<u8>),
    Url(String),
    Data(serde_json::Value),
}

/// What a part's content holds, by value.
pub enum PartContentView {
    Text(Seq<char>),
    Raw(Seq<u8>),
    Url(Seq<char>),
    Data(serde_json::Value),
}

impl DeepView for PartContent {
    type V = PartContentView;

    open spec fn deep_view(&self) -> PartContentView {
        match self {
            PartContent::Text(s) => PartContentView::Text(s@),
            PartContent::Raw(b) => PartContentView::Raw(b@),
            PartContent::Url(s) => PartContentView::Url(s@),
            PartContent::Data(v) => PartContentView::Data(*v),
        }
    }
}

/// A content part within a message or an artifact.
#[derive(Debug)]
pub struct Part {
    pub content: PartContent,
    pub metadata: Option<Metadata>,
    pub filename: Option<String>,
    pub media_type: Option<String>,
}

/// A part, by value.
pub struct PartView {
    pub content: PartContentView,
    pub metadata: Option<Seq<(Seq<char>, serde_json::Value)>>,
    pub filename: Option<Seq<char>>,
    pub media_type: Option<Seq<char>>,
}

impl DeepView for Part {
    type V = PartView;

    open spec fn deep_view(&self) -> PartView {
        PartView {
            content: self.content.deep_view(),
            metadata: self.metadata.deep_view(),
            filename: self.filename.deep_view(),
            media_type: self.media_type.deep_view(),
        }
    }
}

/// Copies a byte list.
pub fn clone_bytes(b: &Vec<u8>) -> (r: Vec<u8>)
    ensures
        r@ == b@,
{
    let mut out: Vec<u8> = Vec::new();
    let mut i: usize = 0;
    while i < b.len()
        invariant
            i <= b.len(),
            out@ == b@.subrange(0, i as int),
        decreases b.len() - i,
    {
        out.push(b[i]);
        i = i + 1;
    }
    assert(out@ =~= b@);
    out
}

impl Clone for PartContent {
    fn clone(&self) -> (r: Self)
        ensures
            r.deep_view() == self.deep_view(),
    {
        match self {
            PartContent::Text(s) => PartContent::Text(s.clone()),
            PartContent::Raw(b) => PartContent::Raw(clone_bytes(b)),
            PartContent::Url(s) => PartContent::Url(s.clone()),
            PartContent::Data(v) => PartContent::Data(crate::external::clone_json_value(v)),
        }
    }
}

impl Clone for Part {
    fn clone(&self) -> (r: Self)
        ensures
            r.deep_view() == self.deep_view(),
    {
        Part {
            content: self.content.clone(),
            metadata: super::clone_opt_metadata(&self.metadata),
            filename: super::clone_opt_string(&self.filename),
            media_type: super::clone_opt_string(&self.media_type),
        }
    }
}

/// The text of a part, when it is a text part.
pub open spec fn part_text(p: PartView) -> Option<Seq<char>> {
    match p.content {
        PartContentView::Text(s) => Some(s),
        _ => None,
    }
}

impl Part {
    /// A bare text part, by value.
    pub open spec fn text_view(text: Seq<char>) -> PartView {
        PartView { content: PartContentView::Text(text), metadata: None, filename: None, media_type: None }
    }

    /// A text part.
    pub fn text(text: &str) -> (r: Self)
        ensures
            r.deep_view() == (PartView {
                content: PartContentView::Text(text@),
                metadata: None,
                filename: None,
                media_type: None,
            }),
    {
        Part { content: PartContent::Text(text.to_owned()), metadata: None, filename: None, media_type: None }
    }

    /// A raw binary part with its media type.
    pub fn raw(data: Vec<u8>, media_type: &str) -> (r: Self)
        ensures
            r.deep_view() == (PartView {
                content: PartContentView::Raw(data@),
                metadata: None,
                filename: None,
                media_type: Some(media_type@),
            }),
    {
        Part {
            content: PartContent::Raw(data),
            metadata: None,
            filename: None,
            media_type: Some(media_type.to_owned()),
        }
    }

    /// A URL part with its media type.
    pub fn url(url: &str, media_type: &str) -> (r: Self)
        ensures
            r.deep_view() == (PartView {
                content: PartContentView::Url(url@),
                metadata: None,
                filename: None,
                media_type: Some(media_type@),
            }),
    {
        Part {
            content: PartContent::Url(url.to_owned()),
            metadata: None,
            filename: None,
            media_type: Some(media_type.to_owned()),
        }
    }

    /// A structured JSON data part, with media type `application/json`.
    pub fn data(value: serde_json::Value) -> (r: Self)
        ensures
            r.deep_view() == (PartView {
                content: PartContentView::Data(value),
                metadata: None,
                filename: None,
                media_type: Some("application/json"@),
            }),
    {
        Part {
            content: PartContent::Data(value),
            metadata: None,
            filename: None,
            media_type: Some("application/json".to_owned()),
        }
    }

    /// Sets the filename.
    pub fn with_filename(self, filename: &str) -> (r: Self)
        ensures
            r.deep_view() == (PartView { filename: Some(filename@), ..self.deep_view() }),
    {
        Part { filename: Some(filename.to_owned()), ..self }
    }

    /// Sets the media type.
    pub fn with_media_type(self, media_type: &str) -> (r: Self)
        ensures
            r.deep_view() == (PartView { media_type: Some(media_type@), ..self.deep_view() }),
    {
        Part { media_type: Some(media_type.to_owned()), ..self }
    }

    /// Sets the metadata.
    pub fn with_metadata(self, metadata: Metadata) -> (r: Self)
        ensures
            r.deep_view() == (PartView { metadata: Some(metadata.deep_view()), ..self.deep_view() }),
    {
        Part { metadata: Some(metadata), ..self }
    }

    /// The text, when this is a text part.
    pub fn as_text(&self) -> (r: Option<&str>)
        ensures
            match r {
                Some(s) => part_text(self.deep_view()) == Some(s@),
                None => part_text(self.deep_view()) is None,
            },
    {
        match &self.content {
            PartContent::Text(s) => Some(s.as_str()),
            _ => None,
        }
    }

    /// The bytes, when this is a raw part.
    pub fn as_raw(&self) -> (r: Option<&Vec<u8>>)
        ensures
            match (r, self.deep_view().content) {
                (Some(b), PartContentView::Raw(c)) => b@ == c,
                (None, PartContentView::Raw(_)) => false,
                (Some(_), _) => false,
                (None, _) => true,
            },
    {
        match &self.content {
            PartContent::Raw(b) => Some(b),
            _ => None,
        }
    }

    /// The URL, when this is a URL part.
    pub fn as_url(&self) -> (r: Option<&str>)
        ensures
            match (r, self.deep_view().content) {
                (Some(u), PartContentView::Url(c)) => u@ == c,
                (None, PartContentView::Url(_)) => false,
                (Some(_), _) => false,
                (None, _) => true,
            },
    {
        match &self.content {
            PartContent::Url(u) => Some(u.as_str()),
            _ => None,
        }
    }

    /// The JSON data, when this is a data part.
    pub fn as_data(&self) -> (r: Option<&serde_json::Value>)
        ensures
            match (r, self.deep_view().content) {
                (Some(v), PartContentView::Data(c)) => *v == c,
                (None, PartContentView::Data(_)) => false,
                (Some(_), _) => false,
                (None, _) => true,
            },
    {
        match &self.content {
            PartContent::Data(v) => Some(v),
            _ => None,
        }
    }
}

} // verus!
