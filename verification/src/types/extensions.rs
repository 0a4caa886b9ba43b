//! Protocol extensions: what an agent declares, and what a call uses.

use vstd::prelude::*;
use super::Metadata;

verus! {

/// Well-known extension URIs.
pub const PROGRESS_TRACKING: &'static str = "urn:a2a:ext:progress-tracking";
/// Multi-turn conversations.
pub const MULTI_TURN: &'static str = "urn:a2a:ext:multi-turn";
/// File transfer.
pub const FILE_TRANSFER: &'static str = "urn:a2a:ext:file-transfer";
/// Structured output.
pub const STRUCTURED_OUTPUT: &'static str = "urn:a2a:ext:structured-output";
/// Human in the loop.
pub const HUMAN_IN_LOOP: &'static str = "urn:a2a:ext:human-in-loop";

/// An extension an agent supports.
#[derive(Debug)]
pub struct ExtensionDeclaration {
    /// The URI identifying the extension.
    pub uri: String,
    /// Whether clients must support it.
    pub required: bool,
    /// Extension parameters.
    pub params: Option<Metadata>,
}

impl ExtensionDeclaration {
    /// An optional extension with the given URI and no parameters.
    pub fn new(uri: &str) -> (r: Self)
        ensures
            r.uri@ == uri@,
            !r.required,
            r.params is None,
    {
        ExtensionDeclaration { uri: uri.to_owned(), required: false, params: None }
    }

    /// Marks the extension as required.
    pub fn required(self) -> (r: Self)
        ensures
            r == (ExtensionDeclaration { required: true, ..self }),
    {
        ExtensionDeclaration { required: true, ..self }
    }

    /// Sets the parameters.
    pub fn with_params(self, params: Metadata) -> (r: Self)
        ensures
            r == (ExtensionDeclaration { params: Some(params), ..self }),
    {
        ExtensionDeclaration { params: Some(params), ..self }
    }
}

/// The extensions a call uses, with metadata.
#[derive(Debug, Default)]
pub struct ExtensionContext {
    /// Extension URIs in use, if any were added.
    pub extensions: Option<Vec<String>>,
    /// Extension metadata, if any was set.
    pub metadata: Option<Metadata>,
}

impl ExtensionContext {
    /// A context without extensions and without metadata.
    pub fn new() -> (r: Self)
        ensures
            r.extensions is None,
            r.metadata is None,
    {
        ExtensionContext { extensions: None, metadata: None }
    }

    /// Adds an extension URI.
    pub fn add_extension(&mut self, uri: &str)
        ensures
            final(self).extensions matches Some(v) && v.deep_view() == match old(self).extensions {
                Some(o) => o.deep_view(),
                None => Seq::empty(),
            }.push(uri@),
            final(self).metadata == old(self).metadata,
    {
        let mut list = match self.extensions.take() {
            Some(v) => v,
            None => Vec::new(),
        };
        let ghost before = list.deep_view();
        list.push(uri.to_owned());
        assert(list.deep_view() =~= before.push(uri@));
        self.extensions = Some(list);
    }

    /// Whether the extension URI is in use.
    pub fn has_extension(&self, uri: &str) -> (r: bool)
        ensures
            r == (self.extensions is Some && exists|i: int|
                0 <= i < self.extensions.unwrap()@.len() && #[trigger] self.extensions.unwrap()@[i]@ == uri@),
    {
        match &self.extensions {
            Some(v) => {
                let mut i: usize = 0;
                while i < v.len()
                    invariant
                        i <= v.len(),
                        self.extensions == Some(*v),
                        forall|j: int| 0 <= j < i ==> v@[j]@ != uri@,
                    decreases v.len() - i,
                {
                    if crate::text::str_eq(v[i].as_str(), uri) {
                        assert(self.extensions.unwrap()@[i as int]@ == uri@);
                        return true;
                    }
                    i = i + 1;
                }
                false
            }
            None => false,
        }
    }

    /// Sets a metadata value.
    pub fn set_metadata(&mut self, key: &str, value: serde_json::Value)
        ensures
            final(self).metadata matches Some(m) && m.as_map() == match old(self).metadata {
                Some(o) => o.as_map(),
                None => Map::empty(),
            }.insert(key@, value),
            final(self).extensions == old(self).extensions,
    {
        let mut m = match self.metadata.take() {
            Some(m) => m,
            None => Metadata::new(),
        };
        let _ = m.insert(key.to_owned(), value);
        self.metadata = Some(m);
    }

    /// A metadata value.
    pub fn get_metadata(&self, key: &str) -> (r: Option<&serde_json::Value>)
        ensures
            match self.metadata {
                Some(m) => match r {
                    Some(v) => m.as_map().contains_key(key@) && m.as_map()[key@] == *v,
                    None => !m.as_map().contains_key(key@),
                },
                None => r is None,
            },
    {
        match &self.metadata {
            Some(m) => m.get(key),
            None => None,
        }
    }
}

} // verus!
