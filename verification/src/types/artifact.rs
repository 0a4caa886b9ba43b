//! Artifacts produced by an agent during a task.

use vstd::prelude::*;
use super::Metadata;
use super::id::{ArtifactId, clone_vec};
use super::part::{Part, PartView};

verus! {

/// An output of a task: a named list of parts.
#[derive(Debug)]
pub struct Artifact {
    pub artifact_id: ArtifactId,
    pub name: Option<String>,
    pub description: Option<String>,
    pub parts: Vec<Part>,
    pub metadata: Option<Metadata>,
    pub extensions: Vec<String>,
}

/// An artifact, by value.
pub struct ArtifactView {
    pub artifact_id: Seq<char>,
    pub name: Option<Seq<char>>,
    pub description: Option<Seq<char>>,
    pub parts: Seq<PartView>,
    pub metadata: Option<Seq<(Seq<char>, serde_json::Value)>>,
    pub extensions: Seq<Seq<char>>,
}

impl DeepView for Artifact {
    type V = ArtifactView;

    open spec fn deep_view(&self) -> ArtifactView {
        ArtifactView {
            artifact_id: self.artifact_id@,
            name: self.name.deep_view(),
            description: self.description.deep_view(),
            parts: self.parts.deep_view(),
            metadata: self.metadata.deep_view(),
            extensions: self.extensions.deep_view(),
        }
    }
}

impl Clone for Artifact {
    fn clone(&self) -> (r: Self)
        ensures
            r.deep_view() == self.deep_view(),
    {
        Artifact {
            artifact_id: self.artifact_id.clone(),
            name: super::clone_opt_string(&self.name),
            description: super::clone_opt_string(&self.description),
            parts: clone_vec(&self.parts),
            metadata: super::clone_opt_metadata(&self.metadata),
            extensions: super::clone_strings(&self.extensions),
        }
    }
}

impl Artifact {
    /// An artifact with the given id and parts and no other fields.
    pub fn new(artifact_id: &str, parts: Vec<Part>) -> (r: Self)
        ensures
            r.deep_view() == (ArtifactView {
                artifact_id: artifact_id@,
                name: None,
                description: None,
                parts: parts.deep_view(),
                metadata: None,
                extensions: Seq::empty(),
            }),
    {
        let r = Artifact {
            artifact_id: ArtifactId::from_string(artifact_id),
            name: None,
            description: None,
            parts,
            metadata: None,
            extensions: Vec::new(),
        };
        assert(r.extensions.deep_view() =~= Seq::<Seq<char>>::empty());
        r
    }
}

} // verus!
