//! Loading a timeline from the URI of a primary: the timeline becomes a replica.

use super::manager::{ManagerError, SubtimelinePrimaryManager};
use super::replica::{CoreElement, Replica};
use crate::text::{starts_with, strip_prefix};
use vstd::prelude::*;

verus! {

/// Loads replicas from URIs of the form `gessubtimeline:` and the ID of a primary.
#[derive(Debug, Clone, Copy, PartialEq, Eq, Structural)]
pub struct SubTimelineFormatter;

/// Why a URI is not loaded.
#[derive(Debug)]
pub enum FormatterError {
    /// The URI is not for this formatter.
    NotAReference(String),
    /// The URI is not of a subtimeline.
    NotASubtimelineUri,
    EmptyPrimaryId,
    InvalidUri(String),
    Manager(ManagerError),
}

impl FormatterError {
    /// What is said of the error.
    pub open spec fn text(self) -> Seq<char> {
        match self {
            FormatterError::NotAReference(uri) => "URI '"@ + uri@
                + "' is not a subtimeline reference"@,
            FormatterError::NotASubtimelineUri => "Not a subtimeline URI"@,
            FormatterError::EmptyPrimaryId => "Primary ID cannot be empty in gessubtimeline: URI"@,
            FormatterError::InvalidUri(uri) => "Invalid subtimeline URI format: "@ + uri@,
            FormatterError::Manager(e) => e.text(),
        }
    }

    /// What is said of the error.
    pub fn message(&self) -> (message: String)
        ensures
            message@ == self.text(),
    {
        match self {
            FormatterError::NotAReference(uri) => {
                let mut message = "URI '".to_owned();
                message.append(uri.as_str());
                message.append("' is not a subtimeline reference");
                message
            },
            FormatterError::NotASubtimelineUri => "Not a subtimeline URI".to_owned(),
            FormatterError::EmptyPrimaryId =>
                "Primary ID cannot be empty in gessubtimeline: URI".to_owned(),
            FormatterError::InvalidUri(uri) => {
                let mut message = "Invalid subtimeline URI format: ".to_owned();
                message.append(uri.as_str());
                message
            },
            FormatterError::Manager(e) => e.message(),
        }
    }
}

/// Whether a URI is that of a subtimeline.
pub open spec fn is_reference(uri: Seq<char>) -> bool {
    crate::text::has_prefix(uri, "gessubtimeline:"@)
}

/// The ID of the primary that a URI is about.
pub open spec fn primary_id_of(uri: Seq<char>) -> Seq<char> {
    uri.skip("gessubtimeline:"@.len() as int)
}

/// The URI of a primary.
pub open spec fn uri_of(primary_id: Seq<char>) -> Seq<char> {
    "gessubtimeline:"@ + primary_id
}

impl SubTimelineFormatter {
    /// Whether a URI is that of a subtimeline.
    pub fn is_subtimeline_uri(uri: &str) -> (r: bool)
        ensures
            r == is_reference(uri@),
    {
        starts_with(uri, "gessubtimeline:")
    }

    /// The ID of the primary that a URI is about.
    pub fn parse_primary_id_from_uri(uri: &str) -> (r: Result<String, FormatterError>)
        ensures
            match r {
                Ok(id) => is_reference(uri@) && id@ == primary_id_of(uri@) && id@.len() > 0,
                Err(FormatterError::EmptyPrimaryId) => is_reference(uri@) && primary_id_of(
                    uri@,
                ).len() == 0,
                Err(FormatterError::InvalidUri(text)) => !is_reference(uri@) && text@ == uri@,
                Err(_) => false,
            },
    {
        match strip_prefix(uri, "gessubtimeline:") {
            Some(primary_id) => {
                if primary_id.as_str().is_empty() {
                    Err(FormatterError::EmptyPrimaryId)
                } else {
                    Ok(primary_id)
                }
            },
            None => Err(FormatterError::InvalidUri(uri.to_owned())),
        }
    }

    /// Whether the formatter loads a URI.
    pub fn can_load_uri(&self, uri: &str) -> (r: Result<(), FormatterError>)
        ensures
            match r {
                Ok(()) => is_reference(uri@),
                Err(FormatterError::NotAReference(text)) => !is_reference(uri@) && text@ == uri@,
                Err(_) => false,
            },
    {
        if Self::is_subtimeline_uri(uri) {
            Ok(())
        } else {
            Err(FormatterError::NotAReference(uri.to_owned()))
        }
    }

    /// Makes a timeline a replica of the primary that a URI is about.
    pub fn load_from_uri(
        &self,
        manager: &mut SubtimelinePrimaryManager,
        timeline: u64,
        uri: &str,
        gone: &Vec<u64>,
    ) -> (r: Result<Replica, FormatterError>)
        requires
            old(manager).wf(),
        ensures
            final(manager).wf(),
            match r {
                Ok(replica) => {
                    let id = primary_id_of(uri@);
                    &&& is_reference(uri@)
                    &&& id.len() > 0
                    &&& old(manager).primaries@.dom().contains(id)
                    &&& replica.id == old(manager).primaries@[id].n_replicas
                    &&& replica.timeline == timeline
                    &&& replica.element_mappings@ == Map::<u64, u64>::empty()
                    &&& replica.core_track_elements@ == Map::<u64, Vec<CoreElement>>::empty()
                    &&& replica.property_bindings.wf()
                    &&& replica.property_bindings@ == Map::<(u64, Seq<char>), u64>::empty()
                    &&& super::manager::refreshed(*old(manager), *final(manager), id, gone@)
                },
                Err(e) => {
                    &&& final(manager).primaries@ == old(manager).primaries@
                    &&& match e {
                        FormatterError::NotASubtimelineUri => !is_reference(uri@),
                        FormatterError::EmptyPrimaryId => is_reference(uri@) && primary_id_of(
                            uri@,
                        ).len() == 0,
                        FormatterError::Manager(ManagerError::PrimaryNotFound(id)) => {
                            &&& is_reference(uri@)
                            &&& id@ == primary_id_of(uri@)
                            &&& id@.len() > 0
                            &&& !old(manager).primaries@.dom().contains(id@)
                        },
                        _ => false,
                    }
                },
            },
    {
        if !Self::is_subtimeline_uri(uri) {
            return Err(FormatterError::NotASubtimelineUri);
        }
        let primary_id = match Self::parse_primary_id_from_uri(uri) {
            Ok(primary_id) => primary_id,
            Err(e) => return Err(e),
        };
        match manager.make_replica(primary_id.as_str(), timeline, gone) {
            Ok(replica) => Ok(replica),
            Err(e) => Err(FormatterError::Manager(e)),
        }
    }

    /// Saving a replica does nothing, and succeeds.
    pub fn save_to_uri(&self, timeline: u64, uri: &str, overwrite: bool) -> (r: Result<
        (),
        FormatterError,
    >)
        ensures
            r is Ok,
    {
        Ok(())
    }
}

/// The URI of a primary is one that the formatter loads, and gives its ID back.
pub proof fn law_uri_gives_the_id_back(primary_id: Seq<char>)
    ensures
        is_reference(uri_of(primary_id)),
        primary_id_of(uri_of(primary_id)) == primary_id,
{
    let prefix = "gessubtimeline:"@;
    assert(uri_of(primary_id).take(prefix.len() as int) =~= prefix);
    assert(uri_of(primary_id).skip(prefix.len() as int) =~= primary_id);
}

/// A URI is that of a subtimeline exactly where it is `gessubtimeline:` and an ID, and the ID is all
/// of what follows.
pub proof fn law_references_are_scheme_and_id(uri: Seq<char>, primary_id: Seq<char>)
    ensures
        is_reference(uri) <==> uri == uri_of(primary_id_of(uri)),
        is_reference(uri_of(primary_id)),
        uri_of(primary_id).len() == 15 + primary_id.len(),
        is_reference(uri) ==> uri.len() >= 15 && uri[14] == ':' && uri[0] == 'g',
        uri == uri_of(primary_id) ==> primary_id_of(uri) == primary_id,
{
    reveal_strlit("gessubtimeline:");
    crate::text::law_prefixes_come_first("gessubtimeline:"@, primary_id, uri);
    crate::text::law_prefixes_come_first("gessubtimeline:"@, primary_id_of(uri), uri);
    if is_reference(uri) {
        assert(uri.take(15)[14] == uri[14] && uri.take(15)[0] == uri[0]);
    }
}

} // verus!
