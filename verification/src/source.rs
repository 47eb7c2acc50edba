//! Data sources: the description of an offered payload and the handle that
//! owns it.
//!
//! A source is described by its metadata: the advertised MIME types and the
//! supported transfer actions. Metadata may be amended only until the source
//! is published (used as a selection or as a drag payload); later mutation
//! requests are a contract violation by the offering side and are ignored.

use vstd::prelude::*;

use crate::action::DndAction;

verus! {

/// Description of an offered data payload: the advertised MIME types and
/// the set of supported transfer actions.
#[derive(Clone, Debug)]
pub struct SourceMetadata {
    /// MIME types the payload is available as, in the order they were offered.
    pub mime_types: Vec<String>,
    /// Transfer actions the offering side supports.
    pub dnd_action: DndAction,
}

impl SourceMetadata {
    /// Metadata with the given MIME types and no supported action.
    pub fn new(mime_types: Vec<String>) -> (r: SourceMetadata)
        ensures
            r.mime_types == mime_types,
            r.dnd_action == (DndAction { copy: false, move_: false, ask: false }),
    {
        SourceMetadata { mime_types, dnd_action: DndAction { copy: false, move_: false, ask: false } }
    }
}

/// An identity-bearing handle for an offered payload.
///
/// The identity is the protocol id of the owning resource (or a synthetic id
/// for a compositor-owned payload). The handle becomes the active selection
/// or drag payload by reference to this id, never by copying the payload.
#[derive(Clone, Debug)]
pub struct DataSource {
    /// Stable identity of the source.
    pub id: u64,
    /// The payload description, mutable only until the source is published.
    pub metadata: SourceMetadata,
    /// Set once the source is used as a selection or drag payload.
    pub published: bool,
}

impl DataSource {
    /// A fresh, unpublished source with empty metadata.
    pub fn new(id: u64) -> (r: DataSource)
        ensures
            r.id == id,
            r.metadata.mime_types@ == Seq::<String>::empty(),
            r.metadata.dnd_action == (DndAction { copy: false, move_: false, ask: false }),
            !r.published,
    {
        DataSource {
            id,
            metadata: SourceMetadata {
                mime_types: Vec::new(),
                dnd_action: DndAction { copy: false, move_: false, ask: false },
            },
            published: false,
        }
    }

    /// Advertise one more MIME type. Ignored once the source is published:
    /// late mutation by the offering side must be tolerated by ignoring it.
    pub fn offer(&mut self, mime_type: String)
        ensures
            final(self).id == old(self).id,
            final(self).published == old(self).published,
            final(self).metadata.dnd_action == old(self).metadata.dnd_action,
            old(self).published ==> final(self).metadata.mime_types
                == old(self).metadata.mime_types,
            !old(self).published ==> final(self).metadata.mime_types@
                == old(self).metadata.mime_types@.push(mime_type),
    {
        if !self.published {
            self.metadata.mime_types.push(mime_type);
        }
    }

    /// Declare the supported transfer actions. Ignored once published.
    pub fn set_actions(&mut self, actions: DndAction)
        ensures
            final(self).id == old(self).id,
            final(self).published == old(self).published,
            final(self).metadata.mime_types == old(self).metadata.mime_types,
            final(self).metadata.dnd_action == if old(self).published {
                old(self).metadata.dnd_action
            } else {
                actions
            },
    {
        if !self.published {
            self.metadata.dnd_action = actions;
        }
    }

    /// Mark the source as published; its metadata is immutable from here on.
    pub fn publish(&mut self)
        ensures
            final(self).id == old(self).id,
            final(self).metadata == old(self).metadata,
            final(self).published,
    {
        self.published = true;
    }
}

} // verus!
