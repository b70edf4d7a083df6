//! Conversation threads.

use vstd::prelude::*;
use crate::ids::{new_id, now_micros};
use crate::tensorzero::request::opt_str_view;

verus! {

/// A conversation thread that groups related messages. Identifiers are 128-bit
/// integers, timestamps microseconds since the Unix epoch, metadata JSON text.
#[derive(Debug)]
pub struct Thread {
    /// Unique thread identifier.
    pub id: u128,
    /// External identifier (e.g. user ID, session ID).
    pub external_id: String,
    /// Slug of the agent serving the thread.
    pub agent_slug: Option<String>,
    /// Title of the thread.
    pub title: Option<String>,
    /// TensorZero episode ID for this thread.
    pub episode_id: Option<u128>,
    /// Optional metadata for the thread (JSON text).
    pub metadata: Option<String>,
    /// When the thread was created.
    pub created_at: i64,
    /// When the thread was last updated.
    pub updated_at: i64,
}

impl Thread {
    /// A thread with a given identifier, owner and creation time, and nothing else set.
    pub fn with_parts(id: u128, external_id: &str, now: i64) -> (r: Self)
        ensures
            r.id == id,
            r.external_id@ == external_id@,
            r.agent_slug is None,
            r.title is None,
            r.episode_id is None,
            r.metadata is None,
            r.created_at == now,
            r.updated_at == now,
    {
        Thread {
            id,
            external_id: external_id.to_string(),
            agent_slug: None,
            title: None,
            episode_id: None,
            metadata: None,
            created_at: now,
            updated_at: now,
        }
    }

    /// Create a new thread with a fresh identifier.
    pub fn new(external_id: &str) -> (r: Self)
        ensures
            r.external_id@ == external_id@,
            r.agent_slug is None,
            r.title is None,
            r.episode_id is None,
            r.metadata is None,
            r.created_at == r.updated_at,
    {
        let id = new_id();
        let now = now_micros();
        Self::with_parts(id, external_id, now)
    }

    /// Create a new thread with a specific identifier.
    pub fn with_id(id: u128, external_id: &str) -> (r: Self)
        ensures
            r.id == id,
            r.external_id@ == external_id@,
            r.agent_slug is None,
            r.title is None,
            r.episode_id is None,
            r.metadata is None,
            r.created_at == r.updated_at,
    {
        let now = now_micros();
        Self::with_parts(id, external_id, now)
    }

    /// Set the episode ID.
    pub fn with_episode_id(self, episode_id: u128) -> (r: Self)
        ensures
            r == (Thread { episode_id: Some(episode_id), ..self }),
    {
        Thread { episode_id: Some(episode_id), ..self }
    }

    /// Set the metadata (JSON text).
    pub fn with_metadata(self, metadata: String) -> (r: Self)
        ensures
            r == (Thread { metadata: Some(metadata), ..self }),
    {
        Thread { metadata: Some(metadata), ..self }
    }

    /// Set the agent slug.
    pub fn with_agent_slug(self, slug: &str) -> (r: Self)
        ensures
            opt_str_view(r.agent_slug) == Some(slug@),
            r == (Thread { agent_slug: r.agent_slug, ..self }),
    {
        Thread { agent_slug: Some(slug.to_string()), ..self }
    }

    /// Set the title.
    pub fn with_title(self, title: &str) -> (r: Self)
        ensures
            opt_str_view(r.title) == Some(title@),
            r == (Thread { title: r.title, ..self }),
    {
        Thread { title: Some(title.to_string()), ..self }
    }

    /// Set the `updated_at` timestamp to `now`.
    pub fn touch_at(&mut self, now: i64)
        ensures
            *final(self) == (Thread { updated_at: now, ..*old(self) }),
    {
        self.updated_at = now;
    }

    /// Set the `updated_at` timestamp to the current time.
    pub fn touch(&mut self)
        ensures
            *final(self) == (Thread { updated_at: final(self).updated_at, ..*old(self) }),
    {
        let now = now_micros();
        self.touch_at(now);
    }
}

/// Options for creating or retrieving a thread.
#[derive(Debug)]
pub struct ThreadOptions {
    /// Metadata to set on the thread (JSON text).
    pub metadata: Option<String>,
    /// Force creation of a new thread even if one exists.
    pub force_new: bool,
}

impl ThreadOptions {
    /// Create new options: no metadata, no forced creation.
    pub fn new() -> (r: Self)
        ensures
            r.metadata is None,
            !r.force_new,
    {
        ThreadOptions { metadata: None, force_new: false }
    }

    /// Set metadata (JSON text).
    pub fn metadata(self, metadata: String) -> (r: Self)
        ensures
            r == (ThreadOptions { metadata: Some(metadata), ..self }),
    {
        ThreadOptions { metadata: Some(metadata), ..self }
    }

    /// Force creation of a new thread.
    pub fn force_new(self) -> (r: Self)
        ensures
            r == (ThreadOptions { force_new: true, ..self }),
    {
        ThreadOptions { force_new: true, ..self }
    }
}

} // verus!
