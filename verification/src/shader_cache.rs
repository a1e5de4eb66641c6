//! The cache of baked shader variants.
//!
//! A baked variant is the complete source of one stage of an effect. Two
//! effects that bake to the same text share one shader of the backend: the
//! cache keeps, for each text it has seen, the handle that the backend gave
//! for it.
//!
//! The cache decides and the application acts. [`ShaderCache::lookup`] says
//! for a text whether its shader is there or has to be created, and which
//! shader that is. The application asks the backend for it and hands what
//! came back to [`ShaderCache::get_or_insert`], which caches a success and
//! hands a failure on.

use crate::backend::{
    table_entries, table_get, table_insert, table_new, wgsl, wgsl_shader, HandleTable,
    ShaderHandle,
};
use bevy::render::render_resource::Shader;
use vstd::pervasive::unreached;
use vstd::prelude::*;

verus! {

/// The backend could not make a shader of a source.
#[derive(Debug, Clone, PartialEq, Eq)]
pub struct CompileError {
    /// What the backend said of the source.
    pub diagnostic: String,
}

/// What the cache answers to a request for a source text.
pub enum Lookup<'a> {
    /// The text is cached: this is its handle, and the backend is not
    /// needed.
    Cached(&'a ShaderHandle),
    /// The text is new: the backend is to create this shader, and what it
    /// gives goes to [`ShaderCache::get_or_insert`].
    Create(Shader),
}

/// Cache of baked shader variants: the backend's handle for each source text.
///
/// Entries are never removed and never replaced.
pub struct ShaderCache {
    /// The handle that was allocated for each baked source text.
    cache: HandleTable,
}

impl View for ShaderCache {
    type V = Map<Seq<char>, ShaderHandle>;

    closed spec fn view(&self) -> Map<Seq<char>, ShaderHandle> {
        table_entries(self.cache)
    }
}

/// The entries of a cache after the backend's answer `created` to a request
/// for `source`: a new text is cached under the handle that was created, a
/// failure and a text that is cached change nothing.
pub open spec fn cached_after(
    before: Map<Seq<char>, ShaderHandle>,
    source: Seq<char>,
    created: Result<ShaderHandle, CompileError>,
) -> Map<Seq<char>, ShaderHandle> {
    if before.contains_key(source) {
        before
    } else {
        match created {
            Ok(handle) => before.insert(source, handle),
            Err(_) => before,
        }
    }
}

/// What the request for `source` comes to: the cached handle where the text
/// is cached, and otherwise what the backend answered, its handle or its
/// failure.
pub open spec fn outcome(
    before: Map<Seq<char>, ShaderHandle>,
    source: Seq<char>,
    created: Result<ShaderHandle, CompileError>,
) -> Result<ShaderHandle, CompileError> {
    if before.contains_key(source) {
        Ok(before[source])
    } else {
        created
    }
}

/// No two source texts of `entries` share a handle.
pub open spec fn distinct_handles(entries: Map<Seq<char>, ShaderHandle>) -> bool {
    forall|a: Seq<char>, b: Seq<char>|
        entries.contains_key(a) && entries.contains_key(b) && a != b ==> (#[trigger] entries[a])
            != (#[trigger] entries[b])
}

/// No entry of `entries` holds `handle`.
pub open spec fn unused_by(entries: Map<Seq<char>, ShaderHandle>, handle: ShaderHandle) -> bool {
    forall|a: Seq<char>| entries.contains_key(a) ==> (#[trigger] entries[a]) != handle
}

impl ShaderCache {
    /// The cache holds finitely many entries.
    #[verifier::type_invariant]
    spec fn holds_finitely_many(self) -> bool {
        self@.dom().finite()
    }

    /// A cache without entries.
    pub fn new() -> (cache: ShaderCache)
        ensures
            cache@ =~= Map::empty(),
    {
        ShaderCache { cache: table_new() }
    }

    /// The handle cached for `source`, if the text has been seen.
    pub fn get(&self, source: &str) -> (found: Option<&ShaderHandle>)
        ensures
            self@.dom().finite(),
            self@.contains_key(source@) ==> found == Some(&self@[source@]),
            !self@.contains_key(source@) ==> found.is_none(),
    {
        proof {
            use_type_invariant(self);
        }
        table_get(&self.cache, source)
    }

    /// Whether the shader of `source` is there or has to be created.
    ///
    /// A text that is cached is answered by its handle. A new text is
    /// answered by the shader that the backend is to create: `source` as
    /// WGSL, and nothing else.
    pub fn lookup(&self, source: &str) -> (answer: Lookup<'_>)
        ensures
            self@.dom().finite(),
            self@.contains_key(source@) ==> answer == Lookup::Cached(&self@[source@]),
            !self@.contains_key(source@) ==> answer == Lookup::Create(wgsl_shader(source@)),
    {
        proof {
            use_type_invariant(self);
        }
        match table_get(&self.cache, source) {
            Some(handle) => Lookup::Cached(handle),
            None => Lookup::Create(wgsl(source.to_string())),
        }
    }

    /// Caches `handle` for `source` unless the text already has a handle, and
    /// returns the handle that the text has afterwards.
    ///
    /// An entry is never replaced: for a text that is cached, `handle` is
    /// dropped and the cached handle is returned.
    pub fn remember(&mut self, source: &str, handle: ShaderHandle) -> (kept: &ShaderHandle)
        ensures
            final(self)@.dom().finite(),
            final(self)@ == cached_after(old(self)@, source@, Ok(handle)),
            Ok::<ShaderHandle, CompileError>(*kept) == outcome(old(self)@, source@, Ok(handle)),
    {
        proof {
            use_type_invariant(&*self);
        }
        if table_get(&self.cache, source).is_none() {
            let mut table = table_new();
            core::mem::swap(&mut table, &mut self.cache);
            table_insert(&mut table, source.to_string(), handle);
            self.cache = table;
        }
        match table_get(&self.cache, source) {
            Some(kept) => kept,
            None => unreached(),
        }
    }

    /// Get an existing baked shader variant, or insert the shader that the
    /// backend created for it into the cache.
    ///
    /// `created` is what the backend answered to the request that
    /// [`ShaderCache::lookup`] made for `source`. A handle is cached for
    /// every later request and returned. A failure is handed on and nothing
    /// is cached, so that a later request asks the backend again. For a text
    /// that is cached the cached handle is returned, whatever `created` is.
    pub fn get_or_insert(
        &mut self,
        source: &str,
        created: Result<ShaderHandle, CompileError>,
    ) -> (handle: Result<&ShaderHandle, CompileError>)
        ensures
            final(self)@.dom().finite(),
            final(self)@ == cached_after(old(self)@, source@, created),
            handle is Ok <==> outcome(old(self)@, source@, created) is Ok,
            handle matches Ok(kept) ==> *kept == outcome(old(self)@, source@, created)->Ok_0,
            handle matches Err(error) ==> error == outcome(old(self)@, source@, created)->Err_0,
    {
        proof {
            use_type_invariant(&*self);
        }
        match created {
            Ok(made) => Ok(self.remember(source, made)),
            Err(error) => {
                match table_get(&self.cache, source) {
                    Some(kept) => Ok(kept),
                    None => Err(error),
                }
            },
        }
    }
}

impl Default for ShaderCache {
    fn default() -> (cache: ShaderCache)
        ensures
            cache@ =~= Map::empty(),
    {
        ShaderCache::new()
    }
}

/// After a request that did not fail, the text is cached under the handle
/// that answered it.
pub proof fn lemma_request_is_cached(
    before: Map<Seq<char>, ShaderHandle>,
    source: Seq<char>,
    created: Result<ShaderHandle, CompileError>,
)
    requires
        outcome(before, source, created) is Ok,
    ensures
        cached_after(before, source, created).contains_key(source),
        cached_after(before, source, created)[source] == outcome(before, source, created)->Ok_0,
{
}

/// A failure of the backend is handed on and is not cached: the cache is as
/// it was, and the text is still new to it.
pub proof fn lemma_failure_is_not_cached(
    before: Map<Seq<char>, ShaderHandle>,
    source: Seq<char>,
    error: CompileError,
)
    requires
        !before.contains_key(source),
    ensures
        outcome(before, source, Err(error)) == Err::<ShaderHandle, CompileError>(error),
        cached_after(before, source, Err(error)) == before,
        !cached_after(before, source, Err(error)).contains_key(source),
{
}

/// A request never removes or replaces an entry: whatever was cached before
/// it is cached after it, under the same handle.
pub proof fn lemma_entries_are_kept(
    before: Map<Seq<char>, ShaderHandle>,
    source: Seq<char>,
    created: Result<ShaderHandle, CompileError>,
    other: Seq<char>,
)
    requires
        before.contains_key(other),
    ensures
        cached_after(before, source, created).contains_key(other),
        cached_after(before, source, created)[other] == before[other],
{
}

/// Two requests for the same text, one after the other, are answered by the
/// same handle, and the second one finds the text cached: the backend is not
/// needed for it, and whatever is handed in for it changes nothing.
pub proof fn lemma_same_source_same_handle(
    before: Map<Seq<char>, ShaderHandle>,
    source: Seq<char>,
    first: Result<ShaderHandle, CompileError>,
    second: Result<ShaderHandle, CompileError>,
)
    requires
        outcome(before, source, first) is Ok,
    ensures
        cached_after(before, source, first).contains_key(source),
        outcome(cached_after(before, source, first), source, second) == outcome(
            before,
            source,
            first,
        ),
        cached_after(cached_after(before, source, first), source, second) == cached_after(
            before,
            source,
            first,
        ),
{
}

/// A cache without entries holds no handle twice.
pub proof fn lemma_empty_cache_has_distinct_handles()
    ensures
        distinct_handles(Map::empty()),
{
}

/// A request keeps the handles of a cache distinct, provided that the handle
/// which the backend made for a new text is one that the cache does not
/// hold. The handle that answers a new text is then held by no other text.
pub proof fn lemma_request_keeps_handles_distinct(
    before: Map<Seq<char>, ShaderHandle>,
    source: Seq<char>,
    created: Result<ShaderHandle, CompileError>,
)
    requires
        distinct_handles(before),
        !before.contains_key(source) && created is Ok ==> unused_by(before, created->Ok_0),
    ensures
        distinct_handles(cached_after(before, source, created)),
{
    let after = cached_after(before, source, created);
    assert forall|a: Seq<char>, b: Seq<char>|
        after.contains_key(a) && after.contains_key(b) && a != b implies (#[trigger] after[a]) != (
    #[trigger] after[b]) by {
        if !before.contains_key(source) && created is Ok {
            if a == source {
                assert(before.contains_key(b));
            } else if b == source {
                assert(before.contains_key(a));
            } else {
                assert(before.contains_key(a) && before.contains_key(b));
            }
        } else {
            assert(before.contains_key(a) && before.contains_key(b));
        }
    }
}

/// Requests for two different texts that both succeed are answered by
/// different handles, provided that the cache held no handle twice and that
/// each handle the backend made for a new text was one that the cache did
/// not hold.
///
/// The backend draws the identifiers of its handles at random, so the
/// proviso is not vacuous: without it a draw may repeat.
pub proof fn lemma_different_sources_different_handles(
    before: Map<Seq<char>, ShaderHandle>,
    source_a: Seq<char>,
    created_a: Result<ShaderHandle, CompileError>,
    source_b: Seq<char>,
    created_b: Result<ShaderHandle, CompileError>,
)
    requires
        source_a != source_b,
        distinct_handles(before),
        outcome(before, source_a, created_a) is Ok,
        outcome(cached_after(before, source_a, created_a), source_b, created_b) is Ok,
        !before.contains_key(source_a) ==> unused_by(before, created_a->Ok_0),
        !cached_after(before, source_a, created_a).contains_key(source_b) ==> unused_by(
            cached_after(before, source_a, created_a),
            created_b->Ok_0,
        ),
    ensures
        outcome(before, source_a, created_a)->Ok_0 != outcome(
            cached_after(before, source_a, created_a),
            source_b,
            created_b,
        )->Ok_0,
        distinct_handles(
            cached_after(cached_after(before, source_a, created_a), source_b, created_b),
        ),
{
    let middle = cached_after(before, source_a, created_a);
    lemma_request_keeps_handles_distinct(before, source_a, created_a);
    lemma_request_keeps_handles_distinct(middle, source_b, created_b);
    lemma_request_is_cached(before, source_a, created_a);
    assert(middle.contains_key(source_a));
    if middle.contains_key(source_b) {
        assert(middle[source_a] != middle[source_b]);
    }
}

} // verus!
