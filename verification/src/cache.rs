//! The settings cache: two generation buffers, an active-generation index,
//! and read/write paths around them.
//!
//! A reader is served from the active generation while it is fresh; a stale
//! read reloads the active generation from the flat store. A writer obtains
//! a working copy loaded fresh from the store into the inactive generation,
//! mutates it, and publishes it only on an explicit save, which upserts the
//! flattened rows and flips the active index; dropping the working copy
//! without saving leaves everything as it was.
//!
//! In the running system the two buffers are read under short-lived read
//! locks, reloads and writes are serialized by a single writer permit, and
//! the index flip is an atomic release store; here the cache is modelled as
//! one exclusively owned value, so that exclusion is what the borrow rules
//! already enforce, and the contracts state what each step does to the
//! state the protocol shares.

use vstd::prelude::*;

use crate::censor::censored_render;
use crate::error::{ErrorKind, SettingsError};
use crate::extensions::{ExtensionDescriptorModel, ExtensionRegistry};
use crate::kvmap::KvMap;
use crate::model::{AppSettings, AppSettingsModel};
use crate::pipeline::{spec_deserialize, spec_serialize, AppSettingsDeserializer};
use crate::secret::SecretCipher;

verus! {

/// How long a loaded generation stays fresh, in milliseconds: the maximum
/// staleness tolerated across cooperating processes sharing one store.
pub const CACHE_TTL_MILLIS: u64 = 60000;

/// One generation: a complete snapshot of the typed configuration plus the
/// instant it expires.
struct SettingsBuffer {
    settings: AppSettings,
    expires: u64,
}

/// The settings cache. It owns its two generation buffers and, in this
/// model, the flat row table itself; the cipher key and the registry are
/// injected at construction and never change afterwards.
pub struct Settings {
    buffer0: SettingsBuffer,
    buffer1: SettingsBuffer,
    cached_index: usize,
    store: KvMap,
    registry: ExtensionRegistry,
    cipher: SecretCipher,
}

impl Settings {
    /// The index of the generation readers currently see.
    pub closed spec fn spec_index(&self) -> int {
        self.cached_index as int
    }

    /// The snapshot a generation holds.
    pub closed spec fn gen_settings(&self, i: int) -> AppSettingsModel {
        if i == 0 {
            self.buffer0.settings@
        } else {
            self.buffer1.settings@
        }
    }

    /// The instant a generation expires.
    pub closed spec fn gen_expires(&self, i: int) -> u64 {
        if i == 0 {
            self.buffer0.expires
        } else {
            self.buffer1.expires
        }
    }

    /// The snapshot readers currently see.
    pub open spec fn active_settings(&self) -> AppSettingsModel {
        self.gen_settings(self.spec_index())
    }

    /// When the active generation expires.
    pub open spec fn active_expires(&self) -> u64 {
        self.gen_expires(self.spec_index())
    }

    /// The rows of the flat store.
    pub closed spec fn store_map(&self) -> Map<Seq<char>, Seq<char>> {
        self.store@
    }

    /// The registered extension sub-sections.
    pub closed spec fn reg_view(&self) -> Seq<ExtensionDescriptorModel> {
        self.registry@
    }

    /// The secret codec's key material.
    pub closed spec fn key(&self) -> Seq<u8> {
        self.cipher.spec_key()
    }

    /// Structural soundness of the cache.
    pub closed spec fn wf(&self) -> bool {
        self.cached_index < 2 && self.store.wf() && self.cipher.wf()
    }

    /// Whether the active generation is still fresh at `now`.
    pub open spec fn is_fresh(&self, now: u64) -> bool {
        now < self.active_expires()
    }
}

/// What a read at `now` yields: the active snapshot while fresh, otherwise
/// whatever a reload of the flat store yields.
pub open spec fn get_outcome(s: Settings, now: u64, has_users: bool) -> Result<
    AppSettingsModel,
    ErrorKind,
> {
    if s.is_fresh(now) {
        Ok(s.active_settings())
    } else {
        spec_deserialize(s.store_map(), s.reg_view(), s.key(), has_users)
    }
}

/// What a read-path reload does to the cache: the active generation is
/// republished with the freshly loaded snapshot and a new expiry, and
/// nothing else moves.
pub open spec fn reload_transition(
    pre: Settings,
    post: Settings,
    m: AppSettingsModel,
    now: u64,
) -> bool {
    &&& post.wf()
    &&& post.spec_index() == pre.spec_index()
    &&& post.active_settings() == m
    &&& post.active_expires() == now + CACHE_TTL_MILLIS
    &&& post.gen_settings(1 - pre.spec_index()) == pre.gen_settings(1 - pre.spec_index())
    &&& post.gen_expires(1 - pre.spec_index()) == pre.gen_expires(1 - pre.spec_index())
    &&& post.store_map() == pre.store_map()
    &&& post.reg_view() == pre.reg_view()
    &&& post.key() == pre.key()
}

/// What opening a write session does to the cache: only the inactive
/// generation's snapshot is overwritten with the fresh working copy;
/// everything a reader can observe stays as it was.
pub open spec fn write_open_transition(pre: Settings, post: Settings, m: AppSettingsModel) -> bool {
    &&& post.wf()
    &&& post.spec_index() == pre.spec_index()
    &&& post.active_settings() == pre.active_settings()
    &&& post.active_expires() == pre.active_expires()
    &&& post.gen_settings(1 - pre.spec_index()) == m
    &&& post.gen_expires(1 - pre.spec_index()) == pre.gen_expires(1 - pre.spec_index())
    &&& post.store_map() == pre.store_map()
    &&& post.reg_view() == pre.reg_view()
    &&& post.key() == pre.key()
}

/// What a committed save does to the cache: the flat store takes the
/// flattened rows as one upsert batch, and only after that does the index
/// flip publish the written generation, whole, with a fresh expiry.
pub open spec fn save_transition(
    pre: Settings,
    post: Settings,
    w: AppSettingsModel,
    now: u64,
) -> bool {
    &&& post.wf()
    &&& post.spec_index() == 1 - pre.spec_index()
    &&& post.active_settings() == w
    &&& post.active_expires() == now + CACHE_TTL_MILLIS
    &&& post.gen_settings(pre.spec_index()) == pre.gen_settings(pre.spec_index())
    &&& post.gen_expires(pre.spec_index()) == pre.gen_expires(pre.spec_index())
    &&& post.store_map() == pre.store_map().union_prefer_right(spec_serialize(w, pre.key()))
    &&& post.reg_view() == pre.reg_view()
    &&& post.key() == pre.key()
}

/// What invalidation does to the cache: the active generation's expiry is
/// forced to `now`, so the next read reloads; nothing else moves.
pub open spec fn invalidate_transition(pre: Settings, post: Settings, now: u64) -> bool {
    &&& post.wf()
    &&& post.spec_index() == pre.spec_index()
    &&& post.active_settings() == pre.active_settings()
    &&& post.active_expires() == now
    &&& post.gen_settings(1 - pre.spec_index()) == pre.gen_settings(1 - pre.spec_index())
    &&& post.gen_expires(1 - pre.spec_index()) == pre.gen_expires(1 - pre.spec_index())
    &&& post.store_map() == pre.store_map()
    &&& post.reg_view() == pre.reg_view()
    &&& post.key() == pre.key()
}

/// A read-only view of the currently valid aggregate. In the running
/// system many readers hold one concurrently under a short-lived read
/// lock; the snapshot behind it never changes while it is held.
pub struct SettingsReadGuard<'a> {
    /// The published snapshot.
    pub settings: &'a AppSettings,
}

/// An exclusive working copy of the typed aggregate, loaded fresh from the
/// flat store. Mutate it in place; nothing is published until [`save`]
/// commits it. Dropping the guard discards the mutation.
///
/// [`save`]: SettingsWriteGuard::save
pub struct SettingsWriteGuard {
    /// The working copy under edit.
    pub settings: AppSettings,
}

impl SettingsWriteGuard {
    /// Commits the working copy: flattens it, upserts the rows into the
    /// flat store, and only after the store took the batch flips the
    /// active-generation index so readers see the new generation whole.
    /// Where the row table is a remote store, the surrounding plumbing owns
    /// that ordering: it must make the row write durable before this
    /// publish step runs.
    pub fn save(self, parent: &mut Settings, now: u64)
        requires
            old(parent).wf(),
            now <= u64::MAX - 60000,
        ensures
            save_transition(*old(parent), *final(parent), self.settings@, now),
            crate::roundtrip::secret_tokens_ok(old(parent).key(), self.settings@),
    {
        let rows: KvMap = self.settings.serialize(&parent.cipher);
        parent.store.upsert_all(&rows);
        let target: usize = 1 - parent.cached_index;
        let buffer = SettingsBuffer { settings: self.settings, expires: now + CACHE_TTL_MILLIS };
        if target == 0 {
            parent.buffer0 = buffer;
        } else {
            parent.buffer1 = buffer;
        }
        parent.cached_index = target;
    }

    /// The censored rendering of the working copy: every leaf as plain
    /// text, with secret-named fields masked. Safe to echo back to an
    /// administrator mid-edit.
    pub fn censored(&self) -> (r: Vec<(String, String)>)
        ensures
            crate::censor::censored_ok(self.settings@, r@),
    {
        censored_render(&self.settings)
    }
}

impl Settings {
    /// Builds the cache: loads the aggregate once from the given rows and
    /// populates both generations with it.
    pub fn new(
        store: KvMap,
        registry: ExtensionRegistry,
        cipher: SecretCipher,
        has_users: bool,
        now: u64,
    ) -> (r: Result<Settings, SettingsError>)
        requires
            store.wf(),
            cipher.wf(),
            now <= u64::MAX - 60000,
        ensures
            r matches Ok(s) ==> (spec_deserialize(store@, registry@, cipher.spec_key(), has_users)
                matches Ok(m) && s.wf() && s.spec_index() == 0 && s.gen_settings(0) == m
                && s.gen_settings(1) == m && s.gen_expires(0) == now + CACHE_TTL_MILLIS
                && s.gen_expires(1) == now + CACHE_TTL_MILLIS && s.store_map() == store@
                && s.reg_view() == registry@ && s.key() == cipher.spec_key()),
            r matches Err(e) ==> spec_deserialize(store@, registry@, cipher.spec_key(), has_users)
                == Err::<AppSettingsModel, ErrorKind>(e@),
    {
        let deserializer = AppSettingsDeserializer;
        match deserializer.deserialize(&store, &registry, &cipher, has_users) {
            Ok(settings) => {
                let copy: AppSettings = settings.clone();
                Ok(
                    Settings {
                        buffer0: SettingsBuffer { settings: copy, expires: now + CACHE_TTL_MILLIS },
                        buffer1: SettingsBuffer {
                            settings,
                            expires: now + CACHE_TTL_MILLIS,
                        },
                        cached_index: 0,
                        store,
                        registry,
                        cipher,
                    },
                )
            },
            Err(e) => Err(e),
        }
    }

    /// The read path: serves the active generation while it is fresh, and
    /// reloads it from the flat store if and only if it has expired. A
    /// failed reload surfaces its error and leaves the previous generation
    /// and its expiry untouched — the last good snapshot is never replaced
    /// by a partially loaded one.
    ///
    /// The last clause is the durable half of publish atomicity: once a
    /// save has upserted a ready aggregate's rows over whatever the store
    /// held before, every stale read that reloads observes that aggregate,
    /// whole.
    pub fn get(&mut self, now: u64, has_users: bool) -> (r: Result<
        SettingsReadGuard,
        SettingsError,
    >)
        requires
            old(self).wf(),
            now <= u64::MAX - 60000,
        ensures
            final(self).wf(),
            r matches Ok(g) ==> get_outcome(*old(self), now, has_users) == Ok::<
                AppSettingsModel,
                ErrorKind,
            >(g.settings@),
            r matches Err(e) ==> get_outcome(*old(self), now, has_users) == Err::<
                AppSettingsModel,
                ErrorKind,
            >(e@),
            old(self).is_fresh(now) ==> *final(self) == *old(self),
            !old(self).is_fresh(now) ==> (match spec_deserialize(
                old(self).store_map(),
                old(self).reg_view(),
                old(self).key(),
                has_users,
            ) {
                Ok(m) => reload_transition(*old(self), *final(self), m, now),
                Err(_) => *final(self) == *old(self),
            }),
            forall|a: AppSettingsModel, base: Map<Seq<char>, Seq<char>>|
                (crate::roundtrip::round_trip_ready(a, old(self).reg_view())
                    && crate::roundtrip::secret_tokens_ok(old(self).key(), a) && old(
                    self,
                ).store_map() == #[trigger] base.union_prefer_right(
                    spec_serialize(a, old(self).key()),
                ) && !old(self).is_fresh(now)) ==> (r matches Ok(g) && g.settings@ == a),
    {
        let fresh: bool = if self.cached_index == 0 {
            now < self.buffer0.expires
        } else {
            now < self.buffer1.expires
        };
        if fresh {
            if self.cached_index == 0 {
                return Ok(SettingsReadGuard { settings: &self.buffer0.settings });
            } else {
                return Ok(SettingsReadGuard { settings: &self.buffer1.settings });
            }
        }
        let deserializer = AppSettingsDeserializer;
        match deserializer.deserialize(&self.store, &self.registry, &self.cipher, has_users) {
            Ok(settings) => {
                let buffer = SettingsBuffer { settings, expires: now + CACHE_TTL_MILLIS };
                if self.cached_index == 0 {
                    self.buffer0 = buffer;
                    Ok(SettingsReadGuard { settings: &self.buffer0.settings })
                } else {
                    self.buffer1 = buffer;
                    Ok(SettingsReadGuard { settings: &self.buffer1.settings })
                }
            },
            Err(e) => Err(e),
        }
    }

    /// What a successful projection read yields: some snapshot the read
    /// path could have returned, passed through the caller's projection.
    pub open spec fn projected<T, F: FnOnce(&AppSettings) -> T>(
        pre: Settings,
        now: u64,
        has_users: bool,
        f: F,
        t: T,
    ) -> bool {
        exists|s: &AppSettings|
            #[trigger] f.ensures((s,), t) && get_outcome(pre, now, has_users) == Ok::<
                AppSettingsModel,
                ErrorKind,
            >(s@)
    }

    /// Reads one value out of the current snapshot: a convenience over the
    /// read path for callers that only need a projection of the aggregate.
    pub fn get_as<T, F: FnOnce(&AppSettings) -> T>(
        &mut self,
        now: u64,
        has_users: bool,
        f: F,
    ) -> (r: Result<T, SettingsError>)
        requires
            old(self).wf(),
            now <= u64::MAX - 60000,
            forall|s: &AppSettings| #[trigger] f.requires((s,)),
        ensures
            final(self).wf(),
            r matches Err(e) ==> get_outcome(*old(self), now, has_users) == Err::<
                AppSettingsModel,
                ErrorKind,
            >(e@),
            r matches Ok(t) ==> Settings::projected(*old(self), now, has_users, f, t),
    {
        match self.get(now, has_users) {
            Ok(guard) => {
                let t: T = f(guard.settings);
                proof {
                    assert(f.ensures((guard.settings,), t));
                    assert(Settings::projected(*old(self), now, has_users, f, t));
                }
                Ok(t)
            },
            Err(e) => Err(e),
        }
    }

    /// The write path: loads a fresh working copy from the flat store —
    /// always, since a writer must start from the latest committed truth —
    /// stores it in the inactive generation, and hands back an exclusive
    /// guard over it. Readers observe nothing until the guard is saved.
    pub fn get_mut(&mut self, has_users: bool) -> (r: Result<SettingsWriteGuard, SettingsError>)
        requires
            old(self).wf(),
        ensures
            final(self).wf(),
            r matches Ok(g) ==> (spec_deserialize(
                old(self).store_map(),
                old(self).reg_view(),
                old(self).key(),
                has_users,
            ) matches Ok(m) && g.settings@ == m && write_open_transition(
                *old(self),
                *final(self),
                m,
            )),
            r matches Err(e) ==> (spec_deserialize(
                old(self).store_map(),
                old(self).reg_view(),
                old(self).key(),
                has_users,
            ) == Err::<AppSettingsModel, ErrorKind>(e@) && *final(self) == *old(self)),
            forall|a: AppSettingsModel, base: Map<Seq<char>, Seq<char>>|
                (crate::roundtrip::round_trip_ready(a, old(self).reg_view())
                    && crate::roundtrip::secret_tokens_ok(old(self).key(), a) && old(
                    self,
                ).store_map() == #[trigger] base.union_prefer_right(
                    spec_serialize(a, old(self).key()),
                )) ==> (r matches Ok(g) && g.settings@ == a),
    {
        let deserializer = AppSettingsDeserializer;
        match deserializer.deserialize(&self.store, &self.registry, &self.cipher, has_users) {
            Ok(settings) => {
                let copy: AppSettings = settings.clone();
                if self.cached_index == 0 {
                    self.buffer1.settings = copy;
                } else {
                    self.buffer0.settings = copy;
                }
                Ok(SettingsWriteGuard { settings })
            },
            Err(e) => Err(e),
        }
    }

    /// Forces the active generation's expiry to `now`, so the very next
    /// read performs a fresh reload even though the normal window has not
    /// elapsed.
    pub fn invalidate_cache(&mut self, now: u64)
        requires
            old(self).wf(),
        ensures
            invalidate_transition(*old(self), *final(self), now),
    {
        if self.cached_index == 0 {
            self.buffer0.expires = now;
        } else {
            self.buffer1.expires = now;
        }
    }

    /// Looks a key up directly in the flat store, as an outside inspector
    /// of the persisted table would.
    pub fn stored_value<'a>(&'a self, key: &str) -> (r: Option<&'a String>)
        requires
            self.wf(),
        ensures
            match r {
                Some(v) => self.store_map().contains_key(key@) && v@ == self.store_map()[key@],
                None => !self.store_map().contains_key(key@),
            },
    {
        self.store.get(key)
    }
}

/// Single-flight reload: once one stale read has republished the active
/// generation, every further read inside the new freshness window is served
/// from that same generation without touching the flat store again.
pub proof fn lemma_single_flight(
    pre: Settings,
    post: Settings,
    m: AppSettingsModel,
    now: u64,
    later: u64,
    has_users: bool,
)
    requires
        reload_transition(pre, post, m, now),
        now <= later < now + CACHE_TTL_MILLIS,
    ensures
        post.is_fresh(later),
        get_outcome(post, later, has_users) == Ok::<AppSettingsModel, ErrorKind>(m),
{
}

/// Publish atomicity: a read after a committed save, inside the published
/// generation's freshness window, observes exactly the saved aggregate —
/// every field of it, never a partially applied edit.
pub proof fn lemma_publish_atomicity(
    pre: Settings,
    post: Settings,
    w: AppSettingsModel,
    now: u64,
    later: u64,
    has_users: bool,
)
    requires
        save_transition(pre, post, w, now),
        now <= later < now + CACHE_TTL_MILLIS,
    ensures
        post.is_fresh(later),
        get_outcome(post, later, has_users) == Ok::<AppSettingsModel, ErrorKind>(w),
{
}

/// Commit discard: opening a write session and dropping the guard without
/// saving changes no read outcome — the working copy lived only in the
/// inactive generation, which readers never consult.
pub proof fn lemma_commit_discard(
    pre: Settings,
    post: Settings,
    m: AppSettingsModel,
    now: u64,
    has_users: bool,
)
    requires
        write_open_transition(pre, post, m),
    ensures
        get_outcome(post, now, has_users) == get_outcome(pre, now, has_users),
{
}

/// Invalidation: after the active generation's expiry is forced to `now`,
/// any read at or after `now` is a fresh reload of the flat store.
pub proof fn lemma_invalidate(
    pre: Settings,
    post: Settings,
    now: u64,
    later: u64,
    has_users: bool,
)
    requires
        invalidate_transition(pre, post, now),
        later >= now,
    ensures
        !post.is_fresh(later),
        get_outcome(post, later, has_users) == spec_deserialize(
            post.store_map(),
            post.reg_view(),
            post.key(),
            has_users,
        ),
{
}

} // verus!
