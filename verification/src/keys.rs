//! The store of API keys: profiles with a provider, model and endpoint, the
//! active profile, and the summaries shown on the settings page.
use vstd::prelude::*;
use crate::clock::{new_id, spec_id_of};
use crate::prefs::Prefs;
use crate::text::{eq_ignore_ascii_case, is_blank, is_blank_str, lower_seq, lower_str, owned, starts_with, starts_with_str, str_eq, trim, trim_end_char, trim_end_char_str, trim_str};

verus! {

/// One saved API key with its provider settings.
pub struct KeyEntry {
    pub id: String,
    pub name: String,
    pub key: String,
    pub provider: String,
    pub model: String,
    pub base_url: String,
}

/// All saved keys and the id of the active one.
pub struct KeyStore {
    pub active_id: Option<String>,
    pub keys: Vec<KeyEntry>,
}

/// A key as the settings page lists it (without the secret).
pub struct ApiKeyInfo {
    pub id: String,
    pub name: String,
    pub provider: String,
    pub model: String,
}

/// The key part of the settings page.
pub struct SettingsStateCore {
    pub has_api_key: bool,
    pub active_key_id: Option<String>,
    pub api_keys: Vec<ApiKeyInfo>,
}

/// What a translation request needs from the active key.
pub struct ActiveProfile {
    pub name: String,
    pub provider: String,
    pub model: String,
    pub base_url: String,
    pub key: String,
    pub fallback_models: bool,
}

/// The provider used when none (or an unknown one) is given.
pub fn default_provider() -> (r: String)
    ensures
        r@ == "gemini"@,
{
    owned("gemini")
}

/// One of the supported providers.
pub open spec fn spec_is_provider(code: Seq<char>) -> bool {
    code == "gemini"@ || code == "openai"@ || code == "groq"@ || code == "openrouter"@ || code
        == "custom"@
}

pub fn is_provider(code: &str) -> (r: bool)
    ensures
        r == spec_is_provider(code@),
{
    str_eq(code, "gemini") || str_eq(code, "openai") || str_eq(code, "groq") || str_eq(
        code,
        "openrouter",
    ) || str_eq(code, "custom")
}

/// A provider name trimmed and lower-cased, or `gemini` when that is not a
/// supported provider.
pub open spec fn spec_canonical_provider(code: Seq<char>) -> Seq<char> {
    let c = lower_seq(trim(code));
    if spec_is_provider(c) {
        c
    } else {
        "gemini"@
    }
}

pub fn canonical_provider(code: &str) -> (r: String)
    ensures
        r@ == spec_canonical_provider(code@),
        spec_is_provider(r@),
{
    let t = trim_str(code);
    let c = lower_str(t.as_str());
    if is_provider(c.as_str()) {
        c
    } else {
        default_provider()
    }
}

/// The model of a key: its own model when not blank, else the provider's
/// default (none for a custom endpoint).
pub open spec fn spec_resolved_model(e: KeyEntry) -> Seq<char> {
    if !is_blank(e.model@) {
        trim(e.model@)
    } else {
        let p = spec_canonical_provider(e.provider@);
        if p == "openai"@ {
            "gpt-4o-mini"@
        } else if p == "groq"@ {
            "llama-3.3-70b-versatile"@
        } else if p == "openrouter"@ {
            "google/gemini-2.5-flash"@
        } else if p == "custom"@ {
            Seq::empty()
        } else {
            "gemini-3.1-flash-lite"@
        }
    }
}

pub fn resolved_model(entry: &KeyEntry) -> (r: String)
    ensures
        r@ == spec_resolved_model(*entry),
{
    if !is_blank_str(entry.model.as_str()) {
        return trim_str(entry.model.as_str());
    }
    let p = canonical_provider(entry.provider.as_str());
    if str_eq(p.as_str(), "openai") {
        owned("gpt-4o-mini")
    } else if str_eq(p.as_str(), "groq") {
        owned("llama-3.3-70b-versatile")
    } else if str_eq(p.as_str(), "openrouter") {
        owned("google/gemini-2.5-flash")
    } else if str_eq(p.as_str(), "custom") {
        String::new()
    } else {
        owned("gemini-3.1-flash-lite")
    }
}

/// The model shown for a key.
pub fn display_model(entry: &KeyEntry) -> (r: String)
    ensures
        r@ == spec_resolved_model(*entry),
{
    resolved_model(entry)
}

/// The endpoint of a key: its own base URL (trimmed, without trailing `/`)
/// when not blank, else the provider's endpoint (none for Gemini and custom).
pub open spec fn spec_resolved_base_url(provider: Seq<char>, base_url: Seq<char>) -> Seq<char> {
    if !is_blank(base_url) {
        trim_end_char(trim(base_url), '/')
    } else if provider == "openai"@ {
        "https://api.openai.com/v1"@
    } else if provider == "groq"@ {
        "https://api.groq.com/openai/v1"@
    } else if provider == "openrouter"@ {
        "https://openrouter.ai/api/v1"@
    } else {
        Seq::empty()
    }
}

pub fn resolved_base_url(provider: &str, base_url: &str) -> (r: String)
    ensures
        r@ == spec_resolved_base_url(provider@, base_url@),
{
    if !is_blank_str(base_url) {
        let t = trim_str(base_url);
        return trim_end_char_str(t.as_str(), '/');
    }
    if str_eq(provider, "openai") {
        owned("https://api.openai.com/v1")
    } else if str_eq(provider, "groq") {
        owned("https://api.groq.com/openai/v1")
    } else if str_eq(provider, "openrouter") {
        owned("https://openrouter.ai/api/v1")
    } else {
        String::new()
    }
}

/// The position of the first key with this id at or after `i`.
pub open spec fn find_from(keys: Seq<KeyEntry>, id: Seq<char>, i: int) -> Option<int>
    decreases keys.len() - i,
{
    if i < 0 || i >= keys.len() {
        None
    } else if keys[i].id@ == id {
        Some(i)
    } else {
        find_from(keys, id, i + 1)
    }
}

/// The position of the first key with this id.
pub open spec fn find_key(keys: Seq<KeyEntry>, id: Seq<char>) -> Option<int> {
    find_from(keys, id, 0)
}

/// What `find_from` finds: the first key with the id at or after `i`.
pub proof fn lemma_find_from(keys: Seq<KeyEntry>, id: Seq<char>, i: int)
    requires
        0 <= i <= keys.len(),
    ensures
        find_from(keys, id, i) matches Some(j) ==> i <= j < keys.len() && keys[j].id@ == id
            && forall|k: int| i <= k < j ==> keys[k].id@ != id,
        find_from(keys, id, i) is None ==> forall|k: int| i <= k < keys.len() ==> keys[k].id@ != id,
    decreases keys.len() - i,
{
    if i < keys.len() && keys[i].id@ != id {
        lemma_find_from(keys, id, i + 1);
    }
}

/// Some key has this id.
pub open spec fn has_id(keys: Seq<KeyEntry>, id: Seq<char>) -> bool {
    exists|k: int| 0 <= k < keys.len() && #[trigger] keys[k].id@ == id
}

/// What `find_key` finds, and that it finds nothing exactly when no key has the id.
pub proof fn lemma_find_key(keys: Seq<KeyEntry>, id: Seq<char>)
    ensures
        find_key(keys, id) matches Some(j) ==> 0 <= j < keys.len() && keys[j].id@ == id && forall|
            k: int,
        | 0 <= k < j ==> keys[k].id@ != id,
        find_key(keys, id) is None <==> !has_id(keys, id),
{
    lemma_find_from(keys, id, 0);
}

fn find_index(keys: &Vec<KeyEntry>, id: &str) -> (r: Option<usize>)
    ensures
        r matches Some(i) ==> find_key(keys@, id@) == Some(i as int),
        r is None ==> find_key(keys@, id@) is None,
{
    let mut i: usize = 0;
    while i < keys.len()
        invariant
            i <= keys@.len(),
            find_from(keys@, id@, 0) == find_from(keys@, id@, i as int),
        decreases keys@.len() - i,
    {
        if str_eq(keys[i].id.as_str(), id) {
            return Some(i);
        }
        i = i + 1;
    }
    None
}

/// The secret of the active key, when there is an active key whose id is
/// found and whose secret is not blank.
pub open spec fn spec_active_key(store: KeyStore) -> Option<Seq<char>> {
    match store.active_id {
        None => None,
        Some(a) => match find_key(store.keys@, a@) {
            None => None,
            Some(i) => if is_blank(store.keys@[i].key@) {
                None
            } else {
                Some(store.keys@[i].key@)
            },
        },
    }
}

/// The secret of the active key.
pub fn load_api_key(store: &KeyStore) -> (r: Option<String>)
    ensures
        r matches Some(k) ==> spec_active_key(*store) == Some(k@),
        r is None ==> spec_active_key(*store) is None,
{
    let active_id = match &store.active_id {
        Some(a) => a,
        None => {
            return None;
        },
    };
    match find_index(&store.keys, active_id.as_str()) {
        None => None,
        Some(i) => {
            proof {
                lemma_find_key(store.keys@, active_id@);
            }
            let key = &store.keys[i].key;
            if is_blank_str(key.as_str()) {
                None
            } else {
                Some(key.clone())
            }
        },
    }
}

/// Whether a usable key is active.
pub fn has_api_key(store: &KeyStore) -> (r: bool)
    ensures
        r == spec_active_key(*store) is Some,
{
    match load_api_key(store) {
        Some(key) => !is_blank_str(key.as_str()),
        None => false,
    }
}

/// A listed key describes this entry.
pub open spec fn info_of(info: ApiKeyInfo, e: KeyEntry) -> bool {
    &&& info.id@ == e.id@
    &&& info.name@ == e.name@
    &&& info.provider@ == e.provider@
    &&& info.model@ == spec_resolved_model(e)
}

/// The summaries of all keys, in order.
pub fn key_summaries(store: &KeyStore) -> (r: Vec<ApiKeyInfo>)
    ensures
        r@.len() == store.keys@.len(),
        forall|i: int| 0 <= i < r@.len() ==> info_of(#[trigger] r@[i], store.keys@[i]),
{
    let mut out: Vec<ApiKeyInfo> = Vec::new();
    let mut i: usize = 0;
    while i < store.keys.len()
        invariant
            i <= store.keys@.len(),
            out@.len() == i,
            forall|j: int| 0 <= j < i ==> info_of(#[trigger] out@[j], store.keys@[j]),
        decreases store.keys@.len() - i,
    {
        let e = &store.keys[i];
        out.push(
            ApiKeyInfo {
                id: e.id.clone(),
                name: e.name.clone(),
                provider: e.provider.clone(),
                model: display_model(e),
            },
        );
        i = i + 1;
    }
    out
}

/// An active key id is set and some key with that id has a secret that is
/// not blank.
pub open spec fn spec_snapshot_has_key(store: KeyStore) -> bool {
    match store.active_id {
        None => false,
        Some(a) => exists|k: int|
            0 <= k < store.keys@.len() && #[trigger] store.keys@[k].id@ == a@ && !is_blank(
                store.keys@[k].key@,
            ),
    }
}

/// The key part of the settings page describes the store.
pub open spec fn is_snapshot(core: SettingsStateCore, store: KeyStore) -> bool {
    &&& core.has_api_key == spec_snapshot_has_key(store)
    &&& core.active_key_id == store.active_id
    &&& core.api_keys@.len() == store.keys@.len()
    &&& forall|i: int| 0 <= i < core.api_keys@.len() ==> info_of(#[trigger] core.api_keys@[i], store.keys@[i])
}

/// What the settings page shows of the key store.
pub fn snapshot_keys(store: &KeyStore) -> (r: SettingsStateCore)
    ensures
        is_snapshot(r, *store),
{
    let has = match &store.active_id {
        None => false,
        Some(a) => {
            let mut found = false;
            let mut i: usize = 0;
            while i < store.keys.len()
                invariant
                    i <= store.keys@.len(),
                    store.active_id == Some(*a),
                    found == exists|k: int|
                        0 <= k < i && #[trigger] store.keys@[k].id@ == a@ && !is_blank(
                            store.keys@[k].key@,
                        ),
                decreases store.keys@.len() - i,
            {
                let e = &store.keys[i];
                if str_eq(e.id.as_str(), a.as_str()) && !is_blank_str(e.key.as_str()) {
                    found = true;
                }
                i = i + 1;
            }
            found
        },
    };
    let active = match &store.active_id {
        Some(a) => Some(a.clone()),
        None => None,
    };
    SettingsStateCore { has_api_key: has, active_key_id: active, api_keys: key_summaries(store) }
}

/// Why a new key is refused, given its trimmed name, secret, provider
/// (lower-cased), model and base URL (without trailing `/`); the secret must
/// be at least 8 bytes of UTF-8.
pub open spec fn add_error(
    keys: Seq<KeyEntry>,
    name: Seq<char>,
    key: Seq<char>,
    provider: Seq<char>,
    model: Seq<char>,
    base_url: Seq<char>,
) -> Option<Seq<char>> {
    if name.len() == 0 {
        Some("err:name"@)
    } else if (vstd::utf8::encode_utf8(key).len() as usize) < 8 {
        Some("err:key"@)
    } else if !spec_is_provider(provider) {
        Some("err:provider"@)
    } else if provider == "custom"@ && !starts_with(base_url, "https://"@) {
        Some("err:base_url"@)
    } else if model.len() == 0 && provider != "gemini"@ {
        Some("err:model"@)
    } else if exists|k: int| 0 <= k < keys.len() && lower_seq(#[trigger] keys[k].name@) == lower_seq(name) {
        Some("err:duplicate"@)
    } else {
        None
    }
}

/// Adds a key under a fresh id (it becomes active when none is); the name,
/// secret, model and base URL are trimmed, the provider lower-cased, and a
/// trailing `/` is dropped from the base URL. Refused keys change nothing.
pub fn add_api_key(
    store: &mut KeyStore,
    name: String,
    api_key: String,
    provider: String,
    model: String,
    base_url: String,
) -> (r: Result<SettingsStateCore, String>)
    ensures
        ({
            let err = add_error(
                old(store).keys@,
                trim(name@),
                trim(api_key@),
                lower_seq(trim(provider@)),
                trim(model@),
                trim_end_char(trim(base_url@), '/'),
            );
            &&& r is Ok <==> err is None
            &&& r matches Err(m) ==> err == Some(m@)
        }),
        r is Err ==> *final(store) == *old(store),
        r is Ok ==> {
            let e = final(store).keys@.last();
            &&& final(store).keys@.len() == old(store).keys@.len() + 1
            &&& final(store).keys@.drop_last() == old(store).keys@
            &&& e.name@ == trim(name@)
            &&& e.key@ == trim(api_key@)
            &&& e.provider@ == lower_seq(trim(provider@))
            &&& e.model@ == trim(model@)
            &&& e.base_url@ == trim_end_char(trim(base_url@), '/')
            &&& exists|n: Option<u128>| e.id@ == spec_id_of(n)
            &&& final(store).active_id == if old(store).active_id is None {
                Some(e.id)
            } else {
                old(store).active_id
            }
        },
        r matches Ok(core) ==> is_snapshot(core, *final(store)),
        store_wf(*old(store)) ==> store_wf(*final(store)),
{
    let name = trim_str(name.as_str());
    let key = trim_str(api_key.as_str());
    let provider_t = trim_str(provider.as_str());
    let provider = lower_str(provider_t.as_str());
    let model = trim_str(model.as_str());
    let base_t = trim_str(base_url.as_str());
    let base_url = trim_end_char_str(base_t.as_str(), '/');
    if name.as_str().is_empty() {
        return Err(owned("err:name"));
    }
    if key.as_str().len() < 8 {
        return Err(owned("err:key"));
    }
    if !is_provider(provider.as_str()) {
        return Err(owned("err:provider"));
    }
    if str_eq(provider.as_str(), "custom") && !starts_with_str(base_url.as_str(), "https://") {
        return Err(owned("err:base_url"));
    }
    if model.as_str().is_empty() && !str_eq(provider.as_str(), "gemini") {
        return Err(owned("err:model"));
    }
    let mut i: usize = 0;
    #[verifier::loop_isolation(false)]
    while i < store.keys.len()
        invariant
            i <= store.keys@.len(),
            *store == *old(store),
            forall|k: int| 0 <= k < i ==> lower_seq(#[trigger] store.keys@[k].name@) != lower_seq(name@),
        decreases store.keys@.len() - i,
    {
        if eq_ignore_ascii_case(store.keys[i].name.as_str(), name.as_str()) {
            assert(lower_seq(old(store).keys@[i as int].name@) == lower_seq(name@));
            return Err(owned("err:duplicate"));
        }
        i = i + 1;
    }
    let id = new_id();
    let ghost old_keys = store.keys@;
    store.keys.push(
        KeyEntry {
            id: id.clone(),
            name: name,
            key: key,
            provider: provider,
            model: model,
            base_url: base_url,
        },
    );
    assert(store.keys@.drop_last() =~= old_keys);
    if store.active_id.is_none() {
        store.active_id = Some(id);
    }
    proof {
        let n = store.keys@.len() - 1;
        assert(store.keys@[n].id@ == id@);
        if names_distinct(old_keys) {
            let ks = store.keys@;
            assert forall|a: int, b: int|
                0 <= a < ks.len() && 0 <= b < ks.len() && a != b implies lower_seq(#[trigger] ks[a].name@)
                != lower_seq(#[trigger] ks[b].name@) by {
                if a < n && b < n {
                    assert(ks[a] == old_keys[a] && ks[b] == old_keys[b]);
                } else if a < n {
                    assert(ks[a] == old_keys[a]);
                } else {
                    assert(ks[b] == old_keys[b]);
                }
            }
        }
        if let Some(a) = old(store).active_id {
            if has_id(old_keys, a@) {
                let k = choose|k: int| 0 <= k < old_keys.len() && #[trigger] old_keys[k].id@ == a@;
                assert(store.keys@[k] == old_keys[k]);
            }
        }
    }
    Ok(snapshot_keys(store))
}

/// Makes the key with this id active; an unknown id is refused.
pub fn select_api_key(store: &mut KeyStore, id: String) -> (r: Result<SettingsStateCore, String>)
    ensures
        r is Ok <==> has_id(old(store).keys@, id@),
        r matches Err(m) ==> m@ == "err:not_found"@,
        r is Err ==> *final(store) == *old(store),
        r is Ok ==> final(store).keys == old(store).keys && final(store).active_id == Some(id),
        r matches Ok(core) ==> is_snapshot(core, *final(store)),
        store_wf(*old(store)) ==> store_wf(*final(store)),
{
    proof {
        lemma_find_key(store.keys@, id@);
    }
    if find_index(&store.keys, id.as_str()).is_none() {
        return Err(owned("err:not_found"));
    }
    store.active_id = Some(id);
    Ok(snapshot_keys(store))
}

/// The keys whose id differs from `id`, in order.
pub open spec fn without_id(keys: Seq<KeyEntry>, id: Seq<char>) -> Seq<KeyEntry>
    decreases keys.len(),
{
    if keys.len() == 0 {
        Seq::empty()
    } else if keys.last().id@ == id {
        without_id(keys.drop_last(), id)
    } else {
        without_id(keys.drop_last(), id).push(keys.last())
    }
}

/// Removes every key with this id; when the active key is removed, the first
/// remaining key (if any) becomes active.
pub fn remove_api_key(store: &mut KeyStore, id: String) -> (r: Result<SettingsStateCore, String>)
    ensures
        final(store).keys@ == without_id(old(store).keys@, id@),
        final(store).active_id == match old(store).active_id {
            Some(a) => if a@ == id@ {
                if final(store).keys@.len() > 0 {
                    Some(final(store).keys@[0].id)
                } else {
                    None
                }
            } else {
                Some(a)
            },
            None => None,
        },
        r matches Ok(core) && is_snapshot(core, *final(store)),
        store_wf(*old(store)) ==> store_wf(*final(store)),
        !has_id(final(store).keys@, id@),
{
    let mut rest: Vec<KeyEntry> = Vec::new();
    std::mem::swap(&mut rest, &mut store.keys);
    let ghost before = rest@;
    let mut kept: Vec<KeyEntry> = Vec::new();
    let mut i: usize = 0;
    let n = rest.len();
    assert(before.skip(0) =~= before);
    assert(before.take(0) =~= Seq::<KeyEntry>::empty());
    while i < n
        invariant
            i <= n == before.len(),
            rest@ == before.skip(i as int),
            kept@ == without_id(before.take(i as int), id@),
            store.active_id == old(store).active_id,
            before == old(store).keys@,
        decreases n - i,
    {
        let e = rest.remove(0);
        assert(before.take(i + 1).drop_last() =~= before.take(i as int));
        assert(before.take(i + 1).last() == e);
        assert(rest@ =~= before.skip(i + 1));
        if !str_eq(e.id.as_str(), id.as_str()) {
            kept.push(e);
        }
        i = i + 1;
    }
    assert(before.take(i as int) =~= before);
    store.keys = kept;
    let reset = match &store.active_id {
        Some(a) => str_eq(a.as_str(), id.as_str()),
        None => false,
    };
    if reset {
        store.active_id = if store.keys.len() > 0 {
            Some(store.keys[0].id.clone())
        } else {
            None
        };
    }
    proof {
        lemma_removed_id_is_gone(before, id@);
        if names_distinct(before) {
            lemma_without_id_names(before, id@);
        }
        if store.keys@.len() > 0 {
            assert(store.keys@[0].id@ == store.keys@[0].id@);
        }
        if let Some(a) = old(store).active_id {
            if a@ != id@ {
                lemma_without_id_keeps(before, id@, a@);
            }
        } else {
            if before.len() == 0 {
                assert(without_id(before, id@) =~= Seq::<KeyEntry>::empty());
            }
        }
    }
    Ok(snapshot_keys(store))
}

/// The first key whose id is the active id (meaningful when there is one).
pub open spec fn spec_active_entry(store: KeyStore) -> KeyEntry {
    store.keys@[find_key(store.keys@, store.active_id->0@)->0]
}

/// The settings of the active key for a request: its name and secret, its
/// provider made canonical, its resolved model and endpoint, and whether
/// other Gemini models may be tried. Fails with `err:no_key` when no usable
/// key is active.
pub fn active_profile(store: &KeyStore, prefs: &Prefs) -> (r: Result<ActiveProfile, String>)
    ensures
        r is Ok <==> spec_active_key(*store) is Some,
        r matches Err(m) ==> m@ == "err:no_key"@,
        r matches Ok(p) ==> {
            let e = spec_active_entry(*store);
            &&& p.name@ == e.name@
            &&& p.key@ == e.key@
            &&& p.provider@ == spec_canonical_provider(e.provider@)
            &&& p.model@ == spec_resolved_model(e)
            &&& p.base_url@ == spec_resolved_base_url(p.provider@, e.base_url@)
            &&& p.fallback_models == prefs.fallback_models
        },
{
    let active_id = match &store.active_id {
        Some(a) => a,
        None => {
            return Err(owned("err:no_key"));
        },
    };
    let i = match find_index(&store.keys, active_id.as_str()) {
        Some(i) => i,
        None => {
            return Err(owned("err:no_key"));
        },
    };
    proof {
        lemma_find_key(store.keys@, active_id@);
    }
    let entry = &store.keys[i];
    if is_blank_str(entry.key.as_str()) {
        return Err(owned("err:no_key"));
    }
    let provider = canonical_provider(entry.provider.as_str());
    let base_url = resolved_base_url(provider.as_str(), entry.base_url.as_str());
    Ok(
        ActiveProfile {
            name: entry.name.clone(),
            model: resolved_model(entry),
            base_url: base_url,
            key: entry.key.clone(),
            provider: provider,
            fallback_models: prefs.fallback_models,
        },
    )
}

/// The store made from a key saved by an older version: one active Gemini
/// key named `Varsayılan` under the given id.
pub fn legacy_key_store(id: String, key: String) -> (r: KeyStore)
    ensures
        r.keys@.len() == 1,
        r.active_id == Some(r.keys@[0].id),
        r.keys@[0].id == id,
        r.keys@[0].key == key,
        r.keys@[0].name@ == "Varsayılan"@,
        r.keys@[0].provider@ == "gemini"@,
        r.keys@[0].model@.len() == 0,
        r.keys@[0].base_url@.len() == 0,
{
    let entry = KeyEntry {
        id: id.clone(),
        name: owned("Varsayılan"),
        key: key,
        provider: default_provider(),
        model: String::new(),
        base_url: String::new(),
    };
    let mut keys: Vec<KeyEntry> = Vec::new();
    keys.push(entry);
    KeyStore { active_id: Some(id), keys: keys }
}

/// No two keys share an id.
pub open spec fn ids_unique(keys: Seq<KeyEntry>) -> bool {
    forall|i: int, j: int| 0 <= i < keys.len() && 0 <= j < keys.len() && i != j ==> #[trigger] keys[i].id@ != #[trigger] keys[j].id@
}

/// No two keys have names that differ only in ASCII case.
pub open spec fn names_distinct(keys: Seq<KeyEntry>) -> bool {
    forall|i: int, j: int|
        0 <= i < keys.len() && 0 <= j < keys.len() && i != j ==> lower_seq(#[trigger] keys[i].name@)
            != lower_seq(#[trigger] keys[j].name@)
}

/// The store's invariant: there is an active key exactly when there are
/// keys, the active id belongs to one of them, and no two names differ only
/// in case.
pub open spec fn store_wf(store: KeyStore) -> bool {
    &&& (store.active_id is None <==> store.keys@.len() == 0)
    &&& store.active_id matches Some(a) ==> has_id(store.keys@, a@)
    &&& names_distinct(store.keys@)
}

/// Every key kept by `without_id` is one of the before keys, at a
/// position no earlier than its new one.
pub proof fn lemma_without_id_members(keys: Seq<KeyEntry>, id: Seq<char>)
    ensures
        forall|m: int|
            #![trigger without_id(keys, id)[m]]
            0 <= m < without_id(keys, id).len() ==> exists|k: int|
                m <= k < keys.len() && without_id(keys, id)[m] == #[trigger] keys[k],
    decreases keys.len(),
{
    if keys.len() > 0 {
        let d = keys.drop_last();
        lemma_without_id_members(d, id);
        let w = without_id(d, id);
        assert(w.len() <= d.len()) by {
            assert(id.push('x').len() != id.len());
            lemma_without_id_keeps(d, id, id.push('x'));
        }
        assert forall|m: int| 0 <= m < without_id(keys, id).len() implies exists|k: int|
            m <= k < keys.len() && #[trigger] without_id(keys, id)[m] == keys[k] by {
            if m < w.len() {
                assert(w[m] == w[m]);
                let k = choose|k: int| m <= k < d.len() && w[m] == #[trigger] d[k];
                assert(without_id(keys, id)[m] == w[m]);
                assert(d[k] == keys[k]);
            } else {
                let k = keys.len() - 1;
                assert(without_id(keys, id)[m] == keys[k]);
            }
        }
    }
}

/// Removing keys keeps the names distinct.
pub proof fn lemma_without_id_names(keys: Seq<KeyEntry>, id: Seq<char>)
    requires
        names_distinct(keys),
    ensures
        names_distinct(without_id(keys, id)),
    decreases keys.len(),
{
    if keys.len() > 0 {
        let d = keys.drop_last();
        assert(names_distinct(d)) by {
            assert forall|i: int, j: int|
                0 <= i < d.len() && 0 <= j < d.len() && i != j implies lower_seq(#[trigger] d[i].name@)
                != lower_seq(#[trigger] d[j].name@) by {
                assert(d[i] == keys[i] && d[j] == keys[j]);
            }
        }
        lemma_without_id_names(d, id);
        let w = without_id(d, id);
        if keys.last().id@ != id {
            lemma_without_id_members(d, id);
            let x = keys.last();
            assert forall|i: int, j: int|
                0 <= i < w.push(x).len() && 0 <= j < w.push(x).len() && i != j implies lower_seq(
                #[trigger] w.push(x)[i].name@,
            ) != lower_seq(#[trigger] w.push(x)[j].name@) by {
                if i < w.len() && j < w.len() {
                    assert(w.push(x)[i] == w[i] && w.push(x)[j] == w[j]);
                } else if i < w.len() {
                    let k = choose|k: int| i <= k < d.len() && #[trigger] w[i] == d[k];
                    assert(w.push(x)[i] == d[k]);
                    assert(d[k] == keys[k]);
                    assert(x == keys[keys.len() - 1]);
                } else {
                    let k = choose|k: int| j <= k < d.len() && #[trigger] w[j] == d[k];
                    assert(w.push(x)[j] == d[k]);
                    assert(d[k] == keys[k]);
                    assert(x == keys[keys.len() - 1]);
                }
            }
        }
    }
}

/// With unique ids, the settings page reports a usable key exactly when
/// `has_api_key` does.
pub proof fn lemma_snapshot_agrees_with_has_api_key(store: KeyStore)
    requires
        ids_unique(store.keys@),
    ensures
        spec_snapshot_has_key(store) == spec_active_key(store) is Some,
{
    if let Some(a) = store.active_id {
        lemma_find_key(store.keys@, a@);
        if spec_snapshot_has_key(store) {
            let k = choose|k: int|
                0 <= k < store.keys@.len() && #[trigger] store.keys@[k].id@ == a@ && !is_blank(
                    store.keys@[k].key@,
                );
            let j = find_key(store.keys@, a@)->0;
            assert(j == k);
        }
    }
}

/// Removing `id` keeps the keys with any other id, removes every key with `id`, and never adds keys.
pub proof fn lemma_without_id_keeps(keys: Seq<KeyEntry>, id: Seq<char>, a: Seq<char>)
    requires
        a != id,
    ensures
        has_id(keys, a) ==> has_id(without_id(keys, id), a),
        !has_id(without_id(keys, id), id),
        without_id(keys, id).len() <= keys.len(),
    decreases keys.len(),
{
    if keys.len() > 0 {
        lemma_without_id_keeps(keys.drop_last(), id, a);
        let w = without_id(keys.drop_last(), id);
        if has_id(keys, a) {
            let k = choose|k: int| 0 <= k < keys.len() && #[trigger] keys[k].id@ == a;
            if k < keys.len() - 1 {
                assert(keys.drop_last()[k].id@ == a);
                assert(has_id(keys.drop_last(), a));
                let m = choose|m: int| 0 <= m < w.len() && #[trigger] w[m].id@ == a;
                if keys.last().id@ != id {
                    assert(w.push(keys.last())[m].id@ == a);
                }
            } else {
                assert(w.push(keys.last())[w.len() as int].id@ == a);
            }
        }
        if keys.last().id@ != id {
            assert forall|m: int| 0 <= m < w.push(keys.last()).len() implies #[trigger] w.push(
                keys.last(),
            )[m].id@ != id by {
                if m < w.len() {
                    assert(w.push(keys.last())[m] == w[m]);
                }
            }
        }
    }
}

/// After `remove_api_key(id)` no key has that id.
pub proof fn lemma_removed_id_is_gone(keys: Seq<KeyEntry>, id: Seq<char>)
    ensures
        !has_id(without_id(keys, id), id),
{
    let other = id.push('x');
    assert(other != id) by {
        assert(other.len() != id.len());
    }
    lemma_without_id_keeps(keys, id, other);
}


/// A key without its own endpoint goes to its provider's OpenAI-compatible
/// endpoint: OpenAI at `https://api.openai.com/v1`, Groq at
/// `https://api.groq.com/openai/v1`, OpenRouter at
/// `https://openrouter.ai/api/v1`; Gemini and custom keys get none. A key
/// with its own endpoint keeps it, trimmed and without trailing slashes.
pub proof fn lemma_default_endpoints(base_url: Seq<char>)
    ensures
        is_blank(base_url) ==> spec_resolved_base_url("openai"@, base_url) == "https://api.openai.com/v1"@,
        is_blank(base_url) ==> spec_resolved_base_url("groq"@, base_url) == "https://api.groq.com/openai/v1"@,
        is_blank(base_url) ==> spec_resolved_base_url("openrouter"@, base_url) == "https://openrouter.ai/api/v1"@,
        is_blank(base_url) ==> spec_resolved_base_url("gemini"@, base_url).len() == 0,
        is_blank(base_url) ==> spec_resolved_base_url("custom"@, base_url).len() == 0,
        forall|p: Seq<char>| !is_blank(base_url) ==> #[trigger] spec_resolved_base_url(p, base_url)
            == trim_end_char(trim(base_url), '/'),
{
    reveal_strlit("openai");
    reveal_strlit("groq");
    reveal_strlit("openrouter");
    reveal_strlit("gemini");
    reveal_strlit("custom");
    assert("groq"@ != "openai"@) by {
        assert("groq"@.len() != "openai"@.len());
    }
    assert("openrouter"@ != "openai"@) by {
        assert("openrouter"@.len() != "openai"@.len());
    }
    assert("openrouter"@ != "groq"@) by {
        assert("openrouter"@.len() != "groq"@.len());
    }
    assert("gemini"@ != "openai"@) by {
        assert("gemini"@[0] != "openai"@[0]);
    }
    assert("gemini"@ != "groq"@) by {
        assert("gemini"@.len() != "groq"@.len());
    }
    assert("gemini"@ != "openrouter"@) by {
        assert("gemini"@.len() != "openrouter"@.len());
    }
    assert("custom"@ != "openai"@) by {
        assert("custom"@[0] != "openai"@[0]);
    }
    assert("custom"@ != "groq"@) by {
        assert("custom"@.len() != "groq"@.len());
    }
    assert("custom"@ != "openrouter"@) by {
        assert("custom"@.len() != "openrouter"@.len());
    }
}



/// A provider code written in lower-case letters, as the supported ones
/// are, is its own canonical form.
proof fn lemma_plain_code_canonical(x: Seq<char>)
    requires
        0 < x.len() < 200,
        forall|i: int| 0 <= i < x.len() ==> 'a' <= #[trigger] x[i] && x[i] <= 'z',
        spec_is_provider(x),
    ensures
        spec_canonical_provider(x) == x,
{
    crate::prompt_laws::lemma_trim_keeps_prefix(x, x.len() as int);
    crate::prompt_laws::lemma_trim_not_longer(x);
    assert(trim(x) =~= x);
    assert(lower_seq(x) =~= x);
}

/// A key without its own model uses its provider's default model:
/// `gpt-4o-mini` for OpenAI, `llama-3.3-70b-versatile` for Groq,
/// `google/gemini-2.5-flash` for OpenRouter, none for a custom endpoint, and
/// `gemini-3.1-flash-lite` for Gemini; a key with its own model keeps it,
/// trimmed.
pub proof fn lemma_default_models(e: KeyEntry)
    ensures
        !is_blank(e.model@) ==> spec_resolved_model(e) == trim(e.model@),
        is_blank(e.model@) && e.provider@ == "openai"@ ==> spec_resolved_model(e) == "gpt-4o-mini"@,
        is_blank(e.model@) && e.provider@ == "groq"@ ==> spec_resolved_model(e) == "llama-3.3-70b-versatile"@,
        is_blank(e.model@) && e.provider@ == "openrouter"@ ==> spec_resolved_model(e)
            == "google/gemini-2.5-flash"@,
        is_blank(e.model@) && e.provider@ == "custom"@ ==> spec_resolved_model(e).len() == 0,
        is_blank(e.model@) && e.provider@ == "gemini"@ ==> spec_resolved_model(e) == "gemini-3.1-flash-lite"@,
{
    lemma_default_endpoints(Seq::<char>::empty());
    reveal_strlit("openai");
    reveal_strlit("groq");
    reveal_strlit("openrouter");
    reveal_strlit("gemini");
    reveal_strlit("custom");
    if is_blank(e.model@) {
        let c = e.provider@;
        if c == "openai"@ || c == "groq"@ || c == "openrouter"@ || c == "gemini"@ || c == "custom"@ {
            assert forall|i: int| 0 <= i < c.len() implies 'a' <= #[trigger] c[i] && c[i] <= 'z' by {
                crate::rule_table_laws::lemma_small_index(i);
            }
            lemma_plain_code_canonical(c);
        }
    }
}

} // verus!
