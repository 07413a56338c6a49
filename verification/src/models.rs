//! The model cache: descriptors registered by name, handles cached by name,
//! lazy load plans, and time-based eviction.

use vstd::prelude::*;

verus! {

broadcast use vstd::map::group_map_axioms;

/// The kind of a registered model: image embedding or text embedding.
#[derive(Clone, Copy, PartialEq, Eq, Structural, Debug)]
pub enum ModelType {
    Image,
    Text,
}

/// Immutable descriptor for one registered model.
#[derive(Clone, Debug)]
pub struct ModelConfig {
    pub model_type: ModelType,
    pub model_path: String,
    pub tokenizer_path: Option<String>,
    pub image_size: Option<(u32, u32)>,
    pub max_length: Option<usize>,
}

/// An opaque, shareable reference to a constructed model instance. The
/// caller that performs the construction chooses the identifier and keeps
/// the association from identifier to engine object.
#[derive(Clone, Copy, PartialEq, Eq, Structural, Debug)]
pub struct ModelHandle {
    pub id: u64,
    pub kind: ModelType,
}

/// One resident model: its handle and the time of its last retrieval.
#[derive(Clone, Copy, PartialEq, Eq, Structural, Debug)]
pub struct CacheEntry {
    pub handle: ModelHandle,
    pub last_used: u64,
}

/// The payload a request hands to a resolved model.
#[derive(Debug)]
pub enum ModelInput {
    Image(Vec<u8>),
    Text(String),
}

/// Mathematical form of a model input.
pub enum ModelInputView {
    Image(Seq<u8>),
    Text(Seq<char>),
}

impl View for ModelInput {
    type V = ModelInputView;

    open spec fn view(&self) -> ModelInputView {
        match self {
            ModelInput::Image(b) => ModelInputView::Image(b@),
            ModelInput::Text(t) => ModelInputView::Text(t@),
        }
    }
}

/// Everything the external engine needs to construct one model.
#[derive(Debug)]
pub enum LoadPlan {
    Image { model_path: String, image_size: (u32, u32) },
    Text { model_path: String, tokenizer_path: String, max_length: usize },
}

/// Mathematical form of a load plan.
pub enum LoadPlanView {
    Image { model_path: Seq<char>, image_size: (u32, u32) },
    Text { model_path: Seq<char>, tokenizer_path: Seq<char>, max_length: usize },
}

impl View for LoadPlan {
    type V = LoadPlanView;

    open spec fn view(&self) -> LoadPlanView {
        match self {
            LoadPlan::Image { model_path, image_size } => LoadPlanView::Image {
                model_path: model_path@,
                image_size: *image_size,
            },
            LoadPlan::Text { model_path, tokenizer_path, max_length } => LoadPlanView::Text {
                model_path: model_path@,
                tokenizer_path: tokenizer_path@,
                max_length: *max_length,
            },
        }
    }
}

/// Why a lookup failed before any construction was attempted.
#[derive(Clone, Copy, PartialEq, Eq, Structural, Debug)]
pub enum CacheError {
    /// No descriptor is registered under the requested name.
    NotFound,
    /// The descriptor lacks a field its kind requires.
    ConfigError,
}

/// What a successful lookup yields: a resident handle, or the plan for the
/// one construction the caller must perform and then install.
#[derive(Debug)]
pub enum GetOutcome {
    Loaded(ModelHandle),
    MustLoad(LoadPlan),
}

/// The construction a descriptor calls for, if it is complete: an image
/// descriptor must carry an image size, a text descriptor both a tokenizer
/// path and a maximum sequence length.
pub open spec fn required_plan(c: ModelConfig) -> Option<LoadPlanView> {
    match c.model_type {
        ModelType::Image => match c.image_size {
            Some(sz) => Some(
                LoadPlanView::Image { model_path: c.model_path@, image_size: sz },
            ),
            None => None,
        },
        ModelType::Text => match c.tokenizer_path {
            Some(tok) => match c.max_length {
                Some(ml) => Some(
                    LoadPlanView::Text {
                        model_path: c.model_path@,
                        tokenizer_path: tok@,
                        max_length: ml,
                    },
                ),
                None => None,
            },
            None => None,
        },
    }
}

/// How long an entry has sat unused, never negative.
pub open spec fn idle_time(now: u64, last_used: u64) -> int {
    if now >= last_used {
        now - last_used
    } else {
        0
    }
}

/// What a sweep leaves behind: exactly the entries whose idle time is under
/// the time-to-live, unchanged.
pub open spec fn live_cache(c: Map<Seq<char>, CacheEntry>, ttl: u64, now: u64) -> Map<
    Seq<char>,
    CacheEntry,
> {
    Map::new(
        |k: Seq<char>| c.contains_key(k) && idle_time(now, c[k].last_used) < ttl,
        |k: Seq<char>| c[k],
    )
}

/// What one lookup decides, as a function of the two tables alone.
pub enum LookupOutcome {
    Hit(ModelHandle),
    Load(LoadPlanView),
    Fail(CacheError),
}

/// The decision `get_or_load_model` makes: reuse a resident handle, demand
/// the one construction a complete descriptor calls for, or fail.
pub open spec fn spec_lookup(
    cache: Map<Seq<char>, CacheEntry>,
    configs: Map<Seq<char>, ModelConfig>,
    name: Seq<char>,
) -> LookupOutcome {
    if cache.contains_key(name) {
        LookupOutcome::Hit(cache[name].handle)
    } else if !configs.contains_key(name) {
        LookupOutcome::Fail(CacheError::NotFound)
    } else {
        match required_plan(configs[name]) {
            Some(p) => LookupOutcome::Load(p),
            None => LookupOutcome::Fail(CacheError::ConfigError),
        }
    }
}

/// The name-keyed association underlying both tables, as a map.
pub open spec fn key_map<V>(s: Seq<(String, V)>) -> Map<Seq<char>, V>
    decreases s.len(),
{
    if s.len() == 0 {
        Map::empty()
    } else {
        key_map(s.drop_last()).insert(s.last().0@, s.last().1)
    }
}

/// No two entries of the association share a name.
pub open spec fn keys_unique<V>(s: Seq<(String, V)>) -> bool {
    forall|i: int, j: int| 0 <= i < j < s.len() ==> s[i].0@ != s[j].0@
}

proof fn lemma_keys_unique_drop_last<V>(s: Seq<(String, V)>)
    requires
        keys_unique(s),
        s.len() > 0,
    ensures
        keys_unique(s.drop_last()),
{
    assert forall|i: int, j: int| 0 <= i < j < s.drop_last().len() implies s.drop_last()[i].0@
        != s.drop_last()[j].0@ by {
        assert(s.drop_last()[i] == s[i]);
        assert(s.drop_last()[j] == s[j]);
    }
}

proof fn lemma_key_map_contains<V>(s: Seq<(String, V)>, k: Seq<char>)
    ensures
        key_map(s).contains_key(k) <==> exists|i: int| 0 <= i < s.len() && s[i].0@ == k,
    decreases s.len(),
{
    if s.len() == 0 {
    } else {
        lemma_key_map_contains(s.drop_last(), k);
        if s.last().0@ == k {
            assert(s[s.len() - 1].0@ == k);
        } else {
            if key_map(s).contains_key(k) {
                let i = choose|i: int| 0 <= i < s.drop_last().len() && s.drop_last()[i].0@ == k;
                assert(s[i].0@ == k);
            }
            if exists|i: int| 0 <= i < s.len() && s[i].0@ == k {
                let i = choose|i: int| 0 <= i < s.len() && s[i].0@ == k;
                assert(i < s.len() - 1);
                assert(s.drop_last()[i].0@ == k);
            }
        }
    }
}

proof fn lemma_key_map_index<V>(s: Seq<(String, V)>, i: int)
    requires
        keys_unique(s),
        0 <= i < s.len(),
    ensures
        key_map(s).contains_key(s[i].0@),
        key_map(s)[s[i].0@] == s[i].1,
    decreases s.len(),
{
    if i == s.len() - 1 {
    } else {
        lemma_keys_unique_drop_last(s);
        lemma_key_map_index(s.drop_last(), i);
        assert(s.drop_last()[i] == s[i]);
        assert(s[i].0@ != s[s.len() - 1].0@);
    }
}

proof fn lemma_key_map_push<V>(s: Seq<(String, V)>, p: (String, V))
    ensures
        key_map(s.push(p)) == key_map(s).insert(p.0@, p.1),
{
    assert(s.push(p).drop_last() =~= s);
    assert(s.push(p).last() == p);
}

proof fn lemma_key_map_update<V>(s: Seq<(String, V)>, i: int, p: (String, V))
    requires
        keys_unique(s),
        0 <= i < s.len(),
        p.0@ == s[i].0@,
    ensures
        keys_unique(s.update(i, p)),
        key_map(s.update(i, p)) == key_map(s).insert(p.0@, p.1),
    decreases s.len(),
{
    let su = s.update(i, p);
    assert forall|a: int, b: int| 0 <= a < b < su.len() implies su[a].0@ != su[b].0@ by {
        assert(su[a].0@ == s[a].0@);
        assert(su[b].0@ == s[b].0@);
    }
    if i == s.len() - 1 {
        assert(su.drop_last() =~= s.drop_last());
        assert(su.last() == p);
        assert(key_map(su) =~= key_map(s).insert(p.0@, p.1));
    } else {
        lemma_keys_unique_drop_last(s);
        lemma_key_map_update(s.drop_last(), i, p);
        assert(su.drop_last() =~= s.drop_last().update(i, p));
        assert(su.last() == s.last());
        assert(p.0@ != s.last().0@);
        assert(key_map(su) =~= key_map(s).insert(p.0@, p.1));
    }
}

proof fn lemma_key_map_remove_at<V>(s: Seq<(String, V)>, i: int)
    requires
        keys_unique(s),
        0 <= i < s.len(),
    ensures
        keys_unique(s.remove(i)),
        key_map(s.remove(i)) == key_map(s).remove(s[i].0@),
    decreases s.len(),
{
    let sr = s.remove(i);
    s.remove_ensures(i);
    assert forall|a: int, b: int| 0 <= a < b < sr.len() implies sr[a].0@ != sr[b].0@ by {
        if a < i {
            assert(sr[a] == s[a]);
        } else {
            assert(sr[a] == s[a + 1]);
        }
        if b < i {
            assert(sr[b] == s[b]);
        } else {
            assert(sr[b] == s[b + 1]);
        }
    }
    if i == s.len() - 1 {
        assert(sr =~= s.drop_last());
        lemma_key_map_contains(s.drop_last(), s[i].0@);
        assert forall|a: int| 0 <= a < s.drop_last().len() implies s.drop_last()[a].0@
            != s[i].0@ by {
            assert(s.drop_last()[a] == s[a]);
        }
        assert(!key_map(s.drop_last()).contains_key(s[i].0@));
        assert(key_map(sr) =~= key_map(s).remove(s[i].0@));
    } else {
        lemma_keys_unique_drop_last(s);
        lemma_key_map_remove_at(s.drop_last(), i);
        assert(sr.drop_last() =~= s.drop_last().remove(i));
        assert(sr.last() == s.last()) by {
            assert(sr[sr.len() - 1] == s[s.len() - 1]);
        }
        assert(s.drop_last()[i] == s[i]);
        assert(s[i].0@ != s.last().0@);
        assert(key_map(sr) =~= key_map(s).remove(s[i].0@));
    }
}

/// Relies on str's PartialEq: two string slices are equal exactly when
/// their character sequences are.
#[verifier::external_body]
fn str_eq(a: &str, b: &str) -> (r: bool)
    ensures
        r == (a@ == b@),
{
    a == b
}

/// The index of the entry registered under `name`, if any.
fn find_index<V>(v: &Vec<(String, V)>, name: &str) -> (r: Option<usize>)
    ensures
        match r {
            Some(i) => i < v@.len() && v@[i as int].0@ == name@,
            None => forall|j: int| 0 <= j < v@.len() ==> v@[j].0@ != name@,
        },
{
    let mut i: usize = 0;
    while i < v.len()
        invariant
            i <= v@.len(),
            forall|j: int| 0 <= j < i ==> v@[j].0@ != name@,
        decreases v@.len() - i,
    {
        if str_eq(v[i].0.as_str(), name) {
            return Some(i);
        }
        i += 1;
    }
    None
}

/// The core: a table of registered descriptors and a table of resident
/// models, both keyed by name.
pub struct ModelManager {
    models: Vec<(String, CacheEntry)>,
    model_configs: Vec<(String, ModelConfig)>,
}

impl ModelManager {
    /// The resident models, as a map from name to cache entry.
    pub closed spec fn cache(self) -> Map<Seq<char>, CacheEntry> {
        key_map(self.models@)
    }

    /// The registered descriptors, as a map from name to descriptor.
    pub closed spec fn configs(self) -> Map<Seq<char>, ModelConfig> {
        key_map(self.model_configs@)
    }

    /// Both tables keep at most one entry per name.
    pub closed spec fn wf(self) -> bool {
        keys_unique(self.models@) && keys_unique(self.model_configs@)
    }

    /// An empty manager: nothing registered, nothing resident.
    pub fn new() -> (r: ModelManager)
        ensures
            r.wf(),
            r.cache() == Map::<Seq<char>, CacheEntry>::empty(),
            r.configs() == Map::<Seq<char>, ModelConfig>::empty(),
    {
        ModelManager { models: Vec::new(), model_configs: Vec::new() }
    }

    /// Registers `config` under `name`, overwriting any earlier descriptor
    /// of that name; the resident models are untouched.
    pub fn register_model(&mut self, name: String, config: ModelConfig)
        requires
            old(self).wf(),
        ensures
            final(self).wf(),
            final(self).cache() == old(self).cache(),
            final(self).configs() == old(self).configs().insert(name@, config),
    {
        let ghost s0 = self.model_configs@;
        match find_index(&self.model_configs, name.as_str()) {
            Some(i) => {
                self.model_configs[i] = (name, config);
                proof {
                    lemma_key_map_update(s0, i as int, self.model_configs@[i as int]);
                }
            },
            None => {
                self.model_configs.push((name, config));
                proof {
                    lemma_key_map_push(s0, self.model_configs@.last());
                    assert forall|a: int, b: int|
                        0 <= a < b < self.model_configs@.len() implies self.model_configs@[a].0@
                        != self.model_configs@[b].0@ by {
                        if b < s0.len() as int {
                            assert(self.model_configs@[a] == s0[a]);
                            assert(self.model_configs@[b] == s0[b]);
                        } else {
                            assert(self.model_configs@[a] == s0[a]);
                        }
                    }
                }
            },
        }
    }

    /// Looks the name up: a resident model is refreshed and its handle
    /// returned; an absent one yields the load plan its descriptor calls
    /// for, or the error that rules a load out. A failed or pending load
    /// changes nothing, so a broken model is retried in full on every
    /// request.
    pub fn get_or_load_model(&mut self, name: &str, now: u64) -> (r: Result<
        GetOutcome,
        CacheError,
    >)
        requires
            old(self).wf(),
        ensures
            final(self).wf(),
            final(self).configs() == old(self).configs(),
            match spec_lookup(old(self).cache(), old(self).configs(), name@) {
                LookupOutcome::Hit(h) => {
                    &&& r == Ok::<GetOutcome, CacheError>(GetOutcome::Loaded(h))
                    &&& final(self).cache() == old(self).cache().insert(
                        name@,
                        CacheEntry { handle: h, last_used: now },
                    )
                },
                LookupOutcome::Load(p) => {
                    &&& r matches Ok(GetOutcome::MustLoad(lp)) && lp@ == p
                    &&& final(self).cache() == old(self).cache()
                },
                LookupOutcome::Fail(e) => {
                    &&& r == Err::<GetOutcome, CacheError>(e)
                    &&& final(self).cache() == old(self).cache()
                },
            },
    {
        let ghost s0 = self.models@;
        match find_index(&self.models, name) {
            Some(i) => {
                proof {
                    lemma_key_map_index(s0, i as int);
                }
                let h = self.models[i].1.handle;
                self.models[i].1 = CacheEntry { handle: h, last_used: now };
                proof {
                    lemma_key_map_update(s0, i as int, self.models@[i as int]);
                }
                Ok(GetOutcome::Loaded(h))
            },
            None => {
                proof {
                    lemma_key_map_contains(s0, name@);
                    lemma_key_map_contains(self.model_configs@, name@);
                }
                match find_index(&self.model_configs, name) {
                    None => Err(CacheError::NotFound),
                    Some(j) => {
                        proof {
                            lemma_key_map_index(self.model_configs@, j as int);
                        }
                        match Self::load_model(&self.model_configs[j].1) {
                            Ok(plan) => Ok(GetOutcome::MustLoad(plan)),
                            Err(e) => Err(e),
                        }
                    },
                }
            },
        }
    }

    /// The plan for constructing a model from its descriptor, or the
    /// configuration error that rules the construction out.
    fn load_model(config: &ModelConfig) -> (r: Result<LoadPlan, CacheError>)
        ensures
            match required_plan(*config) {
                Some(p) => r matches Ok(plan) && plan@ == p,
                None => r == Err::<LoadPlan, CacheError>(CacheError::ConfigError),
            },
    {
        match config.model_type {
            ModelType::Image => match config.image_size {
                Some(sz) => Ok(
                    LoadPlan::Image { model_path: config.model_path.clone(), image_size: sz },
                ),
                None => Err(CacheError::ConfigError),
            },
            ModelType::Text => match (&config.tokenizer_path, config.max_length) {
                (Some(tok), Some(ml)) => Ok(
                    LoadPlan::Text {
                        model_path: config.model_path.clone(),
                        tokenizer_path: tok.clone(),
                        max_length: ml,
                    },
                ),
                _ => Err(CacheError::ConfigError),
            },
        }
    }

    /// Installs a freshly constructed handle under `name`, marking it used
    /// now. The descriptors are untouched.
    pub fn install_model(&mut self, name: &str, handle: ModelHandle, now: u64)
        requires
            old(self).wf(),
        ensures
            final(self).wf(),
            final(self).configs() == old(self).configs(),
            final(self).cache() == old(self).cache().insert(
                name@,
                CacheEntry { handle, last_used: now },
            ),
    {
        let ghost s0 = self.models@;
        let entry = CacheEntry { handle, last_used: now };
        match find_index(&self.models, name) {
            Some(i) => {
                self.models[i].1 = entry;
                proof {
                    lemma_key_map_update(s0, i as int, self.models@[i as int]);
                }
            },
            None => {
                self.models.push((name.to_owned(), entry));
                proof {
                    lemma_key_map_push(s0, self.models@.last());
                    assert forall|a: int, b: int|
                        0 <= a < b < self.models@.len() implies self.models@[a].0@
                        != self.models@[b].0@ by {
                        if b < s0.len() as int {
                            assert(self.models@[a] == s0[a]);
                            assert(self.models@[b] == s0[b]);
                        } else {
                            assert(self.models@[a] == s0[a]);
                        }
                    }
                }
            },
        }
    }

    /// Sweeps the cache: every entry idle for `ttl` or longer is removed,
    /// every other entry survives untouched. The descriptors are untouched.
    pub fn cleanup_expired_models(&mut self, ttl: u64, now: u64)
        requires
            old(self).wf(),
        ensures
            final(self).wf(),
            final(self).configs() == old(self).configs(),
            final(self).cache() == live_cache(old(self).cache(), ttl, now),
            forall|k: Seq<char>| #[trigger]
                final(self).cache().contains_key(k) <==> (old(self).cache().contains_key(k)
                    && idle_time(now, old(self).cache()[k].last_used) < ttl),
            forall|k: Seq<char>| #[trigger]
                final(self).cache().contains_key(k) ==> final(self).cache()[k]
                    == old(self).cache()[k],
    {
        let ghost s0 = self.models@;
        let mut kept: Vec<(String, CacheEntry)> = Vec::new();
        let mut i: usize = 0;
        while i < self.models.len()
            invariant
                self.models@ == s0,
                keys_unique(s0),
                i <= s0.len(),
                keys_unique(kept@),
                key_map(kept@) == live_cache(key_map(s0.take(i as int)), ttl, now),
                forall|a: int|
                    0 <= a < kept@.len() ==> key_map(s0.take(i as int)).contains_key(
                        #[trigger] kept@[a].0@,
                    ),
            decreases s0.len() - i,
        {
            let ghost prefix = s0.take(i as int);
            let ghost k = s0[i as int].0@;
            proof {
                assert(s0.take(i + 1 as int) =~= prefix.push(s0[i as int]));
                lemma_key_map_push(prefix, s0[i as int]);
                // the name at position i is new to the prefix
                lemma_key_map_contains(prefix, k);
                assert forall|a: int| 0 <= a < prefix.len() implies prefix[a].0@ != k by {
                    assert(prefix[a] == s0[a]);
                }
                assert(!key_map(prefix).contains_key(k));
            }
            let last_used = self.models[i].1.last_used;
            let idle = if now >= last_used {
                now - last_used
            } else {
                0
            };
            if idle < ttl {
                let ghost kept0 = kept@;
                let pair = (self.models[i].0.clone(), self.models[i].1);
                kept.push(pair);
                proof {
                    lemma_key_map_push(kept0, pair);
                    assert(pair == s0[i as int]);
                    assert forall|a: int, b: int|
                        0 <= a < b < kept@.len() implies kept@[a].0@ != kept@[b].0@ by {
                        if b < kept0.len() as int {
                            assert(kept@[a] == kept0[a]);
                            assert(kept@[b] == kept0[b]);
                        } else {
                            assert(kept@[a] == kept0[a]);
                            assert(key_map(prefix).contains_key(kept0[a].0@));
                        }
                    }
                    assert(key_map(kept@) =~= live_cache(
                        key_map(s0.take(i + 1 as int)),
                        ttl,
                        now,
                    ));
                }
            } else {
                proof {
                    assert(key_map(kept@) =~= live_cache(
                        key_map(s0.take(i + 1 as int)),
                        ttl,
                        now,
                    ));
                }
            }
            i += 1;
        }
        proof {
            assert(s0.take(s0.len() as int) =~= s0);
        }
        self.models = kept;
    }

    /// Whether some resident entry carries the handle.
    pub open spec fn handle_resident(c: Map<Seq<char>, CacheEntry>, h: ModelHandle) -> bool {
        exists|k: Seq<char>| #[trigger] c.contains_key(k) && c[k].handle == h
    }

    /// The handles of all resident models, one per cache entry. A holder of
    /// engine objects can drop whatever a sweep has evicted.
    pub fn resident_handles(&self) -> (r: Vec<ModelHandle>)
        requires
            self.wf(),
        ensures
            forall|i: int|
                0 <= i < r@.len() ==> Self::handle_resident(self.cache(), #[trigger] r@[i]),
            forall|k: Seq<char>| #[trigger]
                self.cache().contains_key(k) ==> r@.contains(self.cache()[k].handle),
    {
        let ghost s0 = self.models@;
        let mut r: Vec<ModelHandle> = Vec::new();
        let mut i: usize = 0;
        while i < self.models.len()
            invariant
                self.models@ == s0,
                keys_unique(s0),
                i <= s0.len(),
                r@.len() == i,
                forall|j: int| 0 <= j < i ==> r@[j] == s0[j].1.handle,
            decreases s0.len() - i,
        {
            r.push(self.models[i].1.handle);
            i += 1;
        }
        proof {
            assert forall|t: int|
                0 <= t < r@.len() implies Self::handle_resident(
                self.cache(),
                #[trigger] r@[t],
            ) by {
                lemma_key_map_index(s0, t);
                assert(self.cache().contains_key(s0[t].0@) && self.cache()[s0[t].0@].handle
                    == r@[t]);
            }
            assert forall|k: Seq<char>| #[trigger]
                self.cache().contains_key(k) implies r@.contains(self.cache()[k].handle) by {
                lemma_key_map_contains(s0, k);
                let t = choose|t: int| 0 <= t < s0.len() && s0[t].0@ == k;
                lemma_key_map_index(s0, t);
                assert(r@[t] == self.cache()[k].handle);
            }
        }
        r
    }

    /// Removes the single least-recently used entry, if the cache holds any;
    /// an empty cache is left as it is. The descriptors are untouched.
    pub fn cleanup_oldest_model(&mut self)
        requires
            old(self).wf(),
        ensures
            final(self).wf(),
            final(self).configs() == old(self).configs(),
            old(self).cache() == Map::<Seq<char>, CacheEntry>::empty() ==> final(self).cache()
                == old(self).cache(),
            old(self).cache() != Map::<Seq<char>, CacheEntry>::empty() ==> exists|k: Seq<char>|
                {
                    &&& #[trigger] old(self).cache().contains_key(k)
                    &&& forall|j: Seq<char>| #[trigger]
                        old(self).cache().contains_key(j) ==> old(self).cache()[k].last_used
                            <= old(self).cache()[j].last_used
                    &&& final(self).cache() == old(self).cache().remove(k)
                },
    {
        let ghost s0 = self.models@;
        if self.models.len() == 0 {
            proof {
                assert(self.models@ =~= Seq::<(String, CacheEntry)>::empty());
                assert(self.cache() =~= Map::<Seq<char>, CacheEntry>::empty());
            }
            return ;
        }
        let mut best: usize = 0;
        let mut i: usize = 1;
        while i < self.models.len()
            invariant
                self.models@ == s0,
                1 <= i <= s0.len(),
                best < i,
                forall|t: int|
                    0 <= t < i ==> s0[best as int].1.last_used <= #[trigger] s0[t].1.last_used,
            decreases s0.len() - i,
        {
            if self.models[i].1.last_used < self.models[best].1.last_used {
                best = i;
            }
            i += 1;
        }
        let ghost k = s0[best as int].0@;
        proof {
            lemma_key_map_index(s0, best as int);
            assert(self.cache().contains_key(k));
            assert(self.cache() != Map::<Seq<char>, CacheEntry>::empty());
        }
        self.models.remove(best);
        proof {
            lemma_key_map_remove_at(s0, best as int);
            assert forall|j: Seq<char>| #[trigger]
                old(self).cache().contains_key(j) implies old(self).cache()[k].last_used
                <= old(self).cache()[j].last_used by {
                lemma_key_map_contains(s0, j);
                let t = choose|t: int| 0 <= t < s0.len() && s0[t].0@ == j;
                lemma_key_map_index(s0, t);
            }
        }
    }
}

/// Law: installing a constructed handle makes every later lookup of that
/// name a hit on that very handle, so one construction serves them all.
pub proof fn lemma_single_flight(
    cache: Map<Seq<char>, CacheEntry>,
    configs: Map<Seq<char>, ModelConfig>,
    name: Seq<char>,
    h: ModelHandle,
    now: u64,
)
    ensures
        spec_lookup(
            cache.insert(name, CacheEntry { handle: h, last_used: now }),
            configs,
            name,
        ) == LookupOutcome::Hit(h),
{
}

/// Law: a sweep keeps an entry exactly when its idle time is under the
/// time-to-live, and keeps it unchanged.
pub proof fn lemma_sweep_retention(
    cache: Map<Seq<char>, CacheEntry>,
    ttl: u64,
    now: u64,
    k: Seq<char>,
)
    ensures
        live_cache(cache, ttl, now).contains_key(k) <==> (cache.contains_key(k) && idle_time(
            now,
            cache[k].last_used,
        ) < ttl),
        live_cache(cache, ttl, now).contains_key(k) ==> live_cache(cache, ttl, now)[k] == cache[k],
{
}

/// Law: sweeping out an idle entry makes the next lookup of that name demand
/// exactly the one construction its descriptor calls for, and once that
/// construction is installed, lookups hit again.
pub proof fn lemma_evict_then_reload(
    cache: Map<Seq<char>, CacheEntry>,
    configs: Map<Seq<char>, ModelConfig>,
    name: Seq<char>,
    ttl: u64,
    now: u64,
    h: ModelHandle,
    later: u64,
)
    requires
        cache.contains_key(name),
        idle_time(now, cache[name].last_used) >= ttl,
        configs.contains_key(name),
        required_plan(configs[name]) is Some,
    ensures
        !live_cache(cache, ttl, now).contains_key(name),
        spec_lookup(live_cache(cache, ttl, now), configs, name) == LookupOutcome::Load(
            required_plan(configs[name])->0,
        ),
        spec_lookup(
            live_cache(cache, ttl, now).insert(name, CacheEntry { handle: h, last_used: later }),
            configs,
            name,
        ) == LookupOutcome::Hit(h),
{
}

} // verus!
