//! In-memory storage of API keys for one session. Keys are never returned in
//! full through the status that the frontend sees.
use vstd::prelude::*;
use crate::text::{chars_of, join, join_strings, starts_with, str_eq, string_of, string_views, subvec, trim, trim_string};

verus! {

/// Status of a stored API key (safe to return to the frontend).
#[derive(Debug, Clone)]
pub struct ApiKeyStatus {
    /// Name of the key (e.g., "openai")
    pub key_name: String,
    /// Whether a key is currently stored
    pub configured: bool,
    /// Last 4 bytes of the key if configured, for user verification
    pub last_four: Option<String>,
}

/// Whether a provider is ready to use, and what blocks it.
#[derive(Debug, Clone)]
pub struct ProviderConfigValidation {
    pub ready: bool,
    pub message: String,
    pub blockers: Vec<String>,
}

/// In-memory secret store: key name to key value. Not persisted.
pub struct SecretStore {
    keys: Vec<(String, String)>,
}

/// The name-to-value map that a list of entries holds (later entries win).
pub open spec fn entries_map(e: Seq<(String, String)>) -> Map<Seq<char>, Seq<char>>
    decreases e.len(),
{
    if e.len() == 0 {
        Map::empty()
    } else {
        entries_map(e.drop_last()).insert(e.last().0@, e.last().1@)
    }
}

/// The entries whose name is not `n`, in order.
pub open spec fn without(e: Seq<(String, String)>, n: Seq<char>) -> Seq<(String, String)>
    decreases e.len(),
{
    if e.len() == 0 {
        seq![]
    } else if e.last().0@ == n {
        without(e.drop_last(), n)
    } else {
        without(e.drop_last(), n).push(e.last())
    }
}

pub proof fn lemma_without(e: Seq<(String, String)>, n: Seq<char>)
    ensures
        entries_map(without(e, n)) == entries_map(e).remove(n),
    decreases e.len(),
{
    if e.len() == 0 {
        assert(entries_map(e).remove(n) =~= Map::empty());
    } else {
        lemma_without(e.drop_last(), n);
        let w = without(e.drop_last(), n);
        if e.last().0@ == n {
            assert(entries_map(e).remove(n) =~= entries_map(e.drop_last()).remove(n));
        } else {
            assert(w.push(e.last()).drop_last() =~= w);
            assert(entries_map(e).remove(n) =~= entries_map(e.drop_last()).remove(n).insert(
                e.last().0@,
                e.last().1@,
            ));
        }
    }
}

/// Entries at or after `i` that do not carry name `x` do not change what `x` maps to.
pub proof fn lemma_entries_prefix(e: Seq<(String, String)>, i: int, x: Seq<char>)
    requires
        0 <= i <= e.len(),
        forall|j: int| i <= j < e.len() ==> #[trigger] e[j].0@ != x,
    ensures
        entries_map(e).contains_key(x) == entries_map(e.take(i)).contains_key(x),
        entries_map(e).contains_key(x) ==> entries_map(e)[x] == entries_map(e.take(i))[x],
    decreases e.len() - i,
{
    if i < e.len() {
        let d = e.drop_last();
        assert(d.take(i) =~= e.take(i));
        assert forall|j: int| i <= j < d.len() implies #[trigger] d[j].0@ != x by {
            assert(d[j] == e[j]);
        }
        lemma_entries_prefix(d, i, x);
        assert(e.last().0@ != x);
    } else {
        assert(e.take(i) =~= e);
    }
}

impl View for SecretStore {
    type V = Map<Seq<char>, Seq<char>>;

    closed spec fn view(&self) -> Map<Seq<char>, Seq<char>> {
        entries_map(self.keys@)
    }
}

/// The status of key `name` in a store holding `m`: a stored key longer than
/// four characters shows its last four characters; a shorter one shows
/// nothing, so the full key is never shown.
pub open spec fn status_of(m: Map<Seq<char>, Seq<char>>, name: Seq<char>, s: ApiKeyStatus) -> bool {
    let t = trim(name);
    &&& s.key_name@ == t
    &&& s.configured == m.contains_key(t)
    &&& (m.contains_key(t) && m[t].len() > 4) == (s.last_four is Some)
    &&& (s.last_four matches Some(f) ==> f@ == m[t].skip(m[t].len() - 4))
}

/// Why `set` refuses a key, if it does.
pub open spec fn set_error(name: Seq<char>, value: Seq<char>) -> Option<Seq<char>> {
    if trim(name).len() == 0 {
        Some("Key name cannot be empty."@)
    } else if trim(value).len() == 0 {
        Some("Key value cannot be empty. Provide a valid API key."@)
    } else if trim(name) == "openai"@ && !starts_with(trim(value), "sk-"@) {
        Some("Invalid OpenAI API key format. Keys should start with 'sk-'."@)
    } else {
        None
    }
}

/// The blockers that keep a provider from being used, in order.
pub open spec fn blockers_of(
    m: Map<Seq<char>, Seq<char>>,
    name: Seq<char>,
    local_only_mode: bool,
    cloud_providers_enabled: bool,
) -> Seq<Seq<char>> {
    (if local_only_mode {
        seq!["Local-only mode is on. Disable local-only mode in Settings to use cloud providers."@]
    } else {
        seq![]
    }) + (if !cloud_providers_enabled {
        seq!["Cloud providers are disabled. Enable cloud providers in Settings."@]
    } else {
        seq![]
    }) + (if !m.contains_key(trim(name)) {
        seq![name + " API key is not configured. Add your API key in Settings."@]
    } else {
        seq![]
    })
}

impl SecretStore {
    /// Create a new empty secret store.
    pub fn new() -> (r: Self)
        ensures
            r@ == Map::<Seq<char>, Seq<char>>::empty(),
    {
        SecretStore { keys: Vec::new() }
    }

    /// The index of the entry that name `name` maps to.
    fn find(&self, name: &str) -> (r: Option<usize>)
        ensures
            match r {
                Some(i) => i < self.keys@.len() && self@.contains_key(name@) && self@[name@]
                    == self.keys@[i as int].1@,
                None => !self@.contains_key(name@),
            },
    {
        let mut i: usize = self.keys.len();
        while i > 0
            invariant
                i <= self.keys@.len(),
                forall|j: int| i <= j < self.keys@.len() ==> #[trigger] self.keys@[j].0@ != name@,
            decreases i,
        {
            if str_eq(self.keys[i - 1].0.as_str(), name) {
                proof {
                    lemma_entries_prefix(self.keys@, i as int, name@);
                    let t = self.keys@.take(i as int);
                    assert(t.last() == self.keys@[i - 1]);
                }
                return Some(i - 1);
            }
            i -= 1;
        }
        proof {
            lemma_entries_prefix(self.keys@, 0, name@);
            assert(self.keys@.take(0) =~= seq![]);
        }
        None
    }

    /// Removes every entry named `name`.
    fn remove_all(&mut self, name: &str)
        ensures
            final(self)@ == old(self)@.remove(name@),
    {
        let ghost old_keys = self.keys@;
        let mut kept: Vec<(String, String)> = Vec::new();
        let mut i: usize = 0;
        assert(old_keys.take(0) =~= seq![]);
        while i < self.keys.len()
            invariant
                i <= self.keys@.len(),
                self.keys@ == old_keys,
                kept@ == without(old_keys.take(i as int), name@),
            decreases self.keys.len() - i,
        {
            proof {
                let t = old_keys.take(i as int + 1);
                assert(t.drop_last() =~= old_keys.take(i as int));
                assert(t.last() == old_keys[i as int]);
            }
            if !str_eq(self.keys[i].0.as_str(), name) {
                let e = (self.keys[i].0.clone(), self.keys[i].1.clone());
                kept.push(e);
            }
            i += 1;
        }
        assert(old_keys.take(old_keys.len() as int) =~= old_keys);
        proof {
            lemma_without(old_keys, name@);
        }
        self.keys = kept;
    }

    /// Store a key under a name; both are trimmed. OpenAI keys must start with "sk-".
    pub fn set(&mut self, key_name: &str, key_value: &str) -> (r: Result<(), String>)
        ensures
            match set_error(key_name@, key_value@) {
                Some(m) => r matches Err(e) && e@ == m && final(self)@ == old(self)@,
                None => r is Ok && final(self)@ == old(self)@.insert(trim(key_name@), trim(key_value@)),
            },
    {
        proof {
            reveal_strlit("openai");
            reveal_strlit("sk-");
        }
        let name = trim_string(key_name);
        let value = trim_string(key_value);
        if name.as_str().is_empty() {
            return Err(String::from_str("Key name cannot be empty."));
        }
        if value.as_str().is_empty() {
            return Err(String::from_str("Key value cannot be empty. Provide a valid API key."));
        }
        let vv = crate::text::chars_of(value.as_str());
        let sk = ['s', 'k', '-'];
        assert(sk@ =~= "sk-"@);
        if str_eq(name.as_str(), "openai") && !crate::text::starts_with_chars(&vv, &sk) {
            return Err(String::from_str("Invalid OpenAI API key format. Keys should start with 'sk-'."));
        }
        let ghost before = self@;
        self.remove_all(name.as_str());
        let ghost mid = self.keys@;
        self.keys.push((name, value));
        proof {
            assert(self.keys@.drop_last() =~= mid);
            assert(self@ =~= before.insert(trim(key_name@), trim(key_value@)));
        }
        Ok(())
    }

    /// The status of a key (safe to return to the frontend): whether it is
    /// configured and, when it is longer than four characters, its last four
    /// characters. The full key is never shown.
    pub fn get_status(&self, key_name: &str) -> (r: ApiKeyStatus)
        ensures
            status_of(self@, key_name@, r),
            r.last_four matches Some(f) ==> f@ != self@[trim(key_name@)],
    {
        let name = trim_string(key_name);
        match self.find(name.as_str()) {
            Some(i) => {
                let key = chars_of(self.keys[i].1.as_str());
                let n = key.len();
                let last_four = if n > 4 {
                    let tail = subvec(&key, n - 4, n);
                    Some(string_of(&tail))
                } else {
                    None
                };
                let r = ApiKeyStatus { key_name: name, configured: true, last_four };
                proof {
                    law_status_hides_key(self@, key_name@, r);
                }
                r
            },
            None => ApiKeyStatus { key_name: name, configured: false, last_four: None },
        }
    }

    /// The key value for internal use (never exposed to the frontend).
    pub fn get(&self, key_name: &str) -> (r: Option<String>)
        ensures
            match r {
                Some(v) => self@.contains_key(trim(key_name@)) && v@ == self@[trim(key_name@)],
                None => !self@.contains_key(trim(key_name@)),
            },
    {
        let name = trim_string(key_name);
        match self.find(name.as_str()) {
            Some(i) => Some(self.keys[i].1.clone()),
            None => None,
        }
    }

    /// Delete a stored key, if present.
    pub fn delete(&mut self, key_name: &str)
        ensures
            final(self)@ == old(self)@.remove(trim(key_name@)),
    {
        let name = trim_string(key_name);
        self.remove_all(name.as_str());
    }

    /// Whether a key is configured under this name.
    pub fn is_configured(&self, key_name: &str) -> (r: bool)
        ensures
            r == self@.contains_key(trim(key_name@)),
    {
        let name = trim_string(key_name);
        self.find(name.as_str()).is_some()
    }

    /// Whether a provider is ready to use: local-only mode off, cloud
    /// providers on, and its API key configured.
    pub fn validate_provider_config(
        &self,
        key_name: &str,
        local_only_mode: bool,
        cloud_providers_enabled: bool,
    ) -> (r: ProviderConfigValidation)
        ensures
            string_views(r.blockers@) == blockers_of(self@, key_name@, local_only_mode, cloud_providers_enabled),
            r.ready == (r.blockers@.len() == 0),
            r.ready <==> (!local_only_mode && cloud_providers_enabled && self@.contains_key(
                trim(key_name@),
            )),
            local_only_mode ==> !r.ready,
            r.ready ==> r.message@ == key_name@ + " provider is ready to use."@,
            !r.ready ==> r.message@ == join(string_views(r.blockers@), " "@),
    {
        let mut blockers: Vec<String> = Vec::new();
        if local_only_mode {
            blockers.push(String::from_str(
                "Local-only mode is on. Disable local-only mode in Settings to use cloud providers.",
            ));
        }
        let ghost b1 = blockers@;
        if !cloud_providers_enabled {
            blockers.push(String::from_str(
                "Cloud providers are disabled. Enable cloud providers in Settings.",
            ));
        }
        let ghost b2 = blockers@;
        if !self.is_configured(key_name) {
            blockers.push(String::from_str(key_name).concat(
                " API key is not configured. Add your API key in Settings.",
            ));
        }
        assert(string_views(blockers@) =~= blockers_of(self@, key_name@, local_only_mode, cloud_providers_enabled));
        proof {
            law_provider_ready_needs_all(self@, key_name@, local_only_mode, cloud_providers_enabled);
        }
        if blockers.len() == 0 {
            ProviderConfigValidation {
                ready: true,
                message: String::from_str(key_name).concat(" provider is ready to use."),
                blockers: Vec::new(),
            }
        } else {
            let message = join_strings(&blockers, " ");
            ProviderConfigValidation { ready: false, message, blockers }
        }
    }
}

/// A cloud provider is ready (nothing blocks it) exactly when local-only mode
/// is off, cloud providers are on, and its API key is configured. In
/// particular local-only mode always blocks it, whatever else holds.
pub proof fn law_provider_ready_needs_all(
    m: Map<Seq<char>, Seq<char>>,
    name: Seq<char>,
    local_only_mode: bool,
    cloud_providers_enabled: bool,
)
    ensures
        (blockers_of(m, name, local_only_mode, cloud_providers_enabled).len() == 0) <==> (
        !local_only_mode && cloud_providers_enabled && m.contains_key(trim(name))),
        local_only_mode ==> blockers_of(m, name, local_only_mode, cloud_providers_enabled).len() > 0,
        local_only_mode ==> blockers_of(m, name, local_only_mode, cloud_providers_enabled)[0]
            == "Local-only mode is on. Disable local-only mode in Settings to use cloud providers."@,
{
}

/// A key that was stored is what `get` finds under its (trimmed) name, and
/// the other names keep what they had.
pub proof fn law_set_then_get(m: Map<Seq<char>, Seq<char>>, name: Seq<char>, value: Seq<char>, other: Seq<char>)
    requires
        set_error(name, value) is None,
    ensures
        m.insert(trim(name), trim(value)).contains_key(trim(name)),
        m.insert(trim(name), trim(value))[trim(name)] == trim(value),
        other != trim(name) ==> (m.insert(trim(name), trim(value)).contains_key(other)
            == m.contains_key(other) && (m.contains_key(other) ==> m.insert(trim(name), trim(value))[other]
            == m[other])),
{
}

/// A refused key leaves the store as it was.
pub proof fn law_refused_set_changes_nothing(name: Seq<char>, value: Seq<char>)
    ensures
        trim(value).len() == 0 ==> set_error(name, value) is Some,
        trim(name).len() == 0 ==> set_error(name, value) is Some,
{
}

/// After a delete the name is no longer configured; other names are untouched.
pub proof fn law_delete_forgets(m: Map<Seq<char>, Seq<char>>, name: Seq<char>, other: Seq<char>)
    ensures
        !m.remove(trim(name)).contains_key(trim(name)),
        other != trim(name) ==> m.remove(trim(name)).contains_key(other) == m.contains_key(other),
{
}

/// The status never shows a stored key in full: what it shows is four
/// characters long, and it shows them only of a key longer than that.
pub proof fn law_status_hides_key(m: Map<Seq<char>, Seq<char>>, name: Seq<char>, s: ApiKeyStatus)
    requires
        status_of(m, name, s),
    ensures
        s.last_four matches Some(f) ==> (m.contains_key(trim(name)) && f@.len() == 4 && f@
            != m[trim(name)]),
{
}

impl Default for SecretStore {
    fn default() -> (r: Self)
        ensures
            r@ == Map::<Seq<char>, Seq<char>>::empty(),
    {
        SecretStore::new()
    }
}

} // verus!
