use vstd::prelude::*;
use crate::errors::StoreError;
use crate::text::str_eq;

verus! {

/// Per-provider connection settings. The sampling temperature is stored in
/// thousandths, so 700 stands for 0.7.
#[derive(Debug)]
pub struct AIProviderSetting {
    pub custom_api_base_url: Option<String>,
    pub selected_model: String,
    pub api_key: Option<String>,
    pub models_list_url: Option<String>,
    pub temperature_milli: u32,
    pub max_tokens: u32,
    pub use_stream: bool,
    pub dynamic_models: Option<Vec<String>>,
    pub last_test_time: Option<u64>,
    pub test_success: Option<bool>,
}

/// One provider's entry of the settings map.
pub struct ProviderEntry {
    pub id: String,
    pub setting: AIProviderSetting,
}

/// The provider settings: the selected provider and the per-provider map.
pub struct AISettings {
    pub selected_provider_id: String,
    pub providers: Vec<ProviderEntry>,
}

fn clone_opt_string(s: &Option<String>) -> (r: Option<String>)
    ensures
        r == *s,
{
    match s {
        Some(x) => Some(x.clone()),
        None => None,
    }
}

fn clone_string_vec(v: &Vec<String>) -> (r: Vec<String>)
    ensures
        r@ == v@,
{
    let mut out: Vec<String> = Vec::new();
    let mut i: usize = 0;
    while i < v.len()
        invariant
            0 <= i <= v@.len(),
            out@ =~= v@.take(i as int),
        decreases v@.len() - i,
    {
        out.push(v[i].clone());
        proof {
            assert(v@.take(i + 1) =~= v@.take(i as int).push(v@[i as int]));
        }
        i = i + 1;
    }
    proof {
        assert(v@.take(v@.len() as int) =~= v@);
    }
    out
}

/// The two settings hold the same values; a cached model list is compared
/// by its contents.
pub open spec fn setting_eq(a: AIProviderSetting, b: AIProviderSetting) -> bool {
    &&& a.custom_api_base_url == b.custom_api_base_url
    &&& a.selected_model == b.selected_model
    &&& a.api_key == b.api_key
    &&& a.models_list_url == b.models_list_url
    &&& a.temperature_milli == b.temperature_milli
    &&& a.max_tokens == b.max_tokens
    &&& a.use_stream == b.use_stream
    &&& (a.dynamic_models is Some <==> b.dynamic_models is Some)
    &&& (a.dynamic_models is Some ==> a.dynamic_models.unwrap()@ == b.dynamic_models.unwrap()@)
    &&& a.last_test_time == b.last_test_time
    &&& a.test_success == b.test_success
}

/// The two settings maps hold the same values, entry for entry.
pub open spec fn settings_eq(a: AISettings, b: AISettings) -> bool {
    &&& a.selected_provider_id == b.selected_provider_id
    &&& a.providers@.len() == b.providers@.len()
    &&& forall|i: int|
        0 <= i < a.providers@.len() ==> (#[trigger] a.providers@[i]).id == b.providers@[i].id
            && setting_eq(a.providers@[i].setting, b.providers@[i].setting)
}

impl AIProviderSetting {
    /// A field-for-field copy of the setting.
    pub fn duplicate(&self) -> (r: Self)
        ensures
            setting_eq(r, *self),
    {
        AIProviderSetting {
            custom_api_base_url: clone_opt_string(&self.custom_api_base_url),
            selected_model: self.selected_model.clone(),
            api_key: clone_opt_string(&self.api_key),
            models_list_url: clone_opt_string(&self.models_list_url),
            temperature_milli: self.temperature_milli,
            max_tokens: self.max_tokens,
            use_stream: self.use_stream,
            dynamic_models: match &self.dynamic_models {
                Some(models) => Some(clone_string_vec(models)),
                None => None,
            },
            last_test_time: self.last_test_time,
            test_success: self.test_success,
        }
    }
}

impl AISettings {
    /// A field-for-field copy of the settings.
    pub fn duplicate(&self) -> (r: Self)
        ensures
            settings_eq(r, *self),
    {
        let mut providers: Vec<ProviderEntry> = Vec::new();
        let mut i: usize = 0;
        while i < self.providers.len()
            invariant
                0 <= i <= self.providers@.len(),
                providers@.len() == i,
                forall|j: int|
                    0 <= j < i ==> (#[trigger] providers@[j]).id == self.providers@[j].id
                        && setting_eq(providers@[j].setting, self.providers@[j].setting),
            decreases self.providers@.len() - i,
        {
            providers.push(
                ProviderEntry {
                    id: self.providers[i].id.clone(),
                    setting: self.providers[i].setting.duplicate(),
                },
            );
            i = i + 1;
        }
        AISettings { selected_provider_id: self.selected_provider_id.clone(), providers }
    }
}

/// Some entry carries this provider identifier.
pub open spec fn provider_has_id(s: Seq<ProviderEntry>, id: Seq<char>) -> bool {
    exists|i: int| 0 <= i < s.len() && (#[trigger] s[i]).id@ == id
}

/// The position of the entry with this identifier (unique when ids are).
pub open spec fn provider_id_index(s: Seq<ProviderEntry>, id: Seq<char>) -> int {
    choose|i: int| 0 <= i < s.len() && (#[trigger] s[i]).id@ == id
}

/// No two entries share a provider identifier.
pub open spec fn unique_provider_ids(s: Seq<ProviderEntry>) -> bool {
    forall|i: int, j: int|
        0 <= i < j < s.len() ==> (#[trigger] s[i]).id@ != (#[trigger] s[j]).id@
}

proof fn lemma_provider_id_index_unique(s: Seq<ProviderEntry>, id: Seq<char>, i: int)
    requires
        unique_provider_ids(s),
        0 <= i < s.len(),
        s[i].id@ == id,
    ensures
        provider_has_id(s, id),
        provider_id_index(s, id) == i,
{
    assert(provider_has_id(s, id));
    let k = provider_id_index(s, id);
    assert(0 <= k < s.len() && s[k].id@ == id);
    if k < i {
        assert(s[k].id@ != s[i].id@);
    } else if k > i {
        assert(s[i].id@ != s[k].id@);
    }
}

/// The settings written on first run: the bundled provider selected with its
/// default model and the given key, and a second, keyless provider as the
/// alternative. The bundled key is configuration handed in by the caller,
/// never compiled in.
pub fn default_settings(bundled_api_key: Option<String>) -> (r: AISettings)
    ensures
        r.selected_provider_id@ == "Copy2AI"@,
        r.providers@.len() == 2,
        r.providers@[0].id@ == "Copy2AI"@,
        ({
            let s = r.providers@[0].setting;
            &&& s.custom_api_base_url is None
            &&& s.selected_model@ == "GLM-4-Flash-250414"@
            &&& s.api_key == bundled_api_key
            &&& s.models_list_url is None
            &&& s.temperature_milli == 700
            &&& s.max_tokens == 2048
            &&& s.use_stream
            &&& s.dynamic_models is None
            &&& s.last_test_time is None
            &&& s.test_success is None
        }),
        r.providers@[1].id@ == "kimi"@,
        ({
            let s = r.providers@[1].setting;
            &&& s.custom_api_base_url is None
            &&& s.selected_model@ == "moonshot-v1-8k"@
            &&& s.api_key is None
            &&& s.models_list_url is None
            &&& s.temperature_milli == 700
            &&& s.max_tokens == 2048
            &&& s.use_stream
            &&& s.dynamic_models is None
            &&& s.last_test_time is None
            &&& s.test_success is None
        }),
        unique_provider_ids(r.providers@),
{
    let mut providers: Vec<ProviderEntry> = Vec::new();
    providers.push(
        ProviderEntry {
            id: "Copy2AI".to_owned(),
            setting: AIProviderSetting {
                custom_api_base_url: None,
                selected_model: "GLM-4-Flash-250414".to_owned(),
                api_key: bundled_api_key,
                models_list_url: None,
                temperature_milli: 700,
                max_tokens: 2048,
                use_stream: true,
                dynamic_models: None,
                last_test_time: None,
                test_success: None,
            },
        },
    );
    providers.push(
        ProviderEntry {
            id: "kimi".to_owned(),
            setting: AIProviderSetting {
                custom_api_base_url: None,
                selected_model: "moonshot-v1-8k".to_owned(),
                api_key: None,
                models_list_url: None,
                temperature_milli: 700,
                max_tokens: 2048,
                use_stream: true,
                dynamic_models: None,
                last_test_time: None,
                test_success: None,
            },
        },
    );
    proof {
        reveal_strlit("Copy2AI");
        reveal_strlit("kimi");
        assert("Copy2AI"@.len() != "kimi"@.len());
    }
    AISettings { selected_provider_id: "Copy2AI".to_owned(), providers }
}

/// The in-memory provider-settings store. Persistence lives with the caller.
pub struct AISettingsManager {
    settings: AISettings,
}

impl AISettingsManager {
    /// The current settings.
    pub closed spec fn spec_settings(&self) -> AISettings {
        self.settings
    }

    /// The store invariant: provider identifiers are unique.
    pub open spec fn wf(&self) -> bool {
        unique_provider_ids(self.spec_settings().providers@)
    }

    /// A manager holding the given settings.
    pub fn with_settings(settings: AISettings) -> (r: Self)
        requires
            unique_provider_ids(settings.providers@),
        ensures
            r.spec_settings() == settings,
            r.wf(),
    {
        AISettingsManager { settings }
    }

    /// A copy of the current settings.
    pub fn get_settings(&self) -> (r: AISettings)
        ensures
            settings_eq(r, self.spec_settings()),
    {
        self.settings.duplicate()
    }

    /// Replaces the settings.
    pub fn update_settings(&mut self, settings: AISettings)
        requires
            unique_provider_ids(settings.providers@),
        ensures
            final(self).spec_settings() == settings,
            final(self).wf(),
    {
        self.settings = settings;
    }

    fn find_index(&self, id: &str) -> (r: Option<usize>)
        ensures
            match r {
                Some(i) => 0 <= i < self.spec_settings().providers@.len() && self.spec_settings(
                ).providers@[i as int].id@ == id@,
                None => !provider_has_id(self.spec_settings().providers@, id@),
            },
    {
        let mut i: usize = 0;
        while i < self.settings.providers.len()
            invariant
                0 <= i <= self.settings.providers@.len(),
                forall|j: int|
                    0 <= j < i ==> (#[trigger] self.settings.providers@[j]).id@ != id@,
            decreases self.settings.providers@.len() - i,
        {
            if str_eq(self.settings.providers[i].id.as_str(), id) {
                return Some(i);
            }
            i = i + 1;
        }
        None
    }

    /// A copy of one provider's setting; fails with `NotFound` for an
    /// unknown provider identifier.
    pub fn get_provider_setting(&self, provider_id: &str) -> (r: Result<
        AIProviderSetting,
        StoreError,
    >)
        requires
            self.wf(),
        ensures
            r is Ok <==> provider_has_id(self.spec_settings().providers@, provider_id@),
            r is Ok ==> setting_eq(
                r.unwrap(),
                self.spec_settings().providers@[provider_id_index(
                    self.spec_settings().providers@,
                    provider_id@,
                )].setting,
            ),
            r is Err ==> r == Err::<AIProviderSetting, StoreError>(StoreError::NotFound),
    {
        match self.find_index(provider_id) {
            Some(i) => {
                proof {
                    lemma_provider_id_index_unique(
                        self.spec_settings().providers@,
                        provider_id@,
                        i as int,
                    );
                }
                Ok(self.settings.providers[i].setting.duplicate())
            },
            None => Err(StoreError::NotFound),
        }
    }

    /// Inserts or replaces one provider's setting under the given
    /// identifier.
    pub fn update_provider_setting(&mut self, provider_id: &str, setting: AIProviderSetting)
        requires
            old(self).wf(),
        ensures
            final(self).wf(),
            final(self).spec_settings().selected_provider_id == old(
                self,
            ).spec_settings().selected_provider_id,
            ({
                let pre = old(self).spec_settings().providers@;
                let post = final(self).spec_settings().providers@;
                if provider_has_id(pre, provider_id@) {
                    let i = provider_id_index(pre, provider_id@);
                    &&& post == pre.update(i, post[i])
                    &&& post[i].id@ == provider_id@
                    &&& post[i].setting == setting
                } else {
                    &&& post.len() == pre.len() + 1
                    &&& post.take(pre.len() as int) == pre
                    &&& post.last().id@ == provider_id@
                    &&& post.last().setting == setting
                }
            }),
    {
        let ghost pre = self.settings.providers@;
        match self.find_index(provider_id) {
            Some(i) => {
                proof {
                    lemma_provider_id_index_unique(pre, provider_id@, i as int);
                }
                self.settings.providers[i] = ProviderEntry { id: provider_id.to_owned(), setting };
                proof {
                    assert forall|a: int, b: int|
                        0 <= a < b < self.settings.providers@.len() implies (
                    #[trigger] self.settings.providers@[a]).id@ != (
                    #[trigger] self.settings.providers@[b]).id@ by {
                        assert(self.settings.providers@[a].id@ == pre[a].id@);
                        assert(self.settings.providers@[b].id@ == pre[b].id@);
                    }
                }
            },
            None => {
                self.settings.providers.push(
                    ProviderEntry { id: provider_id.to_owned(), setting },
                );
                proof {
                    assert forall|a: int, b: int|
                        0 <= a < b < self.settings.providers@.len() implies (
                    #[trigger] self.settings.providers@[a]).id@ != (
                    #[trigger] self.settings.providers@[b]).id@ by {
                        if b == self.settings.providers@.len() - 1 {
                            assert(pre[a] == self.settings.providers@[a]);
                        }
                    }
                    assert(self.settings.providers@.take(pre.len() as int) =~= pre);
                }
            },
        }
    }
}

} // verus!
