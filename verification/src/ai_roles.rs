use vstd::prelude::*;
use crate::errors::StoreError;
use crate::text::str_eq;

verus! {

/// An AI persona record of the analysis feature, with an optional default
/// marker; default roles cannot be deleted.
pub struct AIRole {
    pub id: String,
    pub name: String,
    pub description: String,
    pub system_prompt: String,
    pub icon: String,
    pub category: String,
    pub is_default: Option<bool>,
}

impl AIRole {
    /// A field-for-field copy of the role.
    pub fn duplicate(&self) -> (r: Self)
        ensures
            r == *self,
    {
        AIRole {
            id: self.id.clone(),
            name: self.name.clone(),
            description: self.description.clone(),
            system_prompt: self.system_prompt.clone(),
            icon: self.icon.clone(),
            category: self.category.clone(),
            is_default: match self.is_default {
                Some(b) => Some(b),
                None => None,
            },
        }
    }
}

/// Some role of the list carries this identifier.
pub open spec fn ai_role_listed(s: Seq<AIRole>, id: Seq<char>) -> bool {
    exists|i: int| 0 <= i < s.len() && (#[trigger] s[i]).id@ == id
}

/// The position of the first role with this identifier, or -1.
pub open spec fn ai_role_first_idx(s: Seq<AIRole>, id: Seq<char>) -> int
    decreases s.len(),
{
    if s.len() == 0 {
        -1
    } else if s[0].id@ == id {
        0
    } else {
        let r = ai_role_first_idx(s.drop_first(), id);
        if r < 0 {
            -1
        } else {
            r + 1
        }
    }
}

proof fn lemma_ai_role_first_idx_at(s: Seq<AIRole>, id: Seq<char>, i: int)
    requires
        0 <= i < s.len(),
        forall|j: int| 0 <= j < i ==> (#[trigger] s[j]).id@ != id,
        s[i].id@ == id,
    ensures
        ai_role_first_idx(s, id) == i,
    decreases i,
{
    if i > 0 {
        assert(forall|j: int| 0 <= j < i - 1 ==> #[trigger] s.drop_first()[j] == s[j + 1]);
        lemma_ai_role_first_idx_at(s.drop_first(), id, i - 1);
    }
}

proof fn lemma_ai_role_first_idx_none(s: Seq<AIRole>, id: Seq<char>)
    requires
        forall|j: int| 0 <= j < s.len() ==> (#[trigger] s[j]).id@ != id,
    ensures
        ai_role_first_idx(s, id) < 0,
    decreases s.len(),
{
    if s.len() > 0 {
        assert(forall|j: int|
            0 <= j < s.drop_first().len() ==> #[trigger] s.drop_first()[j] == s[j + 1]);
        lemma_ai_role_first_idx_none(s.drop_first(), id);
    }
}

/// The chat configuration of the analysis feature. The sampling temperature
/// is stored in thousandths, so 700 stands for 0.7.
pub struct AIConfig {
    pub api_key: Option<String>,
    pub model: String,
    pub temperature_milli: u32,
    pub max_tokens: u32,
}

impl AIConfig {
    /// A field-for-field copy of the configuration.
    pub fn duplicate(&self) -> (r: Self)
        ensures
            r == *self,
    {
        AIConfig {
            api_key: match &self.api_key {
                Some(k) => Some(k.clone()),
                None => None,
            },
            model: self.model.clone(),
            temperature_milli: self.temperature_milli,
            max_tokens: self.max_tokens,
        }
    }
}

/// The configuration used when none is persisted.
pub fn default_ai_config() -> (r: AIConfig)
    ensures
        r.api_key is None,
        r.model@ == "gpt-3.5-turbo"@,
        r.temperature_milli == 700,
        r.max_tokens == 1000,
{
    AIConfig {
        api_key: None,
        model: "gpt-3.5-turbo".to_owned(),
        temperature_milli: 700,
        max_tokens: 1000,
    }
}

/// The in-memory state of the analysis feature: its role list and its chat
/// configuration. Persistence lives with the caller.
pub struct AIManager {
    roles: Vec<AIRole>,
    config: AIConfig,
}

impl View for AIManager {
    type V = Seq<AIRole>;

    closed spec fn view(&self) -> Seq<AIRole> {
        self.roles@
    }
}

impl AIManager {
    /// The current chat configuration.
    pub closed spec fn spec_config(&self) -> AIConfig {
        self.config
    }

    /// A manager holding the given roles, in their stored order, and the
    /// default configuration.
    pub fn new(roles: Vec<AIRole>) -> (r: Self)
        ensures
            r@ == roles@,
            r.spec_config().api_key is None,
            r.spec_config().model@ == "gpt-3.5-turbo"@,
            r.spec_config().temperature_milli == 700,
            r.spec_config().max_tokens == 1000,
    {
        AIManager { roles, config: default_ai_config() }
    }

    /// A manager holding the given roles and configuration.
    pub fn with_config(roles: Vec<AIRole>, config: AIConfig) -> (r: Self)
        ensures
            r@ == roles@,
            r.spec_config() == config,
    {
        AIManager { roles, config }
    }

    /// A copy of the chat configuration.
    pub fn get_config(&self) -> (r: AIConfig)
        ensures
            r == self.spec_config(),
    {
        self.config.duplicate()
    }

    /// Replaces the chat configuration.
    pub fn update_config(&mut self, updated_config: AIConfig)
        ensures
            final(self).spec_config() == updated_config,
            final(self)@ == old(self)@,
    {
        self.config = updated_config;
    }

    /// Every role, in stored order.
    pub fn get_all_roles(&self) -> (r: Vec<AIRole>)
        ensures
            r@ == self@,
    {
        let mut out: Vec<AIRole> = Vec::new();
        let mut i: usize = 0;
        while i < self.roles.len()
            invariant
                0 <= i <= self.roles@.len(),
                out@ =~= self.roles@.take(i as int),
            decreases self.roles@.len() - i,
        {
            out.push(self.roles[i].duplicate());
            proof {
                assert(self.roles@.take(i + 1) =~= self.roles@.take(i as int).push(
                    self.roles@[i as int],
                ));
            }
            i = i + 1;
        }
        proof {
            assert(self.roles@.take(self.roles@.len() as int) =~= self.roles@);
        }
        out
    }

    fn find_first(&self, id: &str) -> (r: Option<usize>)
        ensures
            match r {
                Some(i) => ai_role_first_idx(self@, id@) == i && 0 <= i < self@.len()
                    && self@[i as int].id@ == id@,
                None => !ai_role_listed(self@, id@) && ai_role_first_idx(self@, id@) < 0,
            },
    {
        let mut i: usize = 0;
        while i < self.roles.len()
            invariant
                0 <= i <= self.roles@.len(),
                forall|j: int| 0 <= j < i ==> (#[trigger] self.roles@[j]).id@ != id@,
            decreases self.roles@.len() - i,
        {
            if str_eq(self.roles[i].id.as_str(), id) {
                proof {
                    lemma_ai_role_first_idx_at(self.roles@, id@, i as int);
                }
                return Some(i);
            }
            i = i + 1;
        }
        proof {
            lemma_ai_role_first_idx_none(self.roles@, id@);
        }
        None
    }

    /// Appends a role; a listed identifier is refused.
    pub fn add_role(&mut self, role: AIRole) -> (r: Result<(), StoreError>)
        ensures
            ai_role_listed(old(self)@, role.id@) ==> r == Err::<(), StoreError>(
                StoreError::Validation,
            ) && final(self)@ == old(self)@,
            !ai_role_listed(old(self)@, role.id@) ==> r is Ok && final(self)@ == old(
                self,
            )@.push(role),
    {
        match self.find_first(role.id.as_str()) {
            Some(_) => Err(StoreError::Validation),
            None => {
                self.roles.push(role);
                Ok(())
            },
        }
    }

    /// Replaces the first role with the argument's identifier; fails when
    /// none is listed.
    pub fn update_role(&mut self, updated_role: AIRole) -> (r: Result<(), StoreError>)
        ensures
            r is Ok <==> ai_role_listed(old(self)@, updated_role.id@),
            r is Err ==> final(self)@ == old(self)@ && r == Err::<(), StoreError>(
                StoreError::NotFound,
            ),
            r is Ok ==> final(self)@ == old(self)@.update(
                ai_role_first_idx(old(self)@, updated_role.id@),
                updated_role,
            ),
    {
        match self.find_first(updated_role.id.as_str()) {
            Some(i) => {
                self.roles[i] = updated_role;
                Ok(())
            },
            None => Err(StoreError::NotFound),
        }
    }

    /// Removes the first role with this identifier; fails when none is
    /// listed, and with `PermissionDenied` for a default role.
    pub fn delete_role(&mut self, id: &str) -> (r: Result<(), StoreError>)
        ensures
            !ai_role_listed(old(self)@, id@) ==> r == Err::<(), StoreError>(StoreError::NotFound)
                && final(self)@ == old(self)@,
            ({
                let i = ai_role_first_idx(old(self)@, id@);
                &&& (ai_role_listed(old(self)@, id@) && old(self)@[i].is_default == Some(true))
                    ==> r == Err::<(), StoreError>(StoreError::PermissionDenied) && final(self)@
                    == old(self)@
                &&& (ai_role_listed(old(self)@, id@) && old(self)@[i].is_default != Some(true))
                    ==> r is Ok && final(self)@ == old(self)@.remove(i)
            }),
    {
        match self.find_first(id) {
            Some(i) => {
                let is_default = match self.roles[i].is_default {
                    Some(b) => b,
                    None => false,
                };
                if is_default {
                    return Err(StoreError::PermissionDenied);
                }
                self.roles.remove(i);
                Ok(())
            },
            None => Err(StoreError::NotFound),
        }
    }
}

} // verus!
