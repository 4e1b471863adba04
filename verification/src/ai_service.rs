use vstd::prelude::*;
use crate::errors::StoreError;
use crate::ids::now_millis;
use crate::text::{concat3, str_eq};

verus! {

/// A chat provider family.
#[derive(Clone, Copy, PartialEq, Eq, Structural, Debug)]
pub enum AIProvider {
    OpenAI,
    Azure,
    Anthropic,
    Custom,
}

/// Who speaks a chat message.
#[derive(Clone, Copy, PartialEq, Eq, Structural, Debug)]
pub enum ChatRole {
    System,
    User,
    Assistant,
}

/// One chat message with a typed role.
pub struct ChatMessage {
    pub role: ChatRole,
    pub content: String,
}

/// An assistant persona of the chat service; the default persona cannot be
/// deleted and cannot lose its default standing.
pub struct Role {
    pub id: String,
    pub name: String,
    pub description: String,
    pub system_prompt: String,
    pub is_default: bool,
    pub created_at: u64,
    pub updated_at: u64,
}

impl Role {
    /// A field-for-field copy of the role.
    pub fn duplicate(&self) -> (r: Self)
        ensures
            r == *self,
    {
        Role {
            id: self.id.clone(),
            name: self.name.clone(),
            description: self.description.clone(),
            system_prompt: self.system_prompt.clone(),
            is_default: self.is_default,
            created_at: self.created_at,
            updated_at: self.updated_at,
        }
    }
}

/// The built-in assistant persona, stamped with the current time.
pub fn create_default_role() -> (r: Role)
    ensures
        r.id@ == "default"@,
        r.name@ == "默认助手"@,
        r.description@ == "一个通用的AI助手，可以帮助回答问题、翻译文本和总结内容。"@,
        r.system_prompt@
            == "你是一个运行在Copy2AI智能剪贴板的AI助手，擅长以风趣幽默、生动活泼的方式与用户交流，能够灵活运用各种emoji表情包增添趣味性。你可以帮助用户针对剪贴板中的内容进行精准回答、高效翻译和简洁总结，同时还能提供实用的建议和有趣的见解，让用户在使用过程中感受到便捷与快乐。"@,
        r.is_default,
{
    Role {
        id: "default".to_owned(),
        name: "默认助手".to_owned(),
        description: "一个通用的AI助手，可以帮助回答问题、翻译文本和总结内容。".to_owned(),
        system_prompt:
            "你是一个运行在Copy2AI智能剪贴板的AI助手，擅长以风趣幽默、生动活泼的方式与用户交流，能够灵活运用各种emoji表情包增添趣味性。你可以帮助用户针对剪贴板中的内容进行精准回答、高效翻译和简洁总结，同时还能提供实用的建议和有趣的见解，让用户在使用过程中感受到便捷与快乐。".to_owned(),
        is_default: true,
        created_at: now_millis(),
        updated_at: now_millis(),
    }
}

/// Some role of the list carries this identifier.
pub open spec fn service_role_listed(s: Seq<Role>, id: Seq<char>) -> bool {
    exists|i: int| 0 <= i < s.len() && (#[trigger] s[i]).id@ == id
}

/// The position of the role with this identifier (unique when ids are).
pub open spec fn service_role_index(s: Seq<Role>, id: Seq<char>) -> int {
    choose|i: int| 0 <= i < s.len() && (#[trigger] s[i]).id@ == id
}

/// No two roles share an identifier.
pub open spec fn unique_service_role_ids(s: Seq<Role>) -> bool {
    forall|i: int, j: int|
        0 <= i < j < s.len() ==> (#[trigger] s[i]).id@ != (#[trigger] s[j]).id@
}

proof fn lemma_service_role_index_unique(s: Seq<Role>, id: Seq<char>, i: int)
    requires
        unique_service_role_ids(s),
        0 <= i < s.len(),
        s[i].id@ == id,
    ensures
        service_role_listed(s, id),
        service_role_index(s, id) == i,
{
    assert(service_role_listed(s, id));
    let k = service_role_index(s, id);
    assert(0 <= k < s.len() && s[k].id@ == id);
    if k < i {
        assert(s[k].id@ != s[i].id@);
    } else if k > i {
        assert(s[i].id@ != s[k].id@);
    }
}

/// The chat service's role list, born with the built-in persona. The numeric
/// chat configuration lives with the caller.
pub struct AIService {
    roles: Vec<Role>,
}

impl View for AIService {
    type V = Seq<Role>;

    closed spec fn view(&self) -> Seq<Role> {
        self.roles@
    }
}

impl AIService {
    /// The service invariant: role identifiers are unique.
    pub open spec fn wf(&self) -> bool {
        unique_service_role_ids(self@)
    }

    /// A service holding only the built-in persona.
    pub fn new() -> (r: Self)
        ensures
            r.wf(),
            r@.len() == 1,
            r@[0].id@ == "default"@,
            r@[0].is_default,
    {
        let mut roles: Vec<Role> = Vec::new();
        roles.push(create_default_role());
        AIService { roles }
    }

    /// Every role, in stored order.
    pub fn load_roles(&self) -> (r: Vec<Role>)
        ensures
            r@ == self@,
    {
        let mut out: Vec<Role> = Vec::new();
        let mut i: usize = 0;
        while i < self.roles.len()
            invariant
                0 <= i <= self.roles@.len(),
                out@ =~= self.roles@.take(i as int),
            decreases self.roles@.len() - i,
        {
            out.push(self.roles[i].duplicate());
            proof {
                assert(self.roles@.take(i + 1) =~= self.roles@.take(i as int).push(
                    self.roles@[i as int],
                ));
            }
            i = i + 1;
        }
        proof {
            assert(self.roles@.take(self.roles@.len() as int) =~= self.roles@);
        }
        out
    }

    fn find_index(&self, id: &str) -> (r: Option<usize>)
        ensures
            match r {
                Some(i) => 0 <= i < self@.len() && self@[i as int].id@ == id@,
                None => !service_role_listed(self@, id@),
            },
    {
        let mut i: usize = 0;
        while i < self.roles.len()
            invariant
                0 <= i <= self.roles@.len(),
                forall|j: int| 0 <= j < i ==> (#[trigger] self.roles@[j]).id@ != id@,
            decreases self.roles@.len() - i,
        {
            if str_eq(self.roles[i].id.as_str(), id) {
                return Some(i);
            }
            i = i + 1;
        }
        None
    }

    /// Appends a role; a listed identifier is refused.
    pub fn add_role(&mut self, role: Role) -> (r: Result<(), StoreError>)
        requires
            old(self).wf(),
        ensures
            final(self).wf(),
            service_role_listed(old(self)@, role.id@) ==> r == Err::<(), StoreError>(
                StoreError::Validation,
            ) && final(self)@ == old(self)@,
            !service_role_listed(old(self)@, role.id@) ==> r is Ok && final(self)@ == old(
                self,
            )@.push(role),
    {
        let ghost pre = self@;
        match self.find_index(role.id.as_str()) {
            Some(_) => Err(StoreError::Validation),
            None => {
                self.roles.push(role);
                proof {
                    assert forall|a: int, b: int| 0 <= a < b < self.roles@.len() implies (
                    #[trigger] self.roles@[a]).id@ != (#[trigger] self.roles@[b]).id@ by {
                        if b == self.roles@.len() - 1 {
                            assert(pre[a] == self.roles@[a]);
                        }
                    }
                }
                Ok(())
            },
        }
    }

    /// Removes the role with this identifier; fails when absent, and with
    /// `PermissionDenied` for the default persona.
    pub fn delete_role(&mut self, id: &str) -> (r: Result<(), StoreError>)
        requires
            old(self).wf(),
        ensures
            final(self).wf(),
            !service_role_listed(old(self)@, id@) ==> r == Err::<(), StoreError>(
                StoreError::NotFound,
            ) && final(self)@ == old(self)@,
            ({
                let i = service_role_index(old(self)@, id@);
                &&& (service_role_listed(old(self)@, id@) && old(self)@[i].is_default) ==> r
                    == Err::<(), StoreError>(StoreError::PermissionDenied) && final(self)@ == old(
                    self,
                )@
                &&& (service_role_listed(old(self)@, id@) && !old(self)@[i].is_default) ==> r
                    is Ok && final(self)@ == old(self)@.remove(i)
            }),
    {
        let ghost pre = self@;
        match self.find_index(id) {
            Some(i) => {
                proof {
                    lemma_service_role_index_unique(pre, id@, i as int);
                }
                if self.roles[i].is_default {
                    return Err(StoreError::PermissionDenied);
                }
                self.roles.remove(i);
                proof {
                    assert forall|a: int, c: int| 0 <= a < c < self.roles@.len() implies (
                    #[trigger] self.roles@[a]).id@ != (#[trigger] self.roles@[c]).id@ by {
                        let a2 = if a < i {
                            a
                        } else {
                            a + 1
                        };
                        let c2 = if c < i {
                            c
                        } else {
                            c + 1
                        };
                        assert(self.roles@[a] == pre[a2]);
                        assert(self.roles@[c] == pre[c2]);
                    }
                }
                Ok(())
            },
            None => Err(StoreError::NotFound),
        }
    }

    /// Replaces the role with the argument's identifier; the default persona
    /// cannot lose its default standing.
    pub fn update_role(&mut self, role: Role) -> (r: Result<(), StoreError>)
        requires
            old(self).wf(),
        ensures
            final(self).wf(),
            !service_role_listed(old(self)@, role.id@) ==> r == Err::<(), StoreError>(
                StoreError::NotFound,
            ) && final(self)@ == old(self)@,
            ({
                let i = service_role_index(old(self)@, role.id@);
                &&& (service_role_listed(old(self)@, role.id@) && old(self)@[i].is_default
                    && !role.is_default) ==> r == Err::<(), StoreError>(
                    StoreError::PermissionDenied,
                ) && final(self)@ == old(self)@
                &&& (service_role_listed(old(self)@, role.id@) && !(old(self)@[i].is_default
                    && !role.is_default)) ==> r is Ok && final(self)@ == old(self)@.update(i, role)
            }),
    {
        let ghost pre = self@;
        match self.find_index(role.id.as_str()) {
            Some(i) => {
                proof {
                    lemma_service_role_index_unique(pre, role.id@, i as int);
                }
                if self.roles[i].is_default && !role.is_default {
                    return Err(StoreError::PermissionDenied);
                }
                self.roles[i] = role;
                proof {
                    assert forall|a: int, b: int| 0 <= a < b < self.roles@.len() implies (
                    #[trigger] self.roles@[a]).id@ != (#[trigger] self.roles@[b]).id@ by {
                        assert(self.roles@[a].id@ == pre[a].id@);
                        assert(self.roles@[b].id@ == pre[b].id@);
                    }
                }
                Ok(())
            },
            None => Err(StoreError::NotFound),
        }
    }

    /// The placeholder translation answer of the chat service.
    pub fn translate_text(&self, text: &str, target_language: &str) -> (r: String)
        ensures
            r@ == "这是 "@ + text@ + " 的"@ + target_language@ + "翻译"@,
    {
        let head = concat3("这是 ", text, " 的");
        concat3(head.as_str(), target_language, "翻译")
    }

    /// The placeholder summary answer of the chat service.
    pub fn summarize_text(&self, text: &str) -> (r: String)
        ensures
            r@ == "这是 "@ + text@ + " 的总结"@,
    {
        concat3("这是 ", text, " 的总结")
    }
}

} // verus!
