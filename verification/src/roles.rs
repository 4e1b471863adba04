use vstd::prelude::*;
use vstd::string::StringSliceAdditionalSpecFns;
use vstd::utf8::encode_utf8;
use crate::errors::StoreError;
use crate::ids::{fresh_id, now_millis};
use crate::presets::{
    factory_description, factory_icon, factory_name, factory_prompt, factory_role,
    is_factory_preset, preset_roles, seed_set_ok,
};
use crate::text::{lemma_lex_le_total, lemma_lex_le_trans, lex_le, str_eq, str_le};

verus! {

/// An AI persona: a prompt preset with metadata. Presets (`is_custom ==
/// false`) are protected against deletion and against losing their preset
/// standing.
pub struct Role {
    pub id: String,
    pub name: String,
    pub description: String,
    pub system_prompt: String,
    pub icon: String,
    pub avatar: Option<String>,
    pub is_custom: bool,
    pub created_at: u64,
    pub updated_at: u64,
}

fn clone_opt_string(s: &Option<String>) -> (r: Option<String>)
    ensures
        r == *s,
{
    match s {
        Some(x) => Some(x.clone()),
        None => None,
    }
}

impl Role {
    /// A fresh custom role with the given fields.
    pub fn new(name: String, description: String, system_prompt: String, icon: String) -> (r:
        Self)
        ensures
            r.id@.len() == 36,
            r.name == name,
            r.description == description,
            r.system_prompt == system_prompt,
            r.icon == icon,
            r.avatar is None,
            r.is_custom,
            r.created_at == r.updated_at,
    {
        let now = now_millis();
        Role {
            id: fresh_id(),
            name,
            description,
            system_prompt,
            icon,
            avatar: None,
            is_custom: true,
            created_at: now,
            updated_at: now,
        }
    }

    /// A fresh preset role with the given fields.
    pub fn new_preset(name: String, description: String, system_prompt: String, icon: String) -> (
        r: Self)
        ensures
            r.id@.len() == 36,
            r.name == name,
            r.description == description,
            r.system_prompt == system_prompt,
            r.icon == icon,
            r.avatar is None,
            !r.is_custom,
            r.created_at == r.updated_at,
    {
        let now = now_millis();
        Role {
            id: fresh_id(),
            name,
            description,
            system_prompt,
            icon,
            avatar: None,
            is_custom: false,
            created_at: now,
            updated_at: now,
        }
    }

    /// Refreshes the modification time; every other field is kept.
    pub fn update_timestamp(&mut self)
        ensures
            final(self).id == old(self).id,
            final(self).name == old(self).name,
            final(self).description == old(self).description,
            final(self).system_prompt == old(self).system_prompt,
            final(self).icon == old(self).icon,
            final(self).avatar == old(self).avatar,
            final(self).is_custom == old(self).is_custom,
            final(self).created_at == old(self).created_at,
    {
        self.updated_at = now_millis();
    }

    /// A field-for-field copy of the role.
    pub fn duplicate(&self) -> (r: Self)
        ensures
            r == *self,
    {
        Role {
            id: self.id.clone(),
            name: self.name.clone(),
            description: self.description.clone(),
            system_prompt: self.system_prompt.clone(),
            icon: self.icon.clone(),
            avatar: clone_opt_string(&self.avatar),
            is_custom: self.is_custom,
            created_at: self.created_at,
            updated_at: self.updated_at,
        }
    }
}

// ---------------------------------------------------------------------------
// The listing order: custom roles first, then by name.
// ---------------------------------------------------------------------------

/// `a` may stand at or before `b` in a listing: custom roles precede
/// presets, ties are ordered by name (byte-lexicographically).
pub open spec fn role_le(a: Role, b: Role) -> bool {
    if a.is_custom != b.is_custom {
        a.is_custom
    } else {
        lex_le(encode_utf8(a.name@), encode_utf8(b.name@))
    }
}

proof fn lemma_role_le_total(a: Role, b: Role)
    ensures
        role_le(a, b) || role_le(b, a),
{
    if a.is_custom == b.is_custom {
        lemma_lex_le_total(encode_utf8(a.name@), encode_utf8(b.name@));
    }
}

proof fn lemma_role_le_trans(a: Role, b: Role, c: Role)
    requires
        role_le(a, b),
        role_le(b, c),
    ensures
        role_le(a, c),
{
    if a.is_custom == b.is_custom && b.is_custom == c.is_custom {
        lemma_lex_le_trans(
            encode_utf8(a.name@),
            encode_utf8(b.name@),
            encode_utf8(c.name@),
        );
    }
}

/// Every pair of positions respects the listing order.
pub open spec fn sorted_roles(s: Seq<Role>) -> bool {
    forall|i: int, j: int| 0 <= i < j < s.len() ==> role_le(#[trigger] s[i], #[trigger] s[j])
}

/// Insertion of `x` into `s` after every element at or before it.
pub open spec fn insert_sorted_role(s: Seq<Role>, x: Role) -> Seq<Role>
    decreases s.len(),
{
    if s.len() > 0 && role_le(s[0], x) {
        seq![s[0]] + insert_sorted_role(s.drop_first(), x)
    } else {
        seq![x] + s
    }
}

/// Stable insertion sort of `s` under the listing order.
pub open spec fn sort_roles(s: Seq<Role>) -> Seq<Role>
    decreases s.len(),
{
    if s.len() == 0 {
        Seq::empty()
    } else {
        insert_sorted_role(sort_roles(s.drop_last()), s.last())
    }
}

proof fn lemma_insert_sorted_role_at(s: Seq<Role>, x: Role, i: int)
    requires
        0 <= i <= s.len(),
        forall|j: int| 0 <= j < i ==> role_le(#[trigger] s[j], x),
        i < s.len() ==> !role_le(s[i], x),
    ensures
        insert_sorted_role(s, x) == s.insert(i, x),
    decreases i,
{
    if i == 0 {
        assert(insert_sorted_role(s, x) =~= s.insert(0, x));
    } else {
        assert(role_le(s[0], x));
        assert(forall|j: int| 0 <= j < i - 1 ==> role_le(#[trigger] s.drop_first()[j], x)) by {
            assert(forall|j: int| 0 <= j < i - 1 ==> s.drop_first()[j] == s[j + 1]);
        }
        lemma_insert_sorted_role_at(s.drop_first(), x, i - 1);
        assert(seq![s[0]] + s.drop_first().insert(i - 1, x) =~= s.insert(i, x));
    }
}

proof fn lemma_insert_sorted_role_elems(s: Seq<Role>, x: Role)
    ensures
        insert_sorted_role(s, x).len() == s.len() + 1,
        forall|k: int|
            0 <= k < insert_sorted_role(s, x).len() ==> (#[trigger] insert_sorted_role(s, x)[k]
                == x || s.contains(insert_sorted_role(s, x)[k])),
    decreases s.len(),
{
    if s.len() > 0 && role_le(s[0], x) {
        lemma_insert_sorted_role_elems(s.drop_first(), x);
        let r = insert_sorted_role(s, x);
        let rr = insert_sorted_role(s.drop_first(), x);
        assert forall|k: int| 0 <= k < r.len() implies (#[trigger] r[k] == x || s.contains(
            r[k],
        )) by {
            if k == 0 {
                assert(s.contains(s[0]));
            } else {
                assert(r[k] == rr[k - 1]);
                if rr[k - 1] != x {
                    let m = choose|m: int|
                        0 <= m < s.drop_first().len() && s.drop_first()[m] == rr[k - 1];
                    assert(s[m + 1] == rr[k - 1]);
                }
            }
        }
    }
}

proof fn lemma_insert_sorted_role_sorted(s: Seq<Role>, x: Role)
    requires
        sorted_roles(s),
    ensures
        sorted_roles(insert_sorted_role(s, x)),
    decreases s.len(),
{
    let r = insert_sorted_role(s, x);
    if s.len() > 0 && role_le(s[0], x) {
        assert(sorted_roles(s.drop_first())) by {
            assert(forall|i: int, j: int|
                0 <= i < j < s.drop_first().len() ==> #[trigger] s.drop_first()[i] == s[i + 1]
                    && #[trigger] s.drop_first()[j] == s[j + 1]);
        }
        lemma_insert_sorted_role_sorted(s.drop_first(), x);
        lemma_insert_sorted_role_elems(s.drop_first(), x);
        let rr = insert_sorted_role(s.drop_first(), x);
        assert forall|i: int, j: int| 0 <= i < j < r.len() implies role_le(
            #[trigger] r[i],
            #[trigger] r[j],
        ) by {
            if i == 0 {
                assert(r[j] == rr[j - 1]);
                if rr[j - 1] == x {
                } else {
                    let m = choose|m: int|
                        0 <= m < s.drop_first().len() && s.drop_first()[m] == rr[j - 1];
                    assert(s[m + 1] == rr[j - 1]);
                    assert(role_le(s[0], s[m + 1]));
                }
            } else {
                assert(r[i] == rr[i - 1] && r[j] == rr[j - 1]);
            }
        }
    } else {
        assert forall|i: int, j: int| 0 <= i < j < r.len() implies role_le(
            #[trigger] r[i],
            #[trigger] r[j],
        ) by {
            if i == 0 {
                assert(r[j] == s[j - 1]);
                if s.len() > 0 {
                    assert(!role_le(s[0], x));
                    lemma_role_le_total(s[0], x);
                    assert(role_le(x, s[0]));
                    if j > 1 {
                        assert(role_le(s[0], s[j - 1]));
                        lemma_role_le_trans(x, s[0], s[j - 1]);
                    }
                }
            } else {
                assert(r[i] == s[i - 1] && r[j] == s[j - 1]);
            }
        }
    }
}

proof fn lemma_insert_sorted_role_multiset(s: Seq<Role>, x: Role)
    ensures
        insert_sorted_role(s, x).to_multiset() =~= s.to_multiset().insert(x),
    decreases s.len(),
{
    broadcast use vstd::seq_lib::group_to_multiset_ensures;

    if s.len() > 0 && role_le(s[0], x) {
        lemma_insert_sorted_role_multiset(s.drop_first(), x);
        let rr = insert_sorted_role(s.drop_first(), x);
        vstd::seq_lib::lemma_multiset_commutative(seq![s[0]], rr);
        vstd::seq_lib::lemma_multiset_commutative(seq![s[0]], s.drop_first());
        assert(seq![s[0]] + s.drop_first() =~= s);
        assert(seq![s[0]].to_multiset() =~= vstd::multiset::Multiset::empty().insert(s[0])) by {
            assert(seq![s[0]] =~= Seq::empty().push(s[0]));
        }
    } else {
        vstd::seq_lib::lemma_multiset_commutative(seq![x], s);
        assert(seq![x].to_multiset() =~= vstd::multiset::Multiset::empty().insert(x)) by {
            assert(seq![x] =~= Seq::empty().push(x));
        }
    }
}

/// What the listing sort guarantees: a reordering that respects the listing
/// order at every pair of positions.
pub proof fn lemma_sort_roles_ensures(s: Seq<Role>)
    ensures
        sort_roles(s).len() == s.len(),
        sort_roles(s).to_multiset() =~= s.to_multiset(),
        sorted_roles(sort_roles(s)),
    decreases s.len(),
{
    broadcast use vstd::seq_lib::group_to_multiset_ensures;

    if s.len() > 0 {
        lemma_sort_roles_ensures(s.drop_last());
        lemma_insert_sorted_role_elems(sort_roles(s.drop_last()), s.last());
        lemma_insert_sorted_role_sorted(sort_roles(s.drop_last()), s.last());
        lemma_insert_sorted_role_multiset(sort_roles(s.drop_last()), s.last());
        assert(s.drop_last().push(s.last()) =~= s);
    }
}

fn role_le_exec(a: &Role, b: &Role) -> (r: bool)
    ensures
        r == role_le(*a, *b),
{
    if a.is_custom != b.is_custom {
        a.is_custom
    } else {
        str_le(a.name.as_str(), b.name.as_str())
    }
}

fn insert_sorted(v: &mut Vec<Role>, x: Role)
    ensures
        final(v)@ == insert_sorted_role(old(v)@, x),
{
    let mut i: usize = 0;
    while i < v.len() && role_le_exec(&v[i], &x)
        invariant
            0 <= i <= v@.len(),
            v@ == old(v)@,
            forall|j: int| 0 <= j < i ==> role_le(#[trigger] v@[j], x),
        decreases v@.len() - i,
    {
        i = i + 1;
    }
    proof {
        lemma_insert_sorted_role_at(v@, x, i as int);
    }
    v.insert(i, x);
}

// ---------------------------------------------------------------------------
// The role store.
// ---------------------------------------------------------------------------

/// Some role carries this identifier.
pub open spec fn role_has_id(s: Seq<Role>, id: Seq<char>) -> bool {
    exists|i: int| 0 <= i < s.len() && (#[trigger] s[i]).id@ == id
}

/// The position of the role with this identifier (unique when ids are).
pub open spec fn role_id_index(s: Seq<Role>, id: Seq<char>) -> int {
    choose|i: int| 0 <= i < s.len() && (#[trigger] s[i]).id@ == id
}

/// No two roles share an identifier.
pub open spec fn unique_role_ids(s: Seq<Role>) -> bool {
    forall|i: int, j: int|
        0 <= i < j < s.len() ==> (#[trigger] s[i]).id@ != (#[trigger] s[j]).id@
}

/// Insertion semantics of the role store: an existing identifier is replaced
/// in place, a new one is appended.
pub open spec fn role_insert_by_id(s: Seq<Role>, role: Role) -> Seq<Role> {
    if role_has_id(s, role.id@) {
        s.update(role_id_index(s, role.id@), role)
    } else {
        s.push(role)
    }
}

proof fn lemma_role_id_index_unique(s: Seq<Role>, id: Seq<char>, i: int)
    requires
        unique_role_ids(s),
        0 <= i < s.len(),
        s[i].id@ == id,
    ensures
        role_has_id(s, id),
        role_id_index(s, id) == i,
{
    assert(role_has_id(s, id));
    let k = role_id_index(s, id);
    assert(0 <= k < s.len() && s[k].id@ == id);
    if k < i {
        assert(s[k].id@ != s[i].id@);
    } else if k > i {
        assert(s[i].id@ != s[k].id@);
    }
}

/// In-memory role store. Persistence lives with the caller, who writes the
/// state out after every mutation.
pub struct RoleStorage {
    roles: Vec<Role>,
}

impl View for RoleStorage {
    type V = Seq<Role>;

    closed spec fn view(&self) -> Seq<Role> {
        self.roles@
    }
}

impl RoleStorage {
    /// The store invariant: identifiers are unique.
    pub open spec fn wf(&self) -> bool {
        unique_role_ids(self@)
    }

    /// An empty role store.
    pub fn new() -> (r: Self)
        ensures
            r@ =~= Seq::<Role>::empty(),
            r.wf(),
    {
        RoleStorage { roles: Vec::new() }
    }

    /// Writes the ten built-in presets into an empty store, stamped with the
    /// current time.
    pub fn initialize_preset_roles(&mut self)
        requires
            old(self)@.len() == 0,
        ensures
            final(self).wf(),
            final(self)@.len() == 10,
            seed_set_ok(final(self)@, final(self)@[0].created_at),
    {
        let seeded = preset_roles(now_millis());
        self.roles = seeded;
    }

    fn find_index(&self, id: &str) -> (r: Option<usize>)
        ensures
            match r {
                Some(i) => 0 <= i < self@.len() && self@[i as int].id@ == id@,
                None => !role_has_id(self@, id@),
            },
    {
        let mut i: usize = 0;
        while i < self.roles.len()
            invariant
                0 <= i <= self@.len(),
                forall|j: int| 0 <= j < i ==> (#[trigger] self@[j]).id@ != id@,
            decreases self@.len() - i,
        {
            if str_eq(self.roles[i].id.as_str(), id) {
                return Some(i);
            }
            i = i + 1;
        }
        None
    }

    /// A borrow of the role with this identifier, when one exists.
    pub fn get_role(&self, id: &str) -> (r: Option<&Role>)
        requires
            self.wf(),
        ensures
            match r {
                Some(role) => role_has_id(self@, id@) && *role == self@[role_id_index(
                    self@,
                    id@,
                )],
                None => !role_has_id(self@, id@),
            },
    {
        match self.find_index(id) {
            Some(i) => {
                proof {
                    lemma_role_id_index_unique(self@, id@, i as int);
                }
                Some(&self.roles[i])
            },
            None => None,
        }
    }

    /// Every role, custom ones first and then by name.
    pub fn get_all_roles(&self) -> (r: Vec<Role>)
        ensures
            r@ == sort_roles(self@),
            sorted_roles(r@),
            r@.to_multiset() =~= self@.to_multiset(),
            r@.len() == self@.len(),
    {
        let mut out: Vec<Role> = Vec::new();
        let mut i: usize = 0;
        while i < self.roles.len()
            invariant
                0 <= i <= self.roles@.len(),
                out@ == sort_roles(self.roles@.take(i as int)),
            decreases self.roles@.len() - i,
        {
            let role = self.roles[i].duplicate();
            proof {
                assert(self.roles@.take(i + 1).drop_last() =~= self.roles@.take(i as int));
                assert(self.roles@.take(i + 1).last() == self.roles@[i as int]);
            }
            insert_sorted(&mut out, role);
            i = i + 1;
        }
        proof {
            assert(self.roles@.take(self.roles@.len() as int) =~= self.roles@);
            lemma_sort_roles_ensures(self.roles@);
        }
        out
    }

    /// Inserts or replaces by identifier.
    pub fn add_role(&mut self, role: Role)
        requires
            old(self).wf(),
        ensures
            final(self).wf(),
            final(self)@ == role_insert_by_id(old(self)@, role),
    {
        let ghost pre = self@;
        match self.find_index(role.id.as_str()) {
            Some(i) => {
                proof {
                    lemma_role_id_index_unique(pre, role.id@, i as int);
                }
                self.roles[i] = role;
                proof {
                    assert forall|a: int, b: int| 0 <= a < b < self.roles@.len() implies (
                    #[trigger] self.roles@[a]).id@ != (#[trigger] self.roles@[b]).id@ by {
                        assert(self.roles@[a].id@ == pre[a].id@);
                        assert(self.roles@[b].id@ == pre[b].id@);
                    }
                }
            },
            None => {
                self.roles.push(role);
                proof {
                    assert forall|a: int, b: int| 0 <= a < b < self.roles@.len() implies (
                    #[trigger] self.roles@[a]).id@ != (#[trigger] self.roles@[b]).id@ by {
                        if b == self.roles@.len() - 1 {
                            assert(pre[a] == self.roles@[a]);
                        }
                    }
                }
            },
        }
    }

    /// Replaces the role with the argument's identifier. Fails with
    /// `NotFound` when absent, and with `PermissionDenied` when the update
    /// would turn a preset into a custom role.
    pub fn update_role(&mut self, role: Role) -> (r: Result<(), StoreError>)
        requires
            old(self).wf(),
        ensures
            final(self).wf(),
            !role_has_id(old(self)@, role.id@) ==> r == Err::<(), StoreError>(
                StoreError::NotFound,
            ) && final(self)@ == old(self)@,
            ({
                let i = role_id_index(old(self)@, role.id@);
                &&& (role_has_id(old(self)@, role.id@) && !old(self)@[i].is_custom
                    && role.is_custom) ==> r == Err::<(), StoreError>(StoreError::PermissionDenied)
                    && final(self)@ == old(self)@
                &&& (role_has_id(old(self)@, role.id@) && !(!old(self)@[i].is_custom
                    && role.is_custom)) ==> r is Ok && final(self)@ == old(self)@.update(i, role)
            }),
    {
        let ghost pre = self@;
        match self.find_index(role.id.as_str()) {
            Some(i) => {
                proof {
                    lemma_role_id_index_unique(pre, role.id@, i as int);
                }
                if !self.roles[i].is_custom && role.is_custom {
                    return Err(StoreError::PermissionDenied);
                }
                self.roles[i] = role;
                proof {
                    assert forall|a: int, b: int| 0 <= a < b < self.roles@.len() implies (
                    #[trigger] self.roles@[a]).id@ != (#[trigger] self.roles@[b]).id@ by {
                        assert(self.roles@[a].id@ == pre[a].id@);
                        assert(self.roles@[b].id@ == pre[b].id@);
                    }
                }
                Ok(())
            },
            None => Err(StoreError::NotFound),
        }
    }

    /// Removes the role with this identifier. Fails with `NotFound` when
    /// absent, and with `PermissionDenied` for a preset.
    pub fn delete_role(&mut self, id: &str) -> (r: Result<(), StoreError>)
        requires
            old(self).wf(),
        ensures
            final(self).wf(),
            !role_has_id(old(self)@, id@) ==> r == Err::<(), StoreError>(StoreError::NotFound)
                && final(self)@ == old(self)@,
            ({
                let i = role_id_index(old(self)@, id@);
                &&& (role_has_id(old(self)@, id@) && !old(self)@[i].is_custom) ==> r == Err::<
                    (),
                    StoreError,
                >(StoreError::PermissionDenied) && final(self)@ == old(self)@
                &&& (role_has_id(old(self)@, id@) && old(self)@[i].is_custom) ==> r is Ok
                    && final(self)@ == old(self)@.remove(i)
            }),
    {
        let ghost pre = self@;
        match self.find_index(id) {
            Some(i) => {
                proof {
                    lemma_role_id_index_unique(pre, id@, i as int);
                }
                if !self.roles[i].is_custom {
                    return Err(StoreError::PermissionDenied);
                }
                self.roles.remove(i);
                proof {
                    assert forall|a: int, c: int| 0 <= a < c < self.roles@.len() implies (
                    #[trigger] self.roles@[a]).id@ != (#[trigger] self.roles@[c]).id@ by {
                        let a2 = if a < i {
                            a
                        } else {
                            a + 1
                        };
                        let c2 = if c < i {
                            c
                        } else {
                            c + 1
                        };
                        assert(self.roles@[a] == pre[a2]);
                        assert(self.roles@[c] == pre[c2]);
                    }
                }
                Ok(())
            },
            None => Err(StoreError::NotFound),
        }
    }

    /// Restores a preset's factory field values, keeping its original
    /// creation time and stamping a fresh update time. Fails with `NotFound`
    /// for an absent identifier, with `PermissionDenied` for a custom role,
    /// and with `UnknownPreset` for an identifier outside the factory set.
    pub fn reset_role(&mut self, id: &str) -> (r: Result<(), StoreError>)
        requires
            old(self).wf(),
        ensures
            final(self).wf(),
            !role_has_id(old(self)@, id@) ==> r == Err::<(), StoreError>(StoreError::NotFound)
                && final(self)@ == old(self)@,
            ({
                let i = role_id_index(old(self)@, id@);
                &&& (role_has_id(old(self)@, id@) && old(self)@[i].is_custom) ==> r == Err::<
                    (),
                    StoreError,
                >(StoreError::PermissionDenied) && final(self)@ == old(self)@
                &&& (role_has_id(old(self)@, id@) && !old(self)@[i].is_custom
                    && !is_factory_preset(id@)) ==> r == Err::<(), StoreError>(
                    StoreError::UnknownPreset,
                ) && final(self)@ == old(self)@
                &&& (role_has_id(old(self)@, id@) && !old(self)@[i].is_custom
                    && is_factory_preset(id@)) ==> r is Ok && ({
                    let post = final(self)@[i];
                    &&& final(self)@ == old(self)@.update(i, post)
                    &&& post.id@ == id@
                    &&& post.name@ == factory_name(id@)
                    &&& post.description@ == factory_description(id@)
                    &&& post.system_prompt@ == factory_prompt(id@)
                    &&& post.icon@ == factory_icon(id@)
                    &&& post.avatar is None
                    &&& !post.is_custom
                    &&& post.created_at == old(self)@[i].created_at
                })
            }),
    {
        let ghost pre = self@;
        match self.find_index(id) {
            Some(i) => {
                proof {
                    lemma_role_id_index_unique(pre, id@, i as int);
                }
                if self.roles[i].is_custom {
                    return Err(StoreError::PermissionDenied);
                }
                let created_at = self.roles[i].created_at;
                match factory_role(id, created_at, now_millis()) {
                    Some(restored) => {
                        self.roles[i] = restored;
                        proof {
                            assert forall|a: int, b: int|
                                0 <= a < b < self.roles@.len() implies (
                            #[trigger] self.roles@[a]).id@ != (#[trigger] self.roles@[b]).id@ by {
                                assert(self.roles@[a].id@ == pre[a].id@);
                                assert(self.roles@[b].id@ == pre[b].id@);
                            }
                        }
                        Ok(())
                    },
                    None => Err(StoreError::UnknownPreset),
                }
            },
            None => Err(StoreError::NotFound),
        }
    }
}

} // verus!
