//! An in-memory actor repository with conflict-tolerant upsert semantics.
//!
//! A row is created exactly once per distinct actor URL, per distinct
//! host-and-name pair, and per distinct account link. Creation is
//! insert-or-return-existing: re-inserting a row whose unique key already
//! exists with the same attributes returns the existing row without error,
//! while a key collision with different attributes is a genuine conflict.
use vstd::prelude::*;

verus! {

use crate::actor::{ActorRow, CreateActorError, RowModel};
use crate::text::str_eq;

/// Two rows collide on the actor-URL key.
pub open spec fn same_url_key(a: RowModel, b: RowModel) -> bool {
    a.actor_url.text == b.actor_url.text
}

/// Two rows collide on the host-and-name key.
pub open spec fn same_host_name_key(a: RowModel, b: RowModel) -> bool {
    a.actor_url.host == b.actor_url.host && a.name == b.name
}

/// Two rows collide on the account key: both link the same account.
pub open spec fn same_account_key(a: RowModel, b: RowModel) -> bool {
    a.account_id is Some && a.account_id == b.account_id
}

/// Equality of every attribute except the identifier.
pub open spec fn same_attrs(a: RowModel, b: RowModel) -> bool {
    &&& a.actor_type == b.actor_type
    &&& a.name == b.name
    &&& a.actor_url == b.actor_url
    &&& a.inbox_url == b.inbox_url
    &&& a.outbox_url == b.outbox_url
    &&& a.shared_inbox_url == b.shared_inbox_url
    &&& a.account_id == b.account_id
}

/// The repository invariant: every unique key is unique.
pub open spec fn wf_rows(rows: Seq<RowModel>) -> bool {
    forall|i: int, j: int|
        0 <= i < rows.len() && 0 <= j < rows.len() && i != j ==> {
            &&& !same_url_key(#[trigger] rows[i], #[trigger] rows[j])
            &&& !same_host_name_key(rows[i], rows[j])
            &&& !same_account_key(rows[i], rows[j])
        }
}

/// Some stored row collides with `m` on the actor-URL key.
pub open spec fn has_url_key(rows: Seq<RowModel>, m: RowModel) -> bool {
    exists|i: int| 0 <= i < rows.len() && same_url_key(#[trigger] rows[i], m)
}

/// Some stored row collides with `m` on the host-and-name key.
pub open spec fn has_host_name_key(rows: Seq<RowModel>, m: RowModel) -> bool {
    exists|i: int| 0 <= i < rows.len() && same_host_name_key(#[trigger] rows[i], m)
}

/// Some stored row collides with `m` on the account key.
pub open spec fn has_account_key(rows: Seq<RowModel>, m: RowModel) -> bool {
    exists|i: int| 0 <= i < rows.len() && same_account_key(#[trigger] rows[i], m)
}

/// Inserting `m` grows the repository: no key collides.
pub open spec fn spec_upsert_grows(rows: Seq<RowModel>, m: RowModel) -> bool {
    !has_url_key(rows, m) && !has_host_name_key(rows, m) && !has_account_key(rows, m)
}

/// Inserting `m` is an idempotent hit: a stored row carries the same actor
/// URL and the same attributes.
pub open spec fn spec_upsert_hit(rows: Seq<RowModel>, m: RowModel) -> bool {
    exists|i: int|
        0 <= i < rows.len() && same_url_key(#[trigger] rows[i], m) && same_attrs(rows[i], m)
}

/// An insert on which no key collides keeps every unique key unique.
pub proof fn lemma_growing_insert_preserves_wf(rows: Seq<RowModel>, m: RowModel)
    requires
        wf_rows(rows),
        spec_upsert_grows(rows, m),
    ensures
        wf_rows(rows.push(m)),
{
    let rows2 = rows.push(m);
    assert forall|i: int, j: int|
        0 <= i < rows2.len() && 0 <= j < rows2.len() && i != j implies {
        &&& !same_url_key(#[trigger] rows2[i], #[trigger] rows2[j])
        &&& !same_host_name_key(rows2[i], rows2[j])
        &&& !same_account_key(rows2[i], rows2[j])
    } by {
        let n = rows.len() as int;
        if i < n && j < n {
            assert(!same_url_key(rows[i], rows[j]));
            assert(!same_host_name_key(rows[i], rows[j]));
            assert(!same_account_key(rows[i], rows[j]));
        } else if i == n {
            assert(rows2[i] == m);
            assert(rows2[j] == rows[j]);
            assert(!same_url_key(rows[j], m));
            assert(!same_host_name_key(rows[j], m));
            assert(!same_account_key(rows[j], m));
        } else {
            assert(j == n);
            assert(rows2[j] == m);
            assert(rows2[i] == rows[i]);
            assert(!same_url_key(rows[i], m));
            assert(!same_host_name_key(rows[i], m));
            assert(!same_account_key(rows[i], m));
        }
    }
}

fn rows_same_url_key(a: &ActorRow, b: &ActorRow) -> (r: bool)
    ensures
        r == same_url_key(a@, b@),
{
    str_eq(a.actor_url.as_str(), b.actor_url.as_str())
}

fn rows_same_host_name_key(a: &ActorRow, b: &ActorRow) -> (r: bool)
    ensures
        r == same_host_name_key(a@, b@),
{
    str_eq(a.actor_url.host(), b.actor_url.host()) && str_eq(a.name.as_str(), b.name.as_str())
}

fn rows_same_account_key(a: &ActorRow, b: &ActorRow) -> (r: bool)
    ensures
        r == same_account_key(a@, b@),
{
    match (&a.account_id, &b.account_id) {
        (Some(x), Some(y)) => x.value == y.value,
        _ => false,
    }
}

fn rows_same_attrs(a: &ActorRow, b: &ActorRow) -> (r: bool)
    ensures
        r == same_attrs(a@, b@),
{
    let shared_eq = match (&a.shared_inbox_url, &b.shared_inbox_url) {
        (Some(x), Some(y)) => *x == *y,
        (None, None) => true,
        _ => false,
    };
    let account_eq = match (&a.account_id, &b.account_id) {
        (Some(x), Some(y)) => x.value == y.value,
        (None, None) => true,
        _ => false,
    };
    a.actor_type == b.actor_type && str_eq(a.name.as_str(), b.name.as_str()) && a.actor_url
        == b.actor_url && a.inbox_url == b.inbox_url && a.outbox_url == b.outbox_url && shared_eq
        && account_eq
}

/// The in-memory actor repository.
#[derive(Debug)]
pub struct ActorStore {
    rows: Vec<ActorRow>,
}

impl View for ActorStore {
    type V = Seq<RowModel>;

    closed spec fn view(&self) -> Seq<RowModel> {
        self.rows@.map_values(|r: ActorRow| r@)
    }
}

impl ActorStore {
    /// The repository invariant: every unique key is unique.
    pub open spec fn inv(&self) -> bool {
        wf_rows(self@)
    }

    /// An empty repository.
    pub fn new() -> (r: ActorStore)
        ensures
            r@ == Seq::<RowModel>::empty(),
            r.inv(),
    {
        let store = ActorStore { rows: Vec::new() };
        proof {
            assert(store@ =~= Seq::<RowModel>::empty());
        }
        store
    }

    /// How many rows are stored.
    pub fn len(&self) -> (r: usize)
        ensures
            r == self@.len(),
    {
        self.rows.len()
    }

    /// The stored row whose actor URL is `url`, if any.
    pub fn find_by_url(&self, url: &crate::urls::HttpUrl) -> (r: Option<ActorRow>)
        ensures
            match r {
                Some(row) => exists|i: int|
                    0 <= i < self@.len() && #[trigger] self@[i] == row@ && row@.actor_url.text
                        == url@.text,
                None => forall|i: int|
                    0 <= i < self@.len() ==> (#[trigger] self@[i]).actor_url.text != url@.text,
            },
    {
        let n = self.rows.len();
        let mut i: usize = 0;
        while i < n
            invariant
                i <= n,
                n == self.rows.len(),
                self@ == self.rows@.map_values(|r: ActorRow| r@),
                forall|j: int| 0 <= j < i ==> (#[trigger] self@[j]).actor_url.text != url@.text,
            decreases n - i,
        {
            assert(self@[i as int] == self.rows@[i as int]@);
            if str_eq(self.rows[i].actor_url.as_str(), url.as_str()) {
                return Some(self.rows[i].clone());
            }
            i = i + 1;
        }
        None
    }

    /// The stored row under the host-and-name key, if any.
    pub fn find_by_host_name(&self, host: &str, name: &str) -> (r: Option<ActorRow>)
        ensures
            match r {
                Some(row) => exists|i: int|
                    0 <= i < self@.len() && #[trigger] self@[i] == row@ && row@.actor_url.host
                        == host@ && row@.name == name@,
                None => forall|i: int|
                    0 <= i < self@.len() ==> !((#[trigger] self@[i]).actor_url.host == host@
                        && self@[i].name == name@),
            },
    {
        let n = self.rows.len();
        let mut i: usize = 0;
        while i < n
            invariant
                i <= n,
                n == self.rows.len(),
                self@ == self.rows@.map_values(|r: ActorRow| r@),
                forall|j: int|
                    0 <= j < i ==> !((#[trigger] self@[j]).actor_url.host == host@ && self@[j].name
                        == name@),
            decreases n - i,
        {
            assert(self@[i as int] == self.rows@[i as int]@);
            if str_eq(self.rows[i].actor_url.host(), host) && str_eq(
                self.rows[i].name.as_str(),
                name,
            ) {
                return Some(self.rows[i].clone());
            }
            i = i + 1;
        }
        None
    }

    /// The stored row with this identifier, if any.
    pub fn find_by_id(&self, id: &crate::ids::ActorId) -> (r: Option<ActorRow>)
        ensures
            match r {
                Some(row) => exists|i: int|
                    0 <= i < self@.len() && #[trigger] self@[i] == row@ && row@.id == *id,
                None => forall|i: int| 0 <= i < self@.len() ==> (#[trigger] self@[i]).id != *id,
            },
    {
        let n = self.rows.len();
        let mut i: usize = 0;
        while i < n
            invariant
                i <= n,
                n == self.rows.len(),
                self@ == self.rows@.map_values(|r: ActorRow| r@),
                forall|j: int| 0 <= j < i ==> (#[trigger] self@[j]).id != *id,
            decreases n - i,
        {
            assert(self@[i as int] == self.rows@[i as int]@);
            if self.rows[i].id.value == id.value {
                return Some(self.rows[i].clone());
            }
            i = i + 1;
        }
        None
    }

    /// The stored row linking this account, if any.
    pub fn find_by_account_id(&self, account_id: &crate::ids::AccountId) -> (r: Option<ActorRow>)
        ensures
            match r {
                Some(row) => exists|i: int|
                    0 <= i < self@.len() && #[trigger] self@[i] == row@ && row@.account_id == Some(
                        *account_id,
                    ),
                None => forall|i: int|
                    0 <= i < self@.len() ==> (#[trigger] self@[i]).account_id != Some(*account_id),
            },
    {
        let n = self.rows.len();
        let mut i: usize = 0;
        while i < n
            invariant
                i <= n,
                n == self.rows.len(),
                self@ == self.rows@.map_values(|r: ActorRow| r@),
                forall|j: int| 0 <= j < i ==> (#[trigger] self@[j]).account_id != Some(*account_id),
            decreases n - i,
        {
            assert(self@[i as int] == self.rows@[i as int]@);
            let hit = match &self.rows[i].account_id {
                Some(a) => a.value == account_id.value,
                None => false,
            };
            if hit {
                return Some(self.rows[i].clone());
            }
            i = i + 1;
        }
        None
    }

    fn find_url_collision(&self, row: &ActorRow) -> (r: Option<usize>)
        ensures
            match r {
                Some(i) => i < self@.len() && same_url_key(self@[i as int], row@),
                None => !has_url_key(self@, row@),
            },
    {
        let n = self.rows.len();
        let mut i: usize = 0;
        while i < n
            invariant
                i <= n,
                n == self.rows.len(),
                self@ == self.rows@.map_values(|r: ActorRow| r@),
                forall|j: int| 0 <= j < i ==> !same_url_key(#[trigger] self@[j], row@),
            decreases n - i,
        {
            assert(self@[i as int] == self.rows@[i as int]@);
            if rows_same_url_key(&self.rows[i], row) {
                return Some(i);
            }
            i = i + 1;
        }
        None
    }

    fn has_host_name_collision(&self, row: &ActorRow) -> (r: bool)
        ensures
            r == has_host_name_key(self@, row@),
    {
        let n = self.rows.len();
        let mut i: usize = 0;
        while i < n
            invariant
                i <= n,
                n == self.rows.len(),
                self@ == self.rows@.map_values(|r: ActorRow| r@),
                forall|j: int| 0 <= j < i ==> !same_host_name_key(#[trigger] self@[j], row@),
            decreases n - i,
        {
            assert(self@[i as int] == self.rows@[i as int]@);
            if rows_same_host_name_key(&self.rows[i], row) {
                return true;
            }
            i = i + 1;
        }
        false
    }

    fn has_account_collision(&self, row: &ActorRow) -> (r: bool)
        ensures
            r == has_account_key(self@, row@),
    {
        let n = self.rows.len();
        let mut i: usize = 0;
        while i < n
            invariant
                i <= n,
                n == self.rows.len(),
                self@ == self.rows@.map_values(|r: ActorRow| r@),
                forall|j: int| 0 <= j < i ==> !same_account_key(#[trigger] self@[j], row@),
            decreases n - i,
        {
            assert(self@[i as int] == self.rows@[i as int]@);
            if rows_same_account_key(&self.rows[i], row) {
                return true;
            }
            i = i + 1;
        }
        false
    }

    /// Insert-or-return-existing on the unique keys.
    ///
    /// When no key collides, the row is inserted and returned. When the
    /// actor-URL key collides with equal attributes, the existing row is
    /// returned unchanged — an idempotent re-resolution, not an error. Any
    /// other collision is a genuine identity conflict.
    pub fn create(&mut self, row: ActorRow) -> (r: Result<ActorRow, CreateActorError>)
        requires
            old(self).inv(),
        ensures
            final(self).inv(),
            spec_upsert_grows(old(self)@, row@) ==> (r matches Ok(n) && n@ == row@ && final(self)@
                == old(self)@.push(row@)),
            spec_upsert_hit(old(self)@, row@) ==> (r matches Ok(n) && final(self)@ == old(self)@
                && exists|i: int|
                0 <= i < old(self)@.len() && same_url_key(#[trigger] old(self)@[i], row@)
                    && same_attrs(old(self)@[i], row@) && n@ == old(self)@[i]),
            !spec_upsert_grows(old(self)@, row@) && !spec_upsert_hit(old(self)@, row@) ==> (r
                matches Err(e) && e == CreateActorError::AlreadyExists && final(self)@ == old(
                self,
            )@),
    {
        match self.find_url_collision(&row) {
            Some(i) => {
                assert(has_url_key(self@, row@));
                if rows_same_attrs(&self.rows[i], &row) {
                    assert(self@[i as int] == self.rows@[i as int]@);
                    assert(spec_upsert_hit(self@, row@));
                    Ok(self.rows[i].clone())
                } else {
                    proof {
                        assert forall|j: int|
                            0 <= j < self@.len() && same_url_key(self@[j], row@) implies !same_attrs(
                            self@[j],
                            row@,
                        ) by {
                            if j != i as int {
                                assert(!same_url_key(self@[j], self@[i as int]));
                            }
                        }
                    }
                    Err(CreateActorError::AlreadyExists)
                }
            },
            None => {
                if self.has_host_name_collision(&row) {
                    return Err(CreateActorError::AlreadyExists);
                }
                if self.has_account_collision(&row) {
                    return Err(CreateActorError::AlreadyExists);
                }
                let ghost old_view = self@;
                let ghost m = row@;
                let result = row.clone();
                self.rows.push(row);
                proof {
                    assert(self@ =~= old_view.push(m));
                    lemma_growing_insert_preserves_wf(old_view, m);
                }
                Ok(result)
            },
        }
    }
}

/// The storage upsert is idempotent under concurrent re-resolution: once a
/// row for an identity is stored, inserting a second row built for the same
/// identity — equal in every attribute, under a possibly different fresh
/// identifier — is a hit that returns the stored row, never a duplicate.
pub proof fn lemma_upsert_idempotent(rows: Seq<RowModel>, m: RowModel, m2: RowModel)
    requires
        wf_rows(rows),
        spec_upsert_grows(rows, m),
        same_attrs(m2, m),
    ensures
        spec_upsert_hit(rows.push(m), m2),
        forall|i: int|
            0 <= i < rows.push(m).len() && same_url_key(#[trigger] rows.push(m)[i], m2)
                ==> rows.push(m)[i] == m,
{
    let rows2 = rows.push(m);
    assert(rows2[rows.len() as int] == m);
    assert(same_url_key(m, m2));
    assert(same_attrs(m, m2));
    assert(spec_upsert_hit(rows2, m2));
    assert forall|i: int|
        0 <= i < rows2.len() && same_url_key(#[trigger] rows2[i], m2) implies rows2[i] == m by {
        if i < rows.len() {
            assert(same_url_key(rows[i], m));
            assert(has_url_key(rows, m));
        }
    }
}

} // verus!
