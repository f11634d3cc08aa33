//! The `users` entity: its shape, its partial builder, the defaulting policy
//! that fills unset builder fields before finalization, and the repository
//! operations on the users table.
//!
//! The table itself is modelled as the sequence of rows the relational store
//! holds for `users`; every operation is specified as a transition on that
//! state. Result order of a scan follows insertion order, which the
//! time-ordered identifiers of freshly generated rows preserve.

use vstd::prelude::*;

use crate::errors::RepoError;
use crate::ids::{is_version7, new_uuid};
use crate::text::str_eq;

verus! {

/// The user's classification. Its stable textual encoding is given by
/// [`UserKbn::label`]; nothing depends on declaration order.
#[derive(Clone, Copy, Debug, PartialEq, Eq, Structural)]
pub enum UserKbn {
    Admin,
    Normal,
}

/// The textual encoding of a classification, as the relational store's
/// enumerated column expects it.
pub open spec fn label_of(kbn: UserKbn) -> Seq<char> {
    match kbn {
        UserKbn::Admin => "Admin"@,
        UserKbn::Normal => "Normal"@,
    }
}

impl UserKbn {
    /// The stable textual encoding of this classification.
    pub fn label(&self) -> (r: &'static str)
        ensures
            r@ == label_of(*self),
    {
        match self {
            UserKbn::Admin => "Admin",
            UserKbn::Normal => "Normal",
        }
    }

    /// Decodes a textual classification; inverse of [`UserKbn::label`].
    pub fn from_label(s: &str) -> (r: Option<UserKbn>)
        ensures
            match r {
                Some(kbn) => s@ == label_of(kbn),
                None => s@ != label_of(UserKbn::Admin) && s@ != label_of(UserKbn::Normal),
            },
    {
        if str_eq(s, "Admin") {
            Some(UserKbn::Admin)
        } else if str_eq(s, "Normal") {
            Some(UserKbn::Normal)
        } else {
            None
        }
    }
}

/// The mathematical value of a users row: the identifier as its 128-bit
/// value, the two text columns as character sequences, the classification.
pub ghost struct UsersV {
    pub uuid: u128,
    pub user_name: Seq<char>,
    pub user_email: Seq<char>,
    pub user_kbn: UserKbn,
}

/// A complete `users` record. `uuid` is unique and immutable after creation;
/// rows are never updated and leave the table only through a bulk delete.
#[derive(Clone, Debug, PartialEq, Eq)]
pub struct Users {
    pub uuid: u128,
    pub user_name: String,
    pub user_email: String,
    pub user_kbn: UserKbn,
}

impl View for Users {
    type V = UsersV;

    open spec fn view(&self) -> UsersV {
        UsersV {
            uuid: self.uuid,
            user_name: self.user_name@,
            user_email: self.user_email@,
            user_kbn: self.user_kbn,
        }
    }
}

impl DeepView for Users {
    type V = UsersV;

    open spec fn deep_view(&self) -> UsersV {
        self.view()
    }
}

impl Default for Users {
    /// A fully defaulted record with a freshly generated identifier.
    fn default() -> (r: Self)
        ensures
            is_version7(r@.uuid),
            r@.user_name == "テスト太郎"@,
            r@.user_email == "test@example.com"@,
            r@.user_kbn == UserKbn::Normal,
    {
        Users {
            uuid: new_uuid(),
            user_name: String::from_str("テスト太郎"),
            user_email: String::from_str("test@example.com"),
            user_kbn: UserKbn::Normal,
        }
    }
}

/// The mathematical value of a builder: each field either unset or set.
pub ghost struct UsersBuilderV {
    pub uuid: Option<u128>,
    pub user_name: Option<Seq<char>>,
    pub user_email: Option<Seq<char>>,
    pub user_kbn: Option<UserKbn>,
}

impl UsersBuilderV {
    /// The builder state with every field unset.
    pub open spec fn empty() -> UsersBuilderV {
        UsersBuilderV { uuid: None, user_name: None, user_email: None, user_kbn: None }
    }
}

/// Whether every field of the builder is set, so that finalization succeeds.
pub open spec fn all_set(b: UsersBuilderV) -> bool {
    &&& b.uuid is Some
    &&& b.user_name is Some
    &&& b.user_email is Some
    &&& b.user_kbn is Some
}

/// Finalization: the record a builder yields, or nothing if a field is unset.
pub open spec fn spec_build(b: UsersBuilderV) -> Option<UsersV> {
    if all_set(b) {
        Some(
            UsersV {
                uuid: b.uuid->0,
                user_name: b.user_name->0,
                user_email: b.user_email->0,
                user_kbn: b.user_kbn->0,
            },
        )
    } else {
        None
    }
}

/// The defaulting policy, applied once immediately before finalization, in
/// this fixed order; later defaults may read earlier ones, never the reverse:
/// 1. an unset `uuid` becomes the freshly generated identifier `fresh`;
/// 2. an unset `user_name` becomes the canonical placeholder name;
/// 3. an unset `user_email` is derived from the *current* `user_name`
///    (whether explicit or just defaulted) as `"{name}@example.com"`;
/// 4. an unset `user_kbn` becomes `Normal`.
pub open spec fn spec_apply_defaults(b: UsersBuilderV, fresh: u128) -> UsersBuilderV {
    let b1 = if b.uuid is None {
        UsersBuilderV { uuid: Some(fresh), ..b }
    } else {
        b
    };
    let b2 = if b1.user_name is None {
        UsersBuilderV { user_name: Some("太郎"@), ..b1 }
    } else {
        b1
    };
    let b3 = if b2.user_email is None {
        UsersBuilderV { user_email: Some(b2.user_name->0 + "@example.com"@), ..b2 }
    } else {
        b2
    };
    if b3.user_kbn is None {
        UsersBuilderV { user_kbn: Some(UserKbn::Normal), ..b3 }
    } else {
        b3
    }
}

/// The builder with its classification forced to `kbn`.
pub open spec fn with_kbn(b: UsersBuilderV, kbn: UserKbn) -> UsersBuilderV {
    UsersBuilderV { user_kbn: Some(kbn), ..b }
}

/// The record that defaulting followed by finalization yields; total, since
/// the policy covers every field.
pub open spec fn spec_make(b: UsersBuilderV, fresh: u128) -> UsersV {
    spec_build(spec_apply_defaults(b, fresh))->0
}

/// A field-optional staging value for a `users` record under construction.
/// Single-use: finalize it once with [`UsersBuilder::build`], or hand it to
/// one of the insertion operations that run the defaulting policy first.
#[derive(Clone, Debug, PartialEq, Eq)]
pub struct UsersBuilder {
    pub uuid: Option<u128>,
    pub user_name: Option<String>,
    pub user_email: Option<String>,
    pub user_kbn: Option<UserKbn>,
}

impl View for UsersBuilder {
    type V = UsersBuilderV;

    open spec fn view(&self) -> UsersBuilderV {
        UsersBuilderV {
            uuid: self.uuid,
            user_name: self.user_name.deep_view(),
            user_email: self.user_email.deep_view(),
            user_kbn: self.user_kbn,
        }
    }
}

impl Default for UsersBuilder {
    /// A builder with every field unset.
    fn default() -> (r: Self)
        ensures
            r@ == UsersBuilderV::empty(),
    {
        UsersBuilder { uuid: None, user_name: None, user_email: None, user_kbn: None }
    }
}

impl UsersBuilder {
    /// Sets the identifier, overwriting any prior value.
    pub fn uuid(self, value: u128) -> (r: Self)
        ensures
            r@ == (UsersBuilderV { uuid: Some(value), ..self@ }),
    {
        UsersBuilder { uuid: Some(value), ..self }
    }

    /// Sets the name, overwriting any prior value.
    pub fn user_name(self, value: String) -> (r: Self)
        ensures
            r@ == (UsersBuilderV { user_name: Some(value@), ..self@ }),
    {
        UsersBuilder { user_name: Some(value), ..self }
    }

    /// Sets the email address, overwriting any prior value.
    pub fn user_email(self, value: String) -> (r: Self)
        ensures
            r@ == (UsersBuilderV { user_email: Some(value@), ..self@ }),
    {
        UsersBuilder { user_email: Some(value), ..self }
    }

    /// Sets the classification, overwriting any prior value.
    pub fn user_kbn(self, value: UserKbn) -> (r: Self)
        ensures
            r@ == (UsersBuilderV { user_kbn: Some(value), ..self@ }),
    {
        UsersBuilder { user_kbn: Some(value), ..self }
    }

    /// Runs the defaulting policy: every unset field receives its default,
    /// every set field is kept. The fresh identifier a previously unset
    /// `uuid` receives is reported through the final builder state.
    pub fn apply_defaults(&mut self)
        ensures
            final(self)@.uuid is Some,
            final(self)@ == spec_apply_defaults(old(self)@, final(self)@.uuid->0),
            old(self)@.uuid is None ==> is_version7(final(self)@.uuid->0),
    {
        if self.uuid.is_none() {
            self.uuid = Some(new_uuid());
        }
        if self.user_name.is_none() {
            self.user_name = Some(String::from_str("太郎"));
        }
        if self.user_email.is_none() {
            let name = self.user_name.as_ref().unwrap();
            self.user_email = Some(name.clone().concat("@example.com"));
        }
        if self.user_kbn.is_none() {
            self.user_kbn = Some(UserKbn::Normal);
        }
    }

    /// Finalizes the builder into an immutable record, failing with
    /// `IncompleteBuilder` if any field is still unset.
    pub fn build(&self) -> (r: Result<Users, RepoError>)
        ensures
            match r {
                Ok(u) => spec_build(self@) == Some(u@),
                Err(e) => spec_build(self@) is None && e == RepoError::IncompleteBuilder,
            },
    {
        let uuid = match &self.uuid {
            Some(v) => *v,
            None => {
                return Err(RepoError::IncompleteBuilder);
            },
        };
        let user_name = match &self.user_name {
            Some(v) => v.clone(),
            None => {
                return Err(RepoError::IncompleteBuilder);
            },
        };
        let user_email = match &self.user_email {
            Some(v) => v.clone(),
            None => {
                return Err(RepoError::IncompleteBuilder);
            },
        };
        let user_kbn = match &self.user_kbn {
            Some(v) => *v,
            None => {
                return Err(RepoError::IncompleteBuilder);
            },
        };
        Ok(Users { uuid, user_name, user_email, user_kbn })
    }
}

/// The state of the relational store's `users` table: its rows, in insertion
/// order.
pub struct UsersTable {
    rows: Vec<Users>,
}

impl View for UsersTable {
    type V = Seq<UsersV>;

    closed spec fn view(&self) -> Seq<UsersV> {
        self.rows.deep_view()
    }
}

impl UsersTable {
    /// An empty table.
    pub fn new() -> (t: Self)
        ensures
            t@ == Seq::<UsersV>::empty(),
    {
        let t = UsersTable { rows: Vec::new() };
        proof {
            assert(t@ =~= Seq::<UsersV>::empty());
        }
        t
    }
}

/// The views of a sequence of records, element by element.
pub open spec fn user_views(s: Seq<Users>) -> Seq<UsersV> {
    s.map_values(|u: Users| u@)
}

/// The row a column-by-column insertion writes.
pub open spec fn columns_view(
    uuid: u128,
    user_name: Seq<char>,
    user_email: Seq<char>,
    user_kbn: UserKbn,
) -> UsersV {
    UsersV { uuid, user_name, user_email, user_kbn }
}

impl Users {
    /// Inserts a complete record: all fields are written positionally, with
    /// no defaulting.
    pub fn insert(table: &mut UsersTable, params: &Users) -> (r: Result<(), RepoError>)
        ensures
            r is Ok,
            final(table)@ == old(table)@.push(params@),
    {
        let row = Users {
            uuid: params.uuid,
            user_name: params.user_name.clone(),
            user_email: params.user_email.clone(),
            user_kbn: params.user_kbn,
        };
        table.rows.push(row);
        proof {
            assert(table@ =~= old(table)@.push(params@));
        }
        Ok(())
    }

    /// Inserts a record column by column, bypassing the entity and the
    /// builder entirely.
    pub fn insert_columns(
        table: &mut UsersTable,
        uuid: u128,
        user_name: &str,
        user_email: &str,
        user_kbn: &UserKbn,
    ) -> (r: Result<(), RepoError>)
        ensures
            r is Ok,
            final(table)@ == old(table)@.push(columns_view(uuid, user_name@, user_email@, *user_kbn)),
    {
        let params = Users {
            uuid,
            user_name: String::from_str(user_name),
            user_email: String::from_str(user_email),
            user_kbn: *user_kbn,
        };
        Self::insert(table, &params)
    }

    /// Runs the defaulting policy on the builder, finalizes it, and inserts
    /// the resulting record. Never fails: the policy covers every field.
    pub fn make(table: &mut UsersTable, builder: &mut UsersBuilder) -> (r: Result<(), RepoError>)
        ensures
            r is Ok,
            final(builder)@ == spec_apply_defaults(old(builder)@, final(builder)@.uuid->0),
            old(builder)@.uuid is None ==> is_version7(final(builder)@.uuid->0),
            final(table)@ == old(table)@.push(spec_make(old(builder)@, final(builder)@.uuid->0)),
    {
        builder.apply_defaults();
        let params = match builder.build() {
            Ok(u) => u,
            Err(e) => {
                return Err(e);
            },
        };
        Self::insert(table, &params)
    }

    /// Forces the classification to `Normal`, then runs the defaulting
    /// policy and inserts.
    pub fn make_normal(table: &mut UsersTable, builder: &mut UsersBuilder) -> (r: Result<
        (),
        RepoError,
    >)
        ensures
            r is Ok,
            final(builder)@ == spec_apply_defaults(
                with_kbn(old(builder)@, UserKbn::Normal),
                final(builder)@.uuid->0,
            ),
            final(table)@ == old(table)@.push(
                spec_make(with_kbn(old(builder)@, UserKbn::Normal), final(builder)@.uuid->0),
            ),
    {
        builder.user_kbn = Some(UserKbn::Normal);
        Self::make(table, builder)
    }

    /// Forces the classification to `Admin`, then runs the defaulting policy
    /// and inserts.
    pub fn make_admin(table: &mut UsersTable, builder: &mut UsersBuilder) -> (r: Result<
        (),
        RepoError,
    >)
        ensures
            r is Ok,
            final(builder)@ == spec_apply_defaults(
                with_kbn(old(builder)@, UserKbn::Admin),
                final(builder)@.uuid->0,
            ),
            final(table)@ == old(table)@.push(
                spec_make(with_kbn(old(builder)@, UserKbn::Admin), final(builder)@.uuid->0),
            ),
    {
        builder.user_kbn = Some(UserKbn::Admin);
        Self::make(table, builder)
    }

    /// Removes every row of the table.
    pub fn delete_all(table: &mut UsersTable) -> (r: Result<(), RepoError>)
        ensures
            r is Ok,
            final(table)@ == Seq::<UsersV>::empty(),
    {
        table.rows = Vec::new();
        proof {
            assert(table@ =~= Seq::<UsersV>::empty());
        }
        Ok(())
    }

    /// Returns every row of the table, in the table's own order. The result
    /// is a function of the table state alone.
    pub fn select_all(table: &UsersTable) -> (r: Result<Vec<Users>, RepoError>)
        ensures
            r matches Ok(list) && list.deep_view() == table@,
    {
        let mut out: Vec<Users> = Vec::new();
        let n = table.rows.len();
        let mut i: usize = 0;
        while i < n
            invariant
                i <= n,
                n == table.rows.len(),
                out@.len() == i,
                forall|j: int| 0 <= j < i ==> (#[trigger] out@[j])@ == table@[j],
            decreases n - i,
        {
            let row = Users {
                uuid: table.rows[i].uuid,
                user_name: table.rows[i].user_name.clone(),
                user_email: table.rows[i].user_email.clone(),
                user_kbn: table.rows[i].user_kbn,
            };
            out.push(row);
            proof {
                assert(row@ == table@[i as int]);
            }
            i += 1;
        }
        proof {
            assert forall|j: int| 0 <= j < out@.len() implies out.deep_view()[j] == table@[j] by {
                assert((out@[j])@ == table@[j]);
            }
            assert(out.deep_view() =~= table@);
        }
        Ok(out)
    }
}

/// The defaulting policy covers every field: after it has run, finalization
/// always succeeds, whatever was set before.
pub proof fn lemma_defaults_complete(b: UsersBuilderV, fresh: u128)
    ensures
        all_set(spec_apply_defaults(b, fresh)),
        spec_build(spec_apply_defaults(b, fresh)) == Some(spec_make(b, fresh)),
{
}

/// The defaulting policy only fills gaps: a field that was set explicitly
/// keeps its value, whatever the other fields hold.
pub proof fn lemma_defaults_keep_set_fields(b: UsersBuilderV, fresh: u128)
    ensures
        b.uuid is Some ==> spec_apply_defaults(b, fresh).uuid == b.uuid,
        b.user_name is Some ==> spec_apply_defaults(b, fresh).user_name == b.user_name,
        b.user_email is Some ==> spec_apply_defaults(b, fresh).user_email == b.user_email,
        b.user_kbn is Some ==> spec_apply_defaults(b, fresh).user_kbn == b.user_kbn,
{
}

/// An entirely empty builder, defaulted and inserted into an empty table,
/// yields exactly one record, whose email is the defaulted name followed by
/// `"@example.com"`.
pub proof fn lemma_empty_builder_defaulted_email(t0: Seq<UsersV>, fresh: u128)
    requires
        t0 == Seq::<UsersV>::empty(),
    ensures
        ({
            let t1 = t0.push(spec_make(UsersBuilderV::empty(), fresh));
            &&& t1.len() == 1
            &&& t1[0].user_name == "太郎"@
            &&& t1[0].user_email == t1[0].user_name + "@example.com"@
        }),
{
}

/// Setting `name` explicitly but leaving `email` unset yields
/// `email == "{explicit name}@example.com"`: the email default reads the
/// current name, so the policy's order is observable.
pub proof fn lemma_explicit_name_defaulted_email(b: UsersBuilderV, fresh: u128)
    requires
        b.user_name is Some,
        b.user_email is None,
    ensures
        spec_apply_defaults(b, fresh).user_email == Some(b.user_name->0 + "@example.com"@),
        spec_make(b, fresh).user_email == b.user_name->0 + "@example.com"@,
{
}

/// Reads are idempotent: any two results that `select_all`'s contract admits
/// for the same table state carry the same records, in the same order.
pub proof fn lemma_select_all_idempotent(t: Seq<UsersV>, first: Seq<Users>, second: Seq<Users>)
    requires
        user_views(first) == t,
        user_views(second) == t,
    ensures
        user_views(first) == user_views(second),
{
}

/// Inserting via `make_normal` and then `make_admin` into an empty table
/// gives exactly two records, classified `Normal` and `Admin` in that order.
pub proof fn lemma_make_normal_then_admin(
    t0: Seq<UsersV>,
    b1: UsersBuilderV,
    b2: UsersBuilderV,
    f1: u128,
    f2: u128,
)
    requires
        t0 == Seq::<UsersV>::empty(),
    ensures
        ({
            let t1 = t0.push(spec_make(with_kbn(b1, UserKbn::Normal), f1));
            let t2 = t1.push(spec_make(with_kbn(b2, UserKbn::Admin), f2));
            &&& t2.len() == 2
            &&& t2[0].user_kbn == UserKbn::Normal
            &&& t2[1].user_kbn == UserKbn::Admin
        }),
{
}

/// After `delete_all`, a read returns the empty list.
pub proof fn lemma_delete_all_then_select_all(cleared: Seq<UsersV>, result: Seq<Users>)
    requires
        cleared == Seq::<UsersV>::empty(),
        user_views(result) == cleared,
    ensures
        result.len() == 0,
{
    assert(user_views(result).len() == result.len());
}

/// Finalization of a builder with a field that neither the caller nor the
/// defaulting policy has covered fails with `IncompleteBuilder` rather than
/// silently omitting the field.
pub proof fn lemma_unset_field_fails_finalize(b: UsersBuilderV)
    requires
        !all_set(b),
    ensures
        spec_build(b) is None,
{
}

} // verus!
