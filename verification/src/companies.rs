//! The `companies` entity and the repository operations on its table.
//!
//! Companies share the relational store with users but are an independent
//! table: no association between the two is defined. The table is modelled
//! as the sequence of rows the store holds, in insertion order.

use vstd::prelude::*;

use crate::errors::RepoError;

verus! {

/// The mathematical value of a companies row.
pub ghost struct CompaniesV {
    pub uuid: u128,
    pub company_name: Seq<char>,
}

/// A complete `companies` record. `uuid` is unique and immutable after
/// creation; rows are never updated and leave the table only through a bulk
/// delete.
#[derive(Clone, Debug, PartialEq, Eq)]
pub struct Companies {
    pub uuid: u128,
    pub company_name: String,
}

impl View for Companies {
    type V = CompaniesV;

    open spec fn view(&self) -> CompaniesV {
        CompaniesV { uuid: self.uuid, company_name: self.company_name@ }
    }
}

impl DeepView for Companies {
    type V = CompaniesV;

    open spec fn deep_view(&self) -> CompaniesV {
        self.view()
    }
}

/// The views of a sequence of records, element by element.
pub open spec fn company_views(s: Seq<Companies>) -> Seq<CompaniesV> {
    s.map_values(|c: Companies| c@)
}

/// The row an insertion of the two column values writes.
pub open spec fn company_columns_view(uuid: u128, company_name: Seq<char>) -> CompaniesV {
    CompaniesV { uuid, company_name }
}

/// The state of the relational store's `companies` table: its rows, in
/// insertion order.
pub struct CompaniesTable {
    rows: Vec<Companies>,
}

impl View for CompaniesTable {
    type V = Seq<CompaniesV>;

    closed spec fn view(&self) -> Seq<CompaniesV> {
        self.rows.deep_view()
    }
}

impl CompaniesTable {
    /// An empty table.
    pub fn new() -> (t: Self)
        ensures
            t@ == Seq::<CompaniesV>::empty(),
    {
        let t = CompaniesTable { rows: Vec::new() };
        proof {
            assert(t@ =~= Seq::<CompaniesV>::empty());
        }
        t
    }
}

impl Companies {
    /// Inserts a record from its two column values, in the statement's fixed
    /// parameter order.
    pub fn insert(table: &mut CompaniesTable, uuid: u128, company_name: &str) -> (r: Result<
        (),
        RepoError,
    >)
        ensures
            r is Ok,
            final(table)@ == old(table)@.push(company_columns_view(uuid, company_name@)),
    {
        let row = Companies { uuid, company_name: String::from_str(company_name) };
        table.rows.push(row);
        proof {
            assert(table@ =~= old(table)@.push(company_columns_view(uuid, company_name@)));
        }
        Ok(())
    }

    /// Removes every row of the table.
    pub fn delete_all(table: &mut CompaniesTable) -> (r: Result<(), RepoError>)
        ensures
            r is Ok,
            final(table)@ == Seq::<CompaniesV>::empty(),
    {
        table.rows = Vec::new();
        proof {
            assert(table@ =~= Seq::<CompaniesV>::empty());
        }
        Ok(())
    }

    /// Returns every row of the table, in the table's own order. The result
    /// is a function of the table state alone.
    pub fn select_all(table: &CompaniesTable) -> (r: Result<Vec<Companies>, RepoError>)
        ensures
            r matches Ok(list) && list.deep_view() == table@,
    {
        let mut out: Vec<Companies> = Vec::new();
        let n = table.rows.len();
        let mut i: usize = 0;
        while i < n
            invariant
                i <= n,
                n == table.rows.len(),
                out@.len() == i,
                forall|j: int| 0 <= j < i ==> (#[trigger] out@[j])@ == table@[j],
            decreases n - i,
        {
            let row = Companies {
                uuid: table.rows[i].uuid,
                company_name: table.rows[i].company_name.clone(),
            };
            out.push(row);
            proof {
                assert(row@ == table@[i as int]);
            }
            i += 1;
        }
        proof {
            assert forall|j: int| 0 <= j < out@.len() implies out.deep_view()[j] == table@[j] by {
                assert((out@[j])@ == table@[j]);
            }
            assert(out.deep_view() =~= table@);
        }
        Ok(out)
    }
}

/// Reads are idempotent: any two results that `select_all`'s contract admits
/// for the same table state carry the same records, in the same order.
pub proof fn lemma_companies_select_all_idempotent(
    t: Seq<CompaniesV>,
    first: Seq<Companies>,
    second: Seq<Companies>,
)
    requires
        company_views(first) == t,
        company_views(second) == t,
    ensures
        company_views(first) == company_views(second),
{
}

/// After `delete_all`, a read returns the empty list.
pub proof fn lemma_companies_delete_all_then_select_all(
    cleared: Seq<CompaniesV>,
    result: Seq<Companies>,
)
    requires
        cleared == Seq::<CompaniesV>::empty(),
        company_views(result) == cleared,
    ensures
        result.len() == 0,
{
    assert(company_views(result).len() == result.len());
}

} // verus!
