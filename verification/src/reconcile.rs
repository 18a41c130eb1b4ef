//! Reconciliation: which calculator bindings survive when the asset list
//! changes between two refreshes.
use crate::types::{LstData, LstState, Pubkey};
use vstd::prelude::*;

verus! {

/// The two lists name the same assets with the same calculator programs, in
/// the same order.
pub open spec fn same_identities(old_list: Seq<LstState>, new_list: Seq<LstState>) -> bool {
    &&& old_list.len() == new_list.len()
    &&& forall|i: int|
        0 <= i < old_list.len() ==> {
            &&& (#[trigger] old_list[i]).mint == new_list[i].mint
            &&& old_list[i].sol_value_calculator == new_list[i].sol_value_calculator
        }
}

/// A binding whose calculator has the given identity.
pub open spec fn has_identity(binding: Option<LstData>, mint: Pubkey, program: Pubkey) -> bool {
    match binding {
        Some(ld) => ld.sol_val_calc.lst_mint == mint && ld.sol_val_calc.program_id == program,
        None => false,
    }
}

/// The first binding at or after `from` with the given identity.
pub open spec fn find_binding(
    bindings: Seq<Option<LstData>>,
    mint: Pubkey,
    program: Pubkey,
    from: int,
) -> Option<LstData>
    decreases bindings.len() - from,
{
    if from < 0 || from >= bindings.len() {
        None
    } else if has_identity(bindings[from], mint, program) {
        bindings[from]
    } else {
        find_binding(bindings, mint, program, from + 1)
    }
}

/// The binding of index `i` of the new list after a change of identities.
///
/// Where the index held another asset before, or none at all, the binding is
/// sought among the previous ones by the new identity. Where it held the same
/// asset, its binding stays if the calculator program is the same.
pub open spec fn rebound(
    old_list: Seq<LstState>,
    old_bindings: Seq<Option<LstData>>,
    new_list: Seq<LstState>,
    i: int,
) -> Option<LstData>
    recommends
        0 <= i < new_list.len(),
{
    if i >= old_list.len() || old_list[i].mint != new_list[i].mint {
        find_binding(old_bindings, new_list[i].mint, new_list[i].sol_value_calculator, 0)
    } else if i >= old_bindings.len() {
        None
    } else {
        match old_bindings[i] {
            Some(ld) => if ld.sol_val_calc.program_id == new_list[i].sol_value_calculator {
                Some(ld)
            } else {
                None
            },
            None => None,
        }
    }
}

/// The bindings that belong to `new_list`, given the previous list and its
/// bindings.
pub open spec fn reconciled(
    old_list: Seq<LstState>,
    old_bindings: Seq<Option<LstData>>,
    new_list: Seq<LstState>,
) -> Seq<Option<LstData>> {
    if same_identities(old_list, new_list) {
        old_bindings
    } else {
        Seq::new(new_list.len(), |i: int| rebound(old_list, old_bindings, new_list, i))
    }
}

/// Whether the two lists name the same assets and calculator programs.
pub fn identities_unchanged(old_list: &[LstState], new_list: &[LstState]) -> (r: bool)
    ensures
        r == same_identities(old_list@, new_list@),
{
    if old_list.len() != new_list.len() {
        return false;
    }
    let mut i: usize = 0;
    while i < old_list.len()
        invariant
            old_list.len() == new_list.len(),
            0 <= i <= old_list.len(),
            forall|k: int|
                0 <= k < i ==> {
                    &&& (#[trigger] old_list@[k]).mint == new_list@[k].mint
                    &&& old_list@[k].sol_value_calculator == new_list@[k].sol_value_calculator
                },
        decreases old_list.len() - i,
    {
        if old_list[i].mint != new_list[i].mint || old_list[i].sol_value_calculator
            != new_list[i].sol_value_calculator {
            assert(!same_identities(old_list@, new_list@)) by {
                let _ = old_list@[i as int];
            }
            return false;
        }
        i += 1;
    }
    true
}

/// Searches the previous bindings for a calculator with the given identity.
pub fn find_by_identity(bindings: &[Option<LstData>], mint: Pubkey, program: Pubkey) -> (r: Option<
    LstData,
>)
    ensures
        r == find_binding(bindings@, mint, program, 0),
{
    let mut i: usize = bindings.len();
    let mut found: Option<LstData> = None;
    while i > 0
        invariant
            0 <= i <= bindings.len(),
            found == find_binding(bindings@, mint, program, i as int),
        decreases i,
    {
        i -= 1;
        let hit = match &bindings[i] {
            Some(ld) => ld.sol_val_calc.lst_mint == mint && ld.sol_val_calc.program_id == program,
            None => false,
        };
        if hit {
            found = bindings[i];
        }
    }
    found
}

/// A copy of a binding list.
pub fn copy_bindings(bindings: &[Option<LstData>]) -> (r: Vec<Option<LstData>>)
    ensures
        r@ == bindings@,
{
    let mut out: Vec<Option<LstData>> = Vec::new();
    let mut i: usize = 0;
    while i < bindings.len()
        invariant
            0 <= i <= bindings@.len(),
            out@ == bindings@.take(i as int),
        decreases bindings@.len() - i,
    {
        out.push(bindings[i]);
        assert(out@ =~= bindings@.take(i as int + 1));
        i += 1;
    }
    assert(bindings@.take(bindings@.len() as int) =~= bindings@);
    out
}

/// Rebuilds the binding list for a new asset list.
///
/// Where the identities are unchanged the bindings are kept as they are.
/// Otherwise each index keeps its binding if the asset stayed and its
/// calculator program did too, takes over the binding with the new identity if
/// the asset changed or the index is new, and is left without a binding in
/// every other case.
pub fn reconcile(
    old_list: &[LstState],
    old_bindings: &[Option<LstData>],
    new_list: &[LstState],
) -> (r: Vec<Option<LstData>>)
    ensures
        r@ == reconciled(old_list@, old_bindings@, new_list@),
{
    if identities_unchanged(old_list, new_list) {
        return copy_bindings(old_bindings);
    }
    let mut out: Vec<Option<LstData>> = Vec::new();
    let mut i: usize = 0;
    while i < new_list.len()
        invariant
            0 <= i <= new_list.len(),
            out@.len() == i,
            forall|k: int|
                0 <= k < i ==> out@[k] == rebound(old_list@, old_bindings@, new_list@, k),
        decreases new_list.len() - i,
    {
        let replacement: Option<LstData> = if i >= old_list.len() || old_list[i].mint
            != new_list[i].mint {
            find_by_identity(
                old_bindings,
                new_list[i].mint,
                new_list[i].sol_value_calculator,
            )
        } else if i >= old_bindings.len() {
            None
        } else {
            match old_bindings[i] {
                Some(ld) => if ld.sol_val_calc.program_id == new_list[i].sol_value_calculator {
                    Some(ld)
                } else {
                    None
                },
                None => None,
            }
        };
        out.push(replacement);
        i += 1;
    }
    assert(out@ =~= reconciled(old_list@, old_bindings@, new_list@));
    out
}

/// No asset is listed twice.
pub open spec fn distinct_mints(list: Seq<LstState>) -> bool {
    forall|i: int, j: int|
        0 <= i < list.len() && 0 <= j < list.len() && i != j ==> (#[trigger] list[i]).mint != (
        #[trigger] list[j]).mint
}

/// Every binding stands at the index of the asset it values, and no asset is
/// listed twice.
pub open spec fn aligned(list: Seq<LstState>, bindings: Seq<Option<LstData>>) -> bool {
    &&& list.len() == bindings.len()
    &&& distinct_mints(list)
    &&& forall|i: int|
        0 <= i < list.len() ==> match #[trigger] bindings[i] {
            Some(ld) => ld.sol_val_calc.lst_mint == list[i].mint && ld.sol_val_calc.program_id
                == list[i].sol_value_calculator,
            None => true,
        }
}

/// A binding found by an identity has that identity.
proof fn lemma_found_has_identity(
    bindings: Seq<Option<LstData>>,
    mint: Pubkey,
    program: Pubkey,
    from: int,
)
    requires
        0 <= from,
    ensures
        find_binding(bindings, mint, program, from) is Some ==> has_identity(
            find_binding(bindings, mint, program, from),
            mint,
            program,
        ),
    decreases bindings.len() - from,
{
    if from < bindings.len() && !has_identity(bindings[from], mint, program) {
        lemma_found_has_identity(bindings, mint, program, from + 1);
    }
}

/// Reconciliation keeps the bindings aligned: where they stood beside the
/// previous list, and the new list names no asset twice, they stand beside
/// the new list.
pub proof fn lemma_reconciled_aligned(
    old_list: Seq<LstState>,
    old_bindings: Seq<Option<LstData>>,
    new_list: Seq<LstState>,
)
    requires
        aligned(old_list, old_bindings),
        distinct_mints(new_list),
    ensures
        aligned(new_list, reconciled(old_list, old_bindings, new_list)),
{
    let out = reconciled(old_list, old_bindings, new_list);
    if same_identities(old_list, new_list) {
        assert forall|i: int| 0 <= i < new_list.len() implies match #[trigger] out[i] {
            Some(ld) => ld.sol_val_calc.lst_mint == new_list[i].mint && ld.sol_val_calc.program_id
                == new_list[i].sol_value_calculator,
            None => true,
        } by {
            let _ = old_list[i];
        }
    } else {
        assert forall|i: int| 0 <= i < new_list.len() implies match #[trigger] out[i] {
            Some(ld) => ld.sol_val_calc.lst_mint == new_list[i].mint && ld.sol_val_calc.program_id
                == new_list[i].sol_value_calculator,
            None => true,
        } by {
            lemma_found_has_identity(
                old_bindings,
                new_list[i].mint,
                new_list[i].sol_value_calculator,
                0,
            );
        }
    }
}

/// In an aligned list, a search by the identity of the asset at `i` finds the
/// binding at `i`.
proof fn lemma_find_aligned(
    list: Seq<LstState>,
    bindings: Seq<Option<LstData>>,
    i: int,
    from: int,
)
    requires
        aligned(list, bindings),
        0 <= from <= i < list.len(),
        bindings[i] is Some,
    ensures
        find_binding(bindings, list[i].mint, list[i].sol_value_calculator, from) == bindings[i],
    decreases i - from,
{
    if from < i {
        let _ = list[from];
        let _ = list[i];
        lemma_find_aligned(list, bindings, i, from + 1);
    }
}

/// Identity preservation: when the asset that stood at index `i` with a
/// binding stands at index `j` of the new list, with the same calculator
/// program, reconciliation puts that same binding at `j`, wherever `j` lies.
pub proof fn lemma_bindings_survive(
    old_list: Seq<LstState>,
    old_bindings: Seq<Option<LstData>>,
    new_list: Seq<LstState>,
    i: int,
    j: int,
)
    requires
        aligned(old_list, old_bindings),
        0 <= i < old_list.len(),
        0 <= j < new_list.len(),
        old_bindings[i] is Some,
        new_list[j].mint == old_list[i].mint,
        new_list[j].sol_value_calculator == old_list[i].sol_value_calculator,
    ensures
        reconciled(old_list, old_bindings, new_list).len() > j,
        reconciled(old_list, old_bindings, new_list)[j] == old_bindings[i],
{
    let _ = old_list[i];
    if j < old_list.len() {
        let _ = old_list[j];
    }
    if same_identities(old_list, new_list) {
        assert(i == j);
    } else if j >= old_list.len() || old_list[j].mint != new_list[j].mint {
        lemma_find_aligned(old_list, old_bindings, i, 0);
    } else {
        assert(i == j);
    }
}

/// Reconciliation yields one binding slot for each asset of the new list,
/// provided the previous lists were of one length.
pub proof fn lemma_reconciled_len(
    old_list: Seq<LstState>,
    old_bindings: Seq<Option<LstData>>,
    new_list: Seq<LstState>,
)
    requires
        old_list.len() == old_bindings.len(),
    ensures
        reconciled(old_list, old_bindings, new_list).len() == new_list.len(),
{
}

} // verus!
