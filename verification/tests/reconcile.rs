use s_jup_interface::reconcile::{find_by_identity, identities_unchanged, reconcile};
use s_jup_interface::types::{CalcFamily, LstData, LstState, Pubkey, SolValCalc};

fn key(n: u128) -> Pubkey {
    Pubkey { hi: 0, lo: n }
}

fn state(mint: u128, calc: u128) -> LstState {
    LstState {
        mint: key(mint),
        sol_value_calculator: key(calc),
        sol_value: 0,
        pool_reserves_bump: 255,
        protocol_fee_accumulator_bump: 254,
        is_input_disabled: false,
    }
}

fn binding(mint: u128, calc: u128, balance: u64) -> Option<LstData> {
    Some(LstData {
        sol_val_calc: SolValCalc {
            family: CalcFamily::Wsol,
            lst_mint: key(mint),
            program_id: key(calc),
        },
        reserves_balance: Some(balance),
        token_program: key(900),
    })
}

#[test]
fn drop_last_and_reorder_keeps_surviving_bindings() {
    let old = vec![state(1, 10), state(2, 20), state(3, 30)];
    let bindings = vec![binding(1, 10, 7), binding(2, 20, 8), binding(3, 30, 9)];
    let new = vec![state(2, 20), state(1, 10)];
    let out = reconcile(&old, &bindings, &new);
    assert_eq!(out, vec![binding(2, 20, 8), binding(1, 10, 7)]);
}

#[test]
fn unchanged_identities_keep_every_binding() {
    let old = vec![state(1, 10), state(2, 20)];
    let bindings = vec![binding(1, 10, 7), None];
    let mut new = old.clone();
    new[0].sol_value = 123;
    assert!(identities_unchanged(&old, &new));
    assert_eq!(reconcile(&old, &bindings, &new), bindings);
}

#[test]
fn changed_calculator_program_drops_the_binding() {
    let old = vec![state(1, 10), state(2, 20)];
    let bindings = vec![binding(1, 10, 7), binding(2, 20, 8)];
    let new = vec![state(1, 11), state(2, 20)];
    assert!(!identities_unchanged(&old, &new));
    assert_eq!(reconcile(&old, &bindings, &new), vec![None, binding(2, 20, 8)]);
}

#[test]
fn appended_assets_have_no_binding() {
    let old = vec![state(1, 10)];
    let bindings = vec![binding(1, 10, 7)];
    let new = vec![state(1, 10), state(2, 20)];
    assert_eq!(reconcile(&old, &bindings, &new), vec![binding(1, 10, 7), None]);
}

#[test]
fn an_asset_moved_past_the_old_length_keeps_its_binding() {
    let old = vec![state(1, 10), state(2, 20)];
    let bindings = vec![binding(1, 10, 7), binding(2, 20, 8)];
    let new = vec![state(2, 20), state(3, 30), state(1, 10)];
    assert_eq!(
        reconcile(&old, &bindings, &new),
        vec![binding(2, 20, 8), None, binding(1, 10, 7)]
    );
}

#[test]
fn a_new_asset_in_front_shifts_every_binding() {
    let old = vec![state(1, 10), state(2, 20)];
    let bindings = vec![binding(1, 10, 7), binding(2, 20, 8)];
    let new = vec![state(3, 30), state(1, 10), state(2, 20)];
    assert_eq!(
        reconcile(&old, &bindings, &new),
        vec![None, binding(1, 10, 7), binding(2, 20, 8)]
    );
}

#[test]
fn an_asset_moved_past_the_old_length_with_another_program_is_unbound() {
    let old = vec![state(1, 10), state(2, 20)];
    let bindings = vec![binding(1, 10, 7), binding(2, 20, 8)];
    let new = vec![state(2, 20), state(3, 30), state(1, 11)];
    assert_eq!(reconcile(&old, &bindings, &new), vec![binding(2, 20, 8), None, None]);
}

#[test]
fn reordered_asset_with_another_program_is_not_rebound() {
    let old = vec![state(1, 10), state(2, 20)];
    let bindings = vec![binding(1, 10, 7), binding(2, 20, 8)];
    let new = vec![state(2, 21), state(1, 10)];
    assert_eq!(reconcile(&old, &bindings, &new), vec![None, binding(1, 10, 7)]);
}

#[test]
fn search_by_identity_takes_the_first_match() {
    let bindings = vec![None, binding(1, 10, 7), binding(1, 10, 8)];
    assert_eq!(find_by_identity(&bindings, key(1), key(10)), binding(1, 10, 7));
    assert_eq!(find_by_identity(&bindings, key(1), key(11)), None);
    assert_eq!(find_by_identity(&[], key(1), key(10)), None);
}

#[test]
fn lists_of_different_length_differ() {
    assert!(!identities_unchanged(&[state(1, 10)], &[]));
    assert!(identities_unchanged(&[], &[]));
}
