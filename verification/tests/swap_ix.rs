use s_jup_interface::swap_ix::{
    decode_header, encode_header, find_lst_index, index_to_u32, overwrite_prefix,
    swap_exact_in_ix_by_mint_full, swap_exact_in_ix_full, AccountMeta,
    SrcDstLstSolValueCalcAccounts, SwapByMintsFreeArgs, SwapExactInAmounts, SwapExactInIxArgs,
    SwapExactInIxFullArgs, HEADER_LEN,
};
use s_jup_interface::types::{Error, LstState, Pubkey};

fn key(n: u128) -> Pubkey {
    Pubkey { hi: 1, lo: n }
}

fn meta(n: u128, is_writable: bool) -> AccountMeta {
    AccountMeta { pubkey: key(n), is_signer: false, is_writable }
}

fn state(mint: u128) -> LstState {
    LstState {
        mint: key(mint),
        sol_value_calculator: key(1000 + mint),
        sol_value: 0,
        pool_reserves_bump: 255,
        protocol_fee_accumulator_bump: 255,
        is_input_disabled: false,
    }
}

#[test]
fn header_bytes_are_little_endian_in_field_order() {
    let bytes = encode_header(&SwapExactInIxArgs {
        src_lst_value_calc_accs: 1,
        dst_lst_value_calc_accs: 2,
        src_lst_index: 0x0102_0304,
        dst_lst_index: 5,
        min_amount_out: 6,
        amount: 0x0807_0605_0403_0201,
    });
    assert_eq!(
        bytes,
        vec![
            1, 0, 0, 0, 2, 0, 0, 0, 4, 3, 2, 1, 5, 0, 0, 0, 6, 0, 0, 0, 0, 0, 0, 0, 1, 2, 3, 4,
            5, 6, 7, 8
        ]
    );
    assert_eq!(bytes.len(), HEADER_LEN);
}

#[test]
fn decoding_gives_back_what_was_encoded() {
    let args = SwapExactInIxArgs {
        src_lst_value_calc_accs: 7,
        dst_lst_value_calc_accs: u32::MAX,
        src_lst_index: 3,
        dst_lst_index: 4,
        min_amount_out: u64::MAX,
        amount: 12345,
    };
    assert_eq!(decode_header(&encode_header(&args)), Some(args));
    assert_eq!(decode_header(&[0u8; 31]), None);
}

#[test]
fn counts_in_the_header_match_the_appended_accounts() {
    let fixed = vec![meta(1, true), meta(2, false)];
    let src = vec![meta(10, false), meta(11, false), meta(12, true)];
    let dst = vec![meta(20, false)];
    let pricing = vec![meta(30, false), meta(31, false)];
    let ix = swap_exact_in_ix_full(
        key(99),
        &fixed,
        SwapExactInIxFullArgs { src_lst_index: 1, dst_lst_index: 0, min_amount_out: 49, amount: 100 },
        SrcDstLstSolValueCalcAccounts {
            src_lst_calculator_accounts: &src,
            dst_lst_calculator_accounts: &dst,
        },
        &pricing,
        key(77),
    )
    .unwrap();
    let header = decode_header(&ix.data).unwrap();
    assert_eq!(
        header,
        SwapExactInIxArgs {
            src_lst_value_calc_accs: 3,
            dst_lst_value_calc_accs: 1,
            src_lst_index: 1,
            dst_lst_index: 0,
            min_amount_out: 49,
            amount: 100,
        }
    );
    assert_eq!(ix.data.len(), 32);
    assert_eq!(ix.program_id, key(99));
    let mut expected = fixed.clone();
    expected.extend(src.iter().copied());
    expected.extend(dst.iter().copied());
    expected.push(AccountMeta { pubkey: key(77), is_signer: false, is_writable: false });
    expected.extend(pricing.iter().copied());
    assert_eq!(ix.accounts, expected);
    let tail = &ix.accounts[fixed.len() + 3 + 1..];
    assert_eq!(tail.len(), 1 + pricing.len());
    assert_eq!(tail[0].pubkey, key(77));
}

#[test]
fn calculators_may_contribute_no_accounts() {
    let ix = swap_exact_in_ix_full(
        key(99),
        &[],
        SwapExactInIxFullArgs { src_lst_index: 0, dst_lst_index: 1, min_amount_out: 0, amount: 1 },
        SrcDstLstSolValueCalcAccounts {
            src_lst_calculator_accounts: &[],
            dst_lst_calculator_accounts: &[],
        },
        &[],
        key(77),
    )
    .unwrap();
    assert_eq!(ix.accounts, vec![AccountMeta { pubkey: key(77), is_signer: false, is_writable: false }]);
    let header = decode_header(&ix.data).unwrap();
    assert_eq!(header.src_lst_value_calc_accs, 0);
    assert_eq!(header.dst_lst_value_calc_accs, 0);
}

#[test]
fn index_beyond_32_bits_overflows() {
    let too_big = (u32::MAX as usize) + 1;
    let calc = SrcDstLstSolValueCalcAccounts {
        src_lst_calculator_accounts: &[],
        dst_lst_calculator_accounts: &[],
    };
    let r = swap_exact_in_ix_full(
        key(99),
        &[],
        SwapExactInIxFullArgs { src_lst_index: too_big, dst_lst_index: 0, min_amount_out: 0, amount: 1 },
        calc,
        &[],
        key(77),
    );
    assert_eq!(r, Err(Error::Overflow));
    let r = swap_exact_in_ix_full(
        key(99),
        &[],
        SwapExactInIxFullArgs { src_lst_index: 0, dst_lst_index: too_big, min_amount_out: 0, amount: 1 },
        calc,
        &[],
        key(77),
    );
    assert_eq!(r, Err(Error::Overflow));
    assert_eq!(index_to_u32(too_big), Err(Error::Overflow));
    assert_eq!(index_to_u32(u32::MAX as usize), Ok(u32::MAX));
}

#[test]
fn overwriting_a_prefix_leaves_the_tail() {
    let mut data = vec![1u8, 2, 3, 4, 5];
    overwrite_prefix(&mut data, &[9, 8]);
    assert_eq!(data, vec![9, 8, 3, 4, 5]);
    overwrite_prefix(&mut data, &[]);
    assert_eq!(data, vec![9, 8, 3, 4, 5]);
}

#[test]
fn swap_by_mints_uses_the_list_indices() {
    let list = vec![state(1), state(2), state(3)];
    let fixed = vec![meta(1, true)];
    let free_args = SwapByMintsFreeArgs {
        program_id: key(99),
        accounts: &fixed,
        src_lst_mint: key(3),
        dst_lst_mint: key(1),
        lst_state_list: &list,
    };
    let calc = SrcDstLstSolValueCalcAccounts {
        src_lst_calculator_accounts: &[],
        dst_lst_calculator_accounts: &[],
    };
    let amounts = SwapExactInAmounts { min_amount_out: 5, amount: 6 };
    let ix = swap_exact_in_ix_by_mint_full(free_args, amounts, calc, &[], key(77)).unwrap();
    let header = decode_header(&ix.data).unwrap();
    assert_eq!(header.src_lst_index, 2);
    assert_eq!(header.dst_lst_index, 0);
    assert_eq!(header.min_amount_out, 5);
    assert_eq!(header.amount, 6);

    let missing = SwapByMintsFreeArgs { dst_lst_mint: key(4), ..free_args };
    assert_eq!(
        swap_exact_in_ix_by_mint_full(missing, amounts, calc, &[], key(77)),
        Err(Error::NotFound(key(4)))
    );
    assert_eq!(find_lst_index(&list, key(2)), Some(1));
    assert_eq!(find_lst_index(&list, key(5)), None);
}
