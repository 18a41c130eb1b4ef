//! Assembly of the exact-input swap instruction.
//!
//! The payload is a fixed header of 32 bytes, little-endian: the number of
//! accounts of the source calculator, the number of accounts of the
//! destination calculator, the source index, the destination index (32 bits
//! each), the minimum amount out and the amount in (64 bits each). The
//! account list carries the fixed accounts, then the source calculator's,
//! then the destination calculator's, then the pricing program itself and
//! its accounts.
use crate::types::{append_copies, Error, LstState, Pubkey};
use vstd::bytes::{
    lemma_auto_spec_u32_to_from_le_bytes, lemma_auto_spec_u64_to_from_le_bytes,
    spec_u32_from_le_bytes, spec_u32_to_le_bytes, spec_u64_from_le_bytes, spec_u64_to_le_bytes,
    u32_from_le_bytes, u32_to_le_bytes, u64_from_le_bytes, u64_to_le_bytes,
};
use vstd::prelude::*;
use vstd::slice::slice_subrange;

verus! {

/// The length of the fixed header.
pub const HEADER_LEN: usize = 32;

/// A reference to an account, with what the instruction may do to it.
#[derive(Clone, Copy, Debug, PartialEq, Eq, Structural)]
pub struct AccountMeta {
    pub pubkey: Pubkey,
    pub is_signer: bool,
    pub is_writable: bool,
}

/// An instruction ready to be sent.
#[derive(Clone, Debug, PartialEq, Eq)]
pub struct Instruction {
    pub program_id: Pubkey,
    pub accounts: Vec<AccountMeta>,
    pub data: Vec<u8>,
}

/// The header fields, as they stand on the wire.
#[derive(Clone, Copy, Debug, PartialEq, Eq, Structural)]
pub struct SwapExactInIxArgs {
    pub src_lst_value_calc_accs: u32,
    pub dst_lst_value_calc_accs: u32,
    pub src_lst_index: u32,
    pub dst_lst_index: u32,
    pub min_amount_out: u64,
    pub amount: u64,
}

/// The pair of assets by their list indices, and the two amounts.
#[derive(Clone, Copy, Debug)]
pub struct SwapExactInIxFullArgs {
    pub src_lst_index: usize,
    pub dst_lst_index: usize,
    pub min_amount_out: u64,
    pub amount: u64,
}

/// The two amounts of an exact-input swap.
#[derive(Clone, Copy, Debug)]
pub struct SwapExactInAmounts {
    pub min_amount_out: u64,
    pub amount: u64,
}

/// The accounts that the two calculators ask for.
#[derive(Clone, Copy, Debug)]
pub struct SrcDstLstSolValueCalcAccounts<'a> {
    pub src_lst_calculator_accounts: &'a [AccountMeta],
    pub dst_lst_calculator_accounts: &'a [AccountMeta],
}

/// The fixed accounts of a swap, already resolved, and the asset list in which
/// the two assets are looked up.
#[derive(Clone, Copy, Debug)]
pub struct SwapByMintsFreeArgs<'a> {
    pub program_id: Pubkey,
    pub accounts: &'a [AccountMeta],
    pub src_lst_mint: Pubkey,
    pub dst_lst_mint: Pubkey,
    pub lst_state_list: &'a [LstState],
}

/// The 32 bytes of a header.
pub open spec fn encoded(args: SwapExactInIxArgs) -> Seq<u8> {
    spec_u32_to_le_bytes(args.src_lst_value_calc_accs) + spec_u32_to_le_bytes(
        args.dst_lst_value_calc_accs,
    ) + spec_u32_to_le_bytes(args.src_lst_index) + spec_u32_to_le_bytes(args.dst_lst_index)
        + spec_u64_to_le_bytes(args.min_amount_out) + spec_u64_to_le_bytes(args.amount)
}

/// The header that a payload starts with, if it is long enough to hold one.
pub open spec fn decoded(data: Seq<u8>) -> Option<SwapExactInIxArgs> {
    if data.len() < 32 {
        None
    } else {
        Some(
            SwapExactInIxArgs {
                src_lst_value_calc_accs: spec_u32_from_le_bytes(data.subrange(0, 4)),
                dst_lst_value_calc_accs: spec_u32_from_le_bytes(data.subrange(4, 8)),
                src_lst_index: spec_u32_from_le_bytes(data.subrange(8, 12)),
                dst_lst_index: spec_u32_from_le_bytes(data.subrange(12, 16)),
                min_amount_out: spec_u64_from_le_bytes(data.subrange(16, 24)),
                amount: spec_u64_from_le_bytes(data.subrange(24, 32)),
            },
        )
    }
}

/// The account entry that stands for the pricing program itself.
pub open spec fn program_meta(program_id: Pubkey) -> AccountMeta {
    AccountMeta { pubkey: program_id, is_signer: false, is_writable: false }
}

/// The account list of an assembled swap.
pub open spec fn swap_accounts(
    fixed: Seq<AccountMeta>,
    src_calc: Seq<AccountMeta>,
    dst_calc: Seq<AccountMeta>,
    pricing: Seq<AccountMeta>,
    pricing_program_id: Pubkey,
) -> Seq<AccountMeta> {
    fixed + src_calc + dst_calc + seq![program_meta(pricing_program_id)] + pricing
}

/// A header is 32 bytes long, and decoding it gives back its fields.
pub proof fn lemma_decode_encode(args: SwapExactInIxArgs)
    ensures
        encoded(args).len() == 32,
        decoded(encoded(args)) == Some(args),
{
    lemma_auto_spec_u32_to_from_le_bytes();
    lemma_auto_spec_u64_to_from_le_bytes();
    let e = encoded(args);
    assert(e.subrange(0, 4) =~= spec_u32_to_le_bytes(args.src_lst_value_calc_accs));
    assert(e.subrange(4, 8) =~= spec_u32_to_le_bytes(args.dst_lst_value_calc_accs));
    assert(e.subrange(8, 12) =~= spec_u32_to_le_bytes(args.src_lst_index));
    assert(e.subrange(12, 16) =~= spec_u32_to_le_bytes(args.dst_lst_index));
    assert(e.subrange(16, 24) =~= spec_u64_to_le_bytes(args.min_amount_out));
    assert(e.subrange(24, 32) =~= spec_u64_to_le_bytes(args.amount));
}

/// An index or a count as the 32-bit value that the header holds.
pub fn index_to_u32(index: usize) -> (r: Result<u32, Error>)
    ensures
        index <= u32::MAX ==> r == Ok::<u32, Error>(index as u32),
        index > u32::MAX ==> r == Err::<u32, Error>(Error::Overflow),
{
    if index > u32::MAX as usize {
        Err(Error::Overflow)
    } else {
        Ok(index as u32)
    }
}

/// Writes a header out.
pub fn encode_header(args: &SwapExactInIxArgs) -> (r: Vec<u8>)
    ensures
        r@ == encoded(*args),
        r@.len() == 32,
{
    let mut out = u32_to_le_bytes(args.src_lst_value_calc_accs);
    let mut b = u32_to_le_bytes(args.dst_lst_value_calc_accs);
    out.append(&mut b);
    let mut b = u32_to_le_bytes(args.src_lst_index);
    out.append(&mut b);
    let mut b = u32_to_le_bytes(args.dst_lst_index);
    out.append(&mut b);
    let mut b = u64_to_le_bytes(args.min_amount_out);
    out.append(&mut b);
    let mut b = u64_to_le_bytes(args.amount);
    out.append(&mut b);
    proof {
        lemma_auto_spec_u32_to_from_le_bytes();
        lemma_auto_spec_u64_to_from_le_bytes();
    }
    out
}

/// Reads the header that a payload starts with.
pub fn decode_header(data: &[u8]) -> (r: Option<SwapExactInIxArgs>)
    ensures
        r == decoded(data@),
{
    if data.len() < HEADER_LEN {
        return None;
    }
    Some(
        SwapExactInIxArgs {
            src_lst_value_calc_accs: u32_from_le_bytes(slice_subrange(data, 0, 4)),
            dst_lst_value_calc_accs: u32_from_le_bytes(slice_subrange(data, 4, 8)),
            src_lst_index: u32_from_le_bytes(slice_subrange(data, 8, 12)),
            dst_lst_index: u32_from_le_bytes(slice_subrange(data, 12, 16)),
            min_amount_out: u64_from_le_bytes(slice_subrange(data, 16, 24)),
            amount: u64_from_le_bytes(slice_subrange(data, 24, 32)),
        },
    )
}

/// Overwrites the start of `data` with `prefix` and leaves the rest alone.
pub fn overwrite_prefix(data: &mut Vec<u8>, prefix: &[u8])
    requires
        prefix@.len() <= old(data)@.len(),
    ensures
        final(data)@ == prefix@ + old(data)@.skip(prefix@.len() as int),
{
    let mut i: usize = 0;
    while i < prefix.len()
        invariant
            0 <= i <= prefix@.len(),
            prefix@.len() <= data@.len(),
            data@.len() == old(data)@.len(),
            forall|k: int| 0 <= k < i ==> data@[k] == prefix@[k],
            forall|k: int| i <= k < data@.len() ==> data@[k] == old(data)@[k],
        decreases prefix@.len() - i,
    {
        data.set(i, prefix[i]);
        i += 1;
    }
    assert(data@ =~= prefix@ + old(data)@.skip(prefix@.len() as int));
}

/// What an assembled swap holds, for indices and counts that fit 32 bits.
pub open spec fn assembled(
    program_id: Pubkey,
    fixed: Seq<AccountMeta>,
    args: SwapExactInIxFullArgs,
    src_calc: Seq<AccountMeta>,
    dst_calc: Seq<AccountMeta>,
    pricing: Seq<AccountMeta>,
    pricing_program_id: Pubkey,
    ix: Instruction,
) -> bool {
    &&& ix.program_id == program_id
    &&& ix.accounts@ == swap_accounts(fixed, src_calc, dst_calc, pricing, pricing_program_id)
    &&& ix.data@ == encoded(
        SwapExactInIxArgs {
            src_lst_value_calc_accs: src_calc.len() as u32,
            dst_lst_value_calc_accs: dst_calc.len() as u32,
            src_lst_index: args.src_lst_index as u32,
            dst_lst_index: args.dst_lst_index as u32,
            min_amount_out: args.min_amount_out,
            amount: args.amount,
        },
    )
}

/// The inputs that cannot be encoded: an index or a count beyond 32 bits.
pub open spec fn overflows(
    args: SwapExactInIxFullArgs,
    src_calc: Seq<AccountMeta>,
    dst_calc: Seq<AccountMeta>,
) -> bool {
    ||| args.src_lst_index > u32::MAX
    ||| args.dst_lst_index > u32::MAX
    ||| src_calc.len() > u32::MAX
    ||| dst_calc.len() > u32::MAX
}

/// The two counts in the header of an assembled swap are the numbers of
/// accounts of the two calculators, and the account list holds, after the
/// fixed accounts, exactly those accounts, then the pricing program and its
/// accounts.
pub proof fn lemma_header_counts(
    program_id: Pubkey,
    fixed: Seq<AccountMeta>,
    args: SwapExactInIxFullArgs,
    src_calc: Seq<AccountMeta>,
    dst_calc: Seq<AccountMeta>,
    pricing: Seq<AccountMeta>,
    pricing_program_id: Pubkey,
    ix: Instruction,
)
    requires
        !overflows(args, src_calc, dst_calc),
        assembled(program_id, fixed, args, src_calc, dst_calc, pricing, pricing_program_id, ix),
    ensures
        decoded(ix.data@) is Some,
        decoded(ix.data@)->Some_0.src_lst_value_calc_accs == src_calc.len(),
        decoded(ix.data@)->Some_0.dst_lst_value_calc_accs == dst_calc.len(),
        decoded(ix.data@)->Some_0.src_lst_index == args.src_lst_index,
        decoded(ix.data@)->Some_0.dst_lst_index == args.dst_lst_index,
        ({
            let a = fixed.len() as int;
            let b = a + src_calc.len();
            let c = b + dst_calc.len();
            &&& ix.accounts@.len() == c + 1 + pricing.len()
            &&& ix.accounts@.subrange(a, b) == src_calc
            &&& ix.accounts@.subrange(b, c) == dst_calc
            &&& ix.accounts@[c] == program_meta(pricing_program_id)
            &&& ix.accounts@.skip(c + 1) == pricing
        }),
{
    lemma_decode_encode(
        SwapExactInIxArgs {
            src_lst_value_calc_accs: src_calc.len() as u32,
            dst_lst_value_calc_accs: dst_calc.len() as u32,
            src_lst_index: args.src_lst_index as u32,
            dst_lst_index: args.dst_lst_index as u32,
            min_amount_out: args.min_amount_out,
            amount: args.amount,
        },
    );
    let a = fixed.len() as int;
    let b = a + src_calc.len();
    let c = b + dst_calc.len();
    assert(ix.accounts@.subrange(a, b) =~= src_calc);
    assert(ix.accounts@.subrange(b, c) =~= dst_calc);
    assert(ix.accounts@.skip(c + 1) =~= pricing);
}

/// Assembles the swap instruction for a pair of asset indices.
///
/// The header is first written with both counts at zero, the variable
/// accounts are appended, and the header is then written again over the
/// first with the counts that are now known. An index beyond 32 bits is
/// refused before anything is encoded.
pub fn swap_exact_in_ix_full(
    program_id: Pubkey,
    accounts: &[AccountMeta],
    args: SwapExactInIxFullArgs,
    sol_val_calc_accounts: SrcDstLstSolValueCalcAccounts,
    pricing_program_accounts: &[AccountMeta],
    pricing_program_id: Pubkey,
) -> (r: Result<Instruction, Error>)
    ensures
        overflows(
            args,
            sol_val_calc_accounts.src_lst_calculator_accounts@,
            sol_val_calc_accounts.dst_lst_calculator_accounts@,
        ) ==> r == Err::<Instruction, Error>(Error::Overflow),
        !overflows(
            args,
            sol_val_calc_accounts.src_lst_calculator_accounts@,
            sol_val_calc_accounts.dst_lst_calculator_accounts@,
        ) ==> r is Ok && assembled(
            program_id,
            accounts@,
            args,
            sol_val_calc_accounts.src_lst_calculator_accounts@,
            sol_val_calc_accounts.dst_lst_calculator_accounts@,
            pricing_program_accounts@,
            pricing_program_id,
            r->Ok_0,
        ),
        r matches Ok(ix) ==> ix.data@.len() == 32,
        r matches Ok(ix) ==> decoded(ix.data@) matches Some(h)
            && h.src_lst_value_calc_accs == sol_val_calc_accounts.src_lst_calculator_accounts@.len()
            && h.dst_lst_value_calc_accs == sol_val_calc_accounts.dst_lst_calculator_accounts@.len()
            && ix.accounts@.len() == accounts@.len() + h.src_lst_value_calc_accs
            + h.dst_lst_value_calc_accs + 1 + pricing_program_accounts@.len(),
{
    let src_lst_index = match index_to_u32(args.src_lst_index) {
        Ok(v) => v,
        Err(e) => {
            return Err(e);
        },
    };
    let dst_lst_index = match index_to_u32(args.dst_lst_index) {
        Ok(v) => v,
        Err(e) => {
            return Err(e);
        },
    };
    let mut ix = Instruction {
        program_id,
        accounts: Vec::new(),
        data: encode_header(
            &SwapExactInIxArgs {
                src_lst_value_calc_accs: 0,
                dst_lst_value_calc_accs: 0,
                src_lst_index,
                dst_lst_index,
                min_amount_out: args.min_amount_out,
                amount: args.amount,
            },
        ),
    };
    let mut metas: Vec<AccountMeta> = Vec::new();
    append_copies(&mut metas, accounts);
    append_copies(&mut metas, sol_val_calc_accounts.src_lst_calculator_accounts);
    append_copies(&mut metas, sol_val_calc_accounts.dst_lst_calculator_accounts);
    let src_lst_value_calc_accs = match index_to_u32(
        sol_val_calc_accounts.src_lst_calculator_accounts.len(),
    ) {
        Ok(v) => v,
        Err(e) => {
            return Err(e);
        },
    };
    let dst_lst_value_calc_accs = match index_to_u32(
        sol_val_calc_accounts.dst_lst_calculator_accounts.len(),
    ) {
        Ok(v) => v,
        Err(e) => {
            return Err(e);
        },
    };
    metas.push(AccountMeta { pubkey: pricing_program_id, is_signer: false, is_writable: false });
    append_copies(&mut metas, pricing_program_accounts);
    ix.accounts = metas;
    let header = SwapExactInIxArgs {
        src_lst_value_calc_accs,
        dst_lst_value_calc_accs,
        src_lst_index,
        dst_lst_index,
        min_amount_out: args.min_amount_out,
        amount: args.amount,
    };
    let bytes = encode_header(&header);
    let mut data = ix.data;
    overwrite_prefix(&mut data, bytes.as_slice());
    ix.data = data;
    proof {
        lemma_decode_encode(header);
        assert(ix.data@ =~= encoded(header));
        assert(ix.accounts@ =~= swap_accounts(
            accounts@,
            sol_val_calc_accounts.src_lst_calculator_accounts@,
            sol_val_calc_accounts.dst_lst_calculator_accounts@,
            pricing_program_accounts@,
            pricing_program_id,
        ));
    }
    Ok(ix)
}

/// The index of the first asset of the list with the given mint.
pub open spec fn index_of_mint(list: Seq<LstState>, mint: Pubkey, from: int) -> Option<int>
    decreases list.len() - from,
{
    if from < 0 || from >= list.len() {
        None
    } else if list[from].mint == mint {
        Some(from)
    } else {
        index_of_mint(list, mint, from + 1)
    }
}

/// Looks an asset up by its mint.
pub fn find_lst_index(list: &[LstState], mint: Pubkey) -> (r: Option<usize>)
    ensures
        r is Some == index_of_mint(list@, mint, 0) is Some,
        r matches Some(i) ==> index_of_mint(list@, mint, 0) == Some(i as int) && i < list@.len()
            && list@[i as int].mint == mint,
        r is None ==> forall|k: int| 0 <= k < list@.len() ==> list@[k].mint != mint,
{
    let mut i: usize = 0;
    while i < list.len()
        invariant
            0 <= i <= list@.len(),
            index_of_mint(list@, mint, 0) == index_of_mint(list@, mint, i as int),
            forall|k: int| 0 <= k < i ==> list@[k].mint != mint,
        decreases list@.len() - i,
    {
        if list[i].mint == mint {
            return Some(i);
        }
        i += 1;
    }
    None
}

/// The index arguments of a swap between two listed assets.
pub open spec fn args_at(src: int, dst: int, amounts: SwapExactInAmounts) -> SwapExactInIxFullArgs {
    SwapExactInIxFullArgs {
        src_lst_index: src as usize,
        dst_lst_index: dst as usize,
        min_amount_out: amounts.min_amount_out,
        amount: amounts.amount,
    }
}

/// Assembles the swap instruction for a pair of assets given by their mints.
///
/// Fails with `NotFound` and the mint that is not on the list, the source
/// being looked up first; otherwise
/// the result is that of the assembly by the indices at which the two stand.
pub fn swap_exact_in_ix_by_mint_full(
    free_args: SwapByMintsFreeArgs,
    amounts: SwapExactInAmounts,
    sol_val_calc_accounts: SrcDstLstSolValueCalcAccounts,
    pricing_program_accounts: &[AccountMeta],
    pricing_program_id: Pubkey,
) -> (r: Result<Instruction, Error>)
    ensures
        match (
            index_of_mint(free_args.lst_state_list@, free_args.src_lst_mint, 0),
            index_of_mint(free_args.lst_state_list@, free_args.dst_lst_mint, 0),
        ) {
            (Some(s), Some(d)) => if overflows(
                args_at(s, d, amounts),
                sol_val_calc_accounts.src_lst_calculator_accounts@,
                sol_val_calc_accounts.dst_lst_calculator_accounts@,
            ) {
                r == Err::<Instruction, Error>(Error::Overflow)
            } else {
                r is Ok && assembled(
                    free_args.program_id,
                    free_args.accounts@,
                    args_at(s, d, amounts),
                    sol_val_calc_accounts.src_lst_calculator_accounts@,
                    sol_val_calc_accounts.dst_lst_calculator_accounts@,
                    pricing_program_accounts@,
                    pricing_program_id,
                    r->Ok_0,
                )
            },
            (None, _) => r == Err::<Instruction, Error>(Error::NotFound(free_args.src_lst_mint)),
            (Some(_), None) => r == Err::<Instruction, Error>(
                Error::NotFound(free_args.dst_lst_mint),
            ),
        },
{
    let src_lst_index = match find_lst_index(free_args.lst_state_list, free_args.src_lst_mint) {
        Some(i) => i,
        None => {
            return Err(Error::NotFound(free_args.src_lst_mint));
        },
    };
    let dst_lst_index = match find_lst_index(free_args.lst_state_list, free_args.dst_lst_mint) {
        Some(i) => i,
        None => {
            return Err(Error::NotFound(free_args.dst_lst_mint));
        },
    };
    swap_exact_in_ix_full(
        free_args.program_id,
        free_args.accounts,
        SwapExactInIxFullArgs {
            src_lst_index,
            dst_lst_index,
            min_amount_out: amounts.min_amount_out,
            amount: amounts.amount,
        },
        sol_val_calc_accounts,
        pricing_program_accounts,
        pricing_program_id,
    )
}

} // verus!
