//! What an instruction asks for, as the program that it is for reads it.
//!
//! The readers go by the position of the bytes alone. Each builder is shown to
//! write what its reader reads.

use vstd::prelude::*;
use vstd::utf8::encode_utf8;

use crate::instruction::{le_bytes, le_number, MetaView};
use crate::key::zero_key;
use crate::metadata::{initialize_metadata_ix, storable};
use crate::plan::CpiView;
use crate::system::{allocate_ix, assign_ix, create_account_ix, transfer_ix};
use crate::token::{
    apply_pending_balance_ix, approve_ix, confidential_transfer_fee_ix,
    confidential_transfer_mint_ix, default_account_state_ix, deposit_ix, initialize_mint2_ix,
    metadata_pointer_ix, mint_close_authority_ix, permanent_delegate_ix, state_code,
    thaw_account_ix, transfer_checked_ix, transfer_checked_with_fee_ix, transfer_fee_config_ix,
    AccountState,
};

verus! {

/// What a token program is asked for.
pub enum TokenRequest {
    CloseAuthority { authority: Option<Seq<u8>> },
    PermanentDelegate { delegate: Seq<u8> },
    TransferFee {
        config_authority: Option<Seq<u8>>,
        withdraw_authority: Option<Seq<u8>>,
        basis_points: nat,
        maximum_fee: nat,
    },
    MetadataPointer { authority: Option<Seq<u8>>, address: Option<Seq<u8>> },
    DefaultState { state: u8 },
    ConfidentialTransfers {
        authority: Option<Seq<u8>>,
        auto_approve: bool,
        auditor: Option<Seq<u8>>,
    },
    ConfidentialFees { authority: Option<Seq<u8>>, elgamal: Seq<u8> },
    Seal { decimals: u8, mint_authority: Seq<u8>, freeze_authority: Option<Seq<u8>> },
    Thaw,
    Approve { amount: nat },
    Transfer { amount: nat, decimals: u8 },
    TransferWithFee { amount: nat, decimals: u8, fee: nat },
    Deposit { amount: nat, decimals: u8 },
    ApplyPending { counter: nat, balance: Seq<u8> },
    Metadata { name: Seq<u8>, symbol: Seq<u8>, uri: Seq<u8> },
}

/// What the system program is asked for.
pub enum SystemRequest {
    CreateAccount { lamports: nat, space: nat, owner: Seq<u8> },
    Assign { owner: Seq<u8> },
    Transfer { lamports: nat },
    Allocate { space: nat },
}

/// The number in the `width` bytes at `at`.
pub open spec fn number_at(data: Seq<u8>, at: int, width: int) -> nat {
    le_number(data.subrange(at, at + width))
}

/// The address at `at`.
pub open spec fn key_at(data: Seq<u8>, at: int) -> Seq<u8> {
    data.subrange(at, at + 32)
}

/// The optional address at `at` where all zeroes stand for "none".
pub open spec fn nonzero_key_at(data: Seq<u8>, at: int) -> Option<Seq<u8>> {
    if key_at(data, at) == zero_key() {
        None
    } else {
        Some(key_at(data, at))
    }
}

/// Where an optional address behind a tag at `at` ends.
pub open spec fn tagged_end(data: Seq<u8>, at: int) -> int {
    if data[at] == 0 {
        at + 1
    } else {
        at + 33
    }
}

/// The optional address behind a tag at `at`.
pub open spec fn tagged_key_at(data: Seq<u8>, at: int) -> Option<Seq<u8>> {
    if data[at] == 0 {
        None
    } else {
        Some(key_at(data, at + 1))
    }
}

/// Where a text behind its length at `at` ends.
pub open spec fn text_end(data: Seq<u8>, at: int) -> int {
    at + 4 + number_at(data, at, 4)
}

/// The bytes of the text behind its length at `at`.
pub open spec fn text_at(data: Seq<u8>, at: int) -> Seq<u8> {
    data.subrange(at + 4, text_end(data, at))
}

/// What a token program reads in the data of an instruction.
#[verifier::opaque]
pub open spec fn token_request(data: Seq<u8>) -> Option<TokenRequest> {
    let len = data.len();
    if len >= 2 && data[0] == 25 && tagged_end(data, 1) == len {
        Some(TokenRequest::CloseAuthority { authority: tagged_key_at(data, 1) })
    } else if len == 33 && data[0] == 35 {
        Some(TokenRequest::PermanentDelegate { delegate: key_at(data, 1) })
    } else if len >= 14 && data[0] == 26 && data[1] == 0 && tagged_end(data, 2) < len
        && tagged_end(data, tagged_end(data, 2)) + 10 == len {
        let second = tagged_end(data, 2);
        Some(
            TokenRequest::TransferFee {
                config_authority: tagged_key_at(data, 2),
                withdraw_authority: tagged_key_at(data, second),
                basis_points: number_at(data, len - 10, 2),
                maximum_fee: number_at(data, len - 8, 8),
            },
        )
    } else if len == 66 && data[0] == 39 && data[1] == 0 {
        Some(
            TokenRequest::MetadataPointer {
                authority: nonzero_key_at(data, 2),
                address: nonzero_key_at(data, 34),
            },
        )
    } else if len == 3 && data[0] == 28 && data[1] == 0 {
        Some(TokenRequest::DefaultState { state: data[2] })
    } else if len == 67 && data[0] == 27 && data[1] == 0 && data[34] <= 1 {
        Some(
            TokenRequest::ConfidentialTransfers {
                authority: nonzero_key_at(data, 2),
                auto_approve: data[34] == 1,
                auditor: nonzero_key_at(data, 35),
            },
        )
    } else if len == 66 && data[0] == 37 && data[1] == 0 {
        Some(
            TokenRequest::ConfidentialFees {
                authority: nonzero_key_at(data, 2),
                elgamal: key_at(data, 34),
            },
        )
    } else if len >= 35 && data[0] == 20 && tagged_end(data, 34) == len {
        Some(
            TokenRequest::Seal {
                decimals: data[1],
                mint_authority: key_at(data, 2),
                freeze_authority: tagged_key_at(data, 34),
            },
        )
    } else if len == 1 && data[0] == 11 {
        Some(TokenRequest::Thaw)
    } else if len == 9 && data[0] == 4 {
        Some(TokenRequest::Approve { amount: number_at(data, 1, 8) })
    } else if len == 10 && data[0] == 12 {
        Some(TokenRequest::Transfer { amount: number_at(data, 1, 8), decimals: data[9] })
    } else if len == 19 && data[0] == 26 && data[1] == 1 {
        Some(
            TokenRequest::TransferWithFee {
                amount: number_at(data, 2, 8),
                decimals: data[10],
                fee: number_at(data, 11, 8),
            },
        )
    } else if len == 11 && data[0] == 27 && data[1] == 5 {
        Some(TokenRequest::Deposit { amount: number_at(data, 2, 8), decimals: data[10] })
    } else if len == 46 && data[0] == 27 && data[1] == 8 {
        Some(
            TokenRequest::ApplyPending {
                counter: number_at(data, 2, 8),
                balance: data.subrange(10, 46),
            },
        )
    } else if len >= 20 && data.subrange(0, 8) == seq![210u8, 225, 30, 162, 88, 184, 77, 141]
        && text_end(data, text_end(data, text_end(data, 8))) == len {
        Some(
            TokenRequest::Metadata {
                name: text_at(data, 8),
                symbol: text_at(data, text_end(data, 8)),
                uri: text_at(data, text_end(data, text_end(data, 8))),
            },
        )
    } else {
        None
    }
}

/// What the system program reads in the data of an instruction.
#[verifier::opaque]
pub open spec fn system_request(data: Seq<u8>) -> Option<SystemRequest> {
    let len = data.len();
    if len == 52 && number_at(data, 0, 4) == 0 {
        Some(
            SystemRequest::CreateAccount {
                lamports: number_at(data, 4, 8),
                space: number_at(data, 12, 8),
                owner: key_at(data, 20),
            },
        )
    } else if len == 36 && number_at(data, 0, 4) == 1 {
        Some(SystemRequest::Assign { owner: key_at(data, 4) })
    } else if len == 12 && number_at(data, 0, 4) == 2 {
        Some(SystemRequest::Transfer { lamports: number_at(data, 4, 8) })
    } else if len == 12 && number_at(data, 0, 4) == 8 {
        Some(SystemRequest::Allocate { space: number_at(data, 4, 8) })
    } else {
        None
    }
}

/// Whether a call asks a token program for something, naming the given accounts and
/// handing the given ones along.
pub open spec fn asks(
    call: CpiView,
    program: Seq<u8>,
    accounts: Seq<MetaView>,
    along: Seq<Seq<u8>>,
    request: TokenRequest,
) -> bool {
    &&& call.instruction.program_id == program
    &&& call.instruction.accounts == accounts
    &&& call.accounts == along
    &&& token_request(call.instruction.data) == Some(request)
}

/// Whether a call asks the system program for something, naming the given accounts
/// and handing the given ones along.
pub open spec fn asks_system(
    call: CpiView,
    accounts: Seq<MetaView>,
    along: Seq<Seq<u8>>,
    request: SystemRequest,
) -> bool {
    &&& call.instruction.program_id == zero_key()
    &&& call.instruction.accounts == accounts
    &&& call.accounts == along
    &&& system_request(call.instruction.data) == Some(request)
}

/// How many numbers fit `width` bytes.
pub open spec fn numbers_in(width: nat) -> nat
    decreases width,
{
    if width == 0 {
        1
    } else {
        256 * numbers_in((width - 1) as nat)
    }
}

/// A number that fits is read back from its bytes.
pub proof fn number_is_read_back(x: nat, width: nat)
    requires
        x < numbers_in(width),
    ensures
        le_bytes(x, width).len() == width,
        le_number(le_bytes(x, width)) == x,
    decreases width,
{
    if width > 0 {
        let rest = le_bytes(x / 256, (width - 1) as nat);
        number_is_read_back(x / 256, (width - 1) as nat);
        assert(le_bytes(x, width).skip(1) =~= rest);
    }
}

proof fn integers_are_read_back(short: u16, long: u64)
    ensures
        le_bytes(short as nat, 2).len() == 2,
        le_number(le_bytes(short as nat, 2)) == short,
        le_bytes(long as nat, 8).len() == 8,
        le_number(le_bytes(long as nat, 8)) == long,
{
    reveal_with_fuel(numbers_in, 9);
    number_is_read_back(short as nat, 2);
    number_is_read_back(long as nat, 8);
}

/// What names the close authority of a mint is read as such.
pub proof fn close_authority_is_read(program: Seq<u8>, mint: Seq<u8>, authority: Seq<u8>)
    requires
        authority.len() == 32,
        mint_close_authority_ix(program, mint, Some(authority)) is Ok,
    ensures
        token_request(mint_close_authority_ix(program, mint, Some(authority))->Ok_0.data) == Some(
            TokenRequest::CloseAuthority { authority: Some(authority) },
        ),
{
    reveal(token_request);
    let data = mint_close_authority_ix(program, mint, Some(authority))->Ok_0.data;
    assert(key_at(data, 2) =~= authority);
}

/// What names the permanent delegate of a mint is read as such.
pub proof fn permanent_delegate_is_read(program: Seq<u8>, mint: Seq<u8>, delegate: Seq<u8>)
    requires
        delegate.len() == 32,
        permanent_delegate_ix(program, mint, delegate) is Ok,
    ensures
        token_request(permanent_delegate_ix(program, mint, delegate)->Ok_0.data) == Some(
            TokenRequest::PermanentDelegate { delegate },
        ),
{
    reveal(token_request);
    let data = permanent_delegate_ix(program, mint, delegate)->Ok_0.data;
    assert(key_at(data, 1) =~= delegate);
}

/// What sets the transfer fee of a mint is read as such.
pub proof fn transfer_fee_is_read(
    program: Seq<u8>,
    mint: Seq<u8>,
    config_authority: Seq<u8>,
    withdraw_authority: Seq<u8>,
    basis_points: u16,
    maximum_fee: u64,
)
    requires
        config_authority.len() == 32,
        withdraw_authority.len() == 32,
        transfer_fee_config_ix(
            program,
            mint,
            Some(config_authority),
            Some(withdraw_authority),
            basis_points,
            maximum_fee,
        ) is Ok,
    ensures
        token_request(
            transfer_fee_config_ix(
                program,
                mint,
                Some(config_authority),
                Some(withdraw_authority),
                basis_points,
                maximum_fee,
            )->Ok_0.data,
        ) == Some(
            TokenRequest::TransferFee {
                config_authority: Some(config_authority),
                withdraw_authority: Some(withdraw_authority),
                basis_points: basis_points as nat,
                maximum_fee: maximum_fee as nat,
            },
        ),
{
    reveal(token_request);
    let data = transfer_fee_config_ix(
        program,
        mint,
        Some(config_authority),
        Some(withdraw_authority),
        basis_points,
        maximum_fee,
    )->Ok_0.data;
    integers_are_read_back(basis_points, maximum_fee);
    assert(data.len() == 78);
    assert(key_at(data, 3) =~= config_authority);
    assert(key_at(data, 36) =~= withdraw_authority);
    assert(data.subrange(68, 70) =~= le_bytes(basis_points as nat, 2));
    assert(data.subrange(70, 78) =~= le_bytes(maximum_fee as nat, 8));
}

/// What says where the metadata of a mint is is read as such.
pub proof fn metadata_pointer_is_read(
    program: Seq<u8>,
    mint: Seq<u8>,
    authority: Seq<u8>,
    address: Seq<u8>,
)
    requires
        authority.len() == 32,
        address.len() == 32,
        metadata_pointer_ix(program, mint, Some(authority), Some(address)) is Ok,
    ensures
        token_request(
            metadata_pointer_ix(program, mint, Some(authority), Some(address))->Ok_0.data,
        ) == Some(
            TokenRequest::MetadataPointer { authority: Some(authority), address: Some(address) },
        ),
{
    reveal(token_request);
    let data = metadata_pointer_ix(program, mint, Some(authority), Some(address))->Ok_0.data;
    assert(key_at(data, 2) =~= authority);
    assert(key_at(data, 34) =~= address);
    let keys = seq![Some(authority), Some(address)];
    assert(keys[0] == Some(authority) && keys[1] == Some(address));
}

/// What sets the state of new token accounts is read as such.
pub proof fn default_state_is_read(program: Seq<u8>, mint: Seq<u8>, state: AccountState)
    requires
        default_account_state_ix(program, mint, state) is Ok,
    ensures
        token_request(default_account_state_ix(program, mint, state)->Ok_0.data) == Some(
            TokenRequest::DefaultState { state: state_code(state) },
        ),
{
    reveal(token_request);
}

/// What sets up the confidential transfers of a mint without an auditor is read
/// as such.
pub proof fn confidential_transfers_are_read(
    program: Seq<u8>,
    mint: Seq<u8>,
    authority: Seq<u8>,
    auto_approve: bool,
)
    requires
        authority.len() == 32,
        confidential_transfer_mint_ix(program, mint, Some(authority), auto_approve, None) is Ok,
    ensures
        token_request(
            confidential_transfer_mint_ix(
                program,
                mint,
                Some(authority),
                auto_approve,
                None,
            )->Ok_0.data,
        ) == Some(
            TokenRequest::ConfidentialTransfers {
                authority: Some(authority),
                auto_approve,
                auditor: None,
            },
        ),
{
    reveal(token_request);
    let data = confidential_transfer_mint_ix(
        program,
        mint,
        Some(authority),
        auto_approve,
        None,
    )->Ok_0.data;
    assert(key_at(data, 2) =~= authority);
    assert(key_at(data, 35) =~= zero_key());
    let keys = seq![Some(authority), None::<Seq<u8>>];
    assert(keys[0] == Some(authority));
}

/// What sets up the confidential fees of a mint is read as such.
pub proof fn confidential_fees_are_read(
    program: Seq<u8>,
    mint: Seq<u8>,
    authority: Seq<u8>,
    elgamal: Seq<u8>,
)
    requires
        authority.len() == 32,
        elgamal.len() == 32,
        confidential_transfer_fee_ix(program, mint, Some(authority), elgamal) is Ok,
    ensures
        token_request(
            confidential_transfer_fee_ix(program, mint, Some(authority), elgamal)->Ok_0.data,
        ) == Some(TokenRequest::ConfidentialFees { authority: Some(authority), elgamal }),
{
    reveal(token_request);
    let data = confidential_transfer_fee_ix(program, mint, Some(authority), elgamal)->Ok_0.data;
    assert(key_at(data, 2) =~= authority);
    assert(key_at(data, 34) =~= elgamal);
    let keys = seq![Some(authority)];
    assert(keys[0] == Some(authority));
}

/// What seals a mint is read as such.
pub proof fn seal_is_read(
    program: Seq<u8>,
    mint: Seq<u8>,
    authority: Seq<u8>,
    freeze_authority: Option<Seq<u8>>,
    decimals: u8,
)
    requires
        authority.len() == 32,
        freeze_authority is Some ==> freeze_authority->Some_0.len() == 32,
        initialize_mint2_ix(program, mint, authority, freeze_authority, decimals) is Ok,
    ensures
        token_request(
            initialize_mint2_ix(program, mint, authority, freeze_authority, decimals)->Ok_0.data,
        ) == Some(TokenRequest::Seal { decimals, mint_authority: authority, freeze_authority }),
{
    reveal(token_request);
    let data = initialize_mint2_ix(
        program,
        mint,
        authority,
        freeze_authority,
        decimals,
    )->Ok_0.data;
    assert(key_at(data, 2) =~= authority);
    if let Some(freeze) = freeze_authority {
        assert(key_at(data, 35) =~= freeze);
    }
}

/// What thaws an account is read as such.
pub proof fn thaw_is_read(program: Seq<u8>, account: Seq<u8>, mint: Seq<u8>, authority: Seq<u8>)
    requires
        thaw_account_ix(program, account, mint, authority) is Ok,
    ensures
        token_request(thaw_account_ix(program, account, mint, authority)->Ok_0.data) == Some(
            TokenRequest::Thaw,
        ),
{
    reveal(token_request);
}

/// What approves a delegate is read as such.
pub proof fn approval_is_read(
    program: Seq<u8>,
    source: Seq<u8>,
    delegate: Seq<u8>,
    owner: Seq<u8>,
    amount: u64,
)
    requires
        approve_ix(program, source, delegate, owner, amount) is Ok,
    ensures
        token_request(approve_ix(program, source, delegate, owner, amount)->Ok_0.data) == Some(
            TokenRequest::Approve { amount: amount as nat },
        ),
{
    reveal(token_request);
    let data = approve_ix(program, source, delegate, owner, amount)->Ok_0.data;
    integers_are_read_back(0, amount);
    assert(data.subrange(1, 9) =~= le_bytes(amount as nat, 8));
}

/// What transfers tokens without a fee is read as such.
pub proof fn transfer_is_read(
    program: Seq<u8>,
    source: Seq<u8>,
    mint: Seq<u8>,
    destination: Seq<u8>,
    authority: Seq<u8>,
    amount: u64,
    decimals: u8,
)
    requires
        transfer_checked_ix(
            program,
            source,
            mint,
            destination,
            authority,
            amount,
            decimals,
        ) is Ok,
    ensures
        token_request(
            transfer_checked_ix(
                program,
                source,
                mint,
                destination,
                authority,
                amount,
                decimals,
            )->Ok_0.data,
        ) == Some(TokenRequest::Transfer { amount: amount as nat, decimals }),
{
    reveal(token_request);
    let data = transfer_checked_ix(
        program,
        source,
        mint,
        destination,
        authority,
        amount,
        decimals,
    )->Ok_0.data;
    integers_are_read_back(0, amount);
    assert(data.subrange(1, 9) =~= le_bytes(amount as nat, 8));
}

/// What transfers tokens and pays a fee is read as such.
pub proof fn transfer_with_fee_is_read(
    program: Seq<u8>,
    source: Seq<u8>,
    mint: Seq<u8>,
    destination: Seq<u8>,
    authority: Seq<u8>,
    amount: u64,
    decimals: u8,
    fee: u64,
)
    requires
        transfer_checked_with_fee_ix(
            program,
            source,
            mint,
            destination,
            authority,
            amount,
            decimals,
            fee,
        ) is Ok,
    ensures
        token_request(
            transfer_checked_with_fee_ix(
                program,
                source,
                mint,
                destination,
                authority,
                amount,
                decimals,
                fee,
            )->Ok_0.data,
        ) == Some(
            TokenRequest::TransferWithFee { amount: amount as nat, decimals, fee: fee as nat },
        ),
        number_at(
            transfer_checked_with_fee_ix(
                program,
                source,
                mint,
                destination,
                authority,
                amount,
                decimals,
                fee,
            )->Ok_0.data,
            11,
            8,
        ) == fee,
{
    reveal(token_request);
    let data = transfer_checked_with_fee_ix(
        program,
        source,
        mint,
        destination,
        authority,
        amount,
        decimals,
        fee,
    )->Ok_0.data;
    integers_are_read_back(0, amount);
    integers_are_read_back(0, fee);
    assert(data.subrange(2, 10) =~= le_bytes(amount as nat, 8));
    assert(data.subrange(11, 19) =~= le_bytes(fee as nat, 8));
}

/// What deposits tokens is read as such.
pub proof fn deposit_is_read(
    program: Seq<u8>,
    account: Seq<u8>,
    mint: Seq<u8>,
    amount: u64,
    decimals: u8,
    authority: Seq<u8>,
)
    requires
        deposit_ix(program, account, mint, amount, decimals, authority) is Ok,
    ensures
        token_request(
            deposit_ix(program, account, mint, amount, decimals, authority)->Ok_0.data,
        ) == Some(TokenRequest::Deposit { amount: amount as nat, decimals }),
{
    reveal(token_request);
    let data = deposit_ix(program, account, mint, amount, decimals, authority)->Ok_0.data;
    integers_are_read_back(0, amount);
    assert(data.subrange(2, 10) =~= le_bytes(amount as nat, 8));
}

/// What applies a pending balance is read as such.
pub proof fn application_is_read(
    program: Seq<u8>,
    account: Seq<u8>,
    counter: u64,
    balance: Seq<u8>,
    authority: Seq<u8>,
)
    requires
        balance.len() == 36,
        apply_pending_balance_ix(program, account, counter, balance, authority) is Ok,
    ensures
        token_request(
            apply_pending_balance_ix(program, account, counter, balance, authority)->Ok_0.data,
        ) == Some(TokenRequest::ApplyPending { counter: counter as nat, balance }),
{
    reveal(token_request);
    let data = apply_pending_balance_ix(program, account, counter, balance, authority)->Ok_0.data;
    integers_are_read_back(0, counter);
    assert(data.subrange(2, 10) =~= le_bytes(counter as nat, 8));
    assert(data.subrange(10, 46) =~= balance);
}

/// What writes metadata into a mint is read as such.
pub proof fn metadata_is_read(
    program: Seq<u8>,
    metadata: Seq<u8>,
    update_authority: Seq<u8>,
    mint: Seq<u8>,
    mint_authority: Seq<u8>,
    name: Seq<char>,
    symbol: Seq<char>,
    uri: Seq<char>,
)
    requires
        storable(name),
        storable(symbol),
        storable(uri),
    ensures
        token_request(
            initialize_metadata_ix(
                program,
                metadata,
                update_authority,
                mint,
                mint_authority,
                name,
                symbol,
                uri,
            ).data,
        ) == Some(
            TokenRequest::Metadata {
                name: encode_utf8(name),
                symbol: encode_utf8(symbol),
                uri: encode_utf8(uri),
            },
        ),
{
    reveal(token_request);
    let data = initialize_metadata_ix(
        program,
        metadata,
        update_authority,
        mint,
        mint_authority,
        name,
        symbol,
        uri,
    ).data;
    reveal_with_fuel(numbers_in, 5);
    let name_len = encode_utf8(name).len();
    let symbol_len = encode_utf8(symbol).len();
    let uri_len = encode_utf8(uri).len();
    number_is_read_back(name_len, 4);
    number_is_read_back(symbol_len, 4);
    number_is_read_back(uri_len, 4);
    let second: int = 12 + name_len as int;
    let third: int = second + 4 + symbol_len as int;
    let end: int = third + 4 + uri_len as int;
    assert(data.len() == end);
    assert(data.subrange(0, 8) =~= seq![210u8, 225, 30, 162, 88, 184, 77, 141]);
    assert(data.subrange(8, 12) =~= le_bytes(name_len, 4));
    assert(data.subrange(12, second) =~= encode_utf8(name));
    assert(data.subrange(second, second + 4) =~= le_bytes(symbol_len, 4));
    assert(data.subrange(second + 4, third) =~= encode_utf8(symbol));
    assert(data.subrange(third, third + 4) =~= le_bytes(uri_len, 4));
    assert(data.subrange(third + 4, end) =~= encode_utf8(uri));
    assert(data[0] == 210);
}

/// What creates an account is read as such.
pub proof fn creation_is_read(
    from: Seq<u8>,
    to: Seq<u8>,
    lamports: u64,
    space: u64,
    owner: Seq<u8>,
)
    requires
        owner.len() == 32,
    ensures
        system_request(create_account_ix(from, to, lamports, space, owner).data) == Some(
            SystemRequest::CreateAccount { lamports: lamports as nat, space: space as nat, owner },
        ),
{
    reveal(system_request);
    let data = create_account_ix(from, to, lamports, space, owner).data;
    reveal_with_fuel(numbers_in, 5);
    number_is_read_back(0, 4);
    integers_are_read_back(0, lamports);
    integers_are_read_back(0, space);
    assert(data.subrange(0, 4) =~= le_bytes(0, 4));
    assert(data.subrange(4, 12) =~= le_bytes(lamports as nat, 8));
    assert(data.subrange(12, 20) =~= le_bytes(space as nat, 8));
    assert(key_at(data, 20) =~= owner);
}

/// What transfers lamports is read as such.
pub proof fn payment_is_read(from: Seq<u8>, to: Seq<u8>, lamports: u64)
    ensures
        system_request(transfer_ix(from, to, lamports).data) == Some(
            SystemRequest::Transfer { lamports: lamports as nat },
        ),
{
    reveal(system_request);
    let data = transfer_ix(from, to, lamports).data;
    reveal_with_fuel(numbers_in, 5);
    number_is_read_back(2, 4);
    integers_are_read_back(0, lamports);
    assert(data.subrange(0, 4) =~= le_bytes(2, 4));
    assert(data.subrange(4, 12) =~= le_bytes(lamports as nat, 8));
}

/// What allocates an account is read as such.
pub proof fn allocation_is_read(account: Seq<u8>, space: u64)
    ensures
        system_request(allocate_ix(account, space).data) == Some(
            SystemRequest::Allocate { space: space as nat },
        ),
{
    reveal(system_request);
    let data = allocate_ix(account, space).data;
    reveal_with_fuel(numbers_in, 5);
    number_is_read_back(8, 4);
    integers_are_read_back(0, space);
    assert(data.subrange(0, 4) =~= le_bytes(8, 4));
    assert(data.subrange(4, 12) =~= le_bytes(space as nat, 8));
}

/// What assigns an account is read as such.
pub proof fn assignment_is_read(account: Seq<u8>, owner: Seq<u8>)
    requires
        owner.len() == 32,
    ensures
        system_request(assign_ix(account, owner).data) == Some(SystemRequest::Assign { owner }),
{
    reveal(system_request);
    let data = assign_ix(account, owner).data;
    reveal_with_fuel(numbers_in, 5);
    number_is_read_back(1, 4);
    assert(data.subrange(0, 4) =~= le_bytes(1, 4));
    assert(key_at(data, 4) =~= owner);
}

} // verus!
