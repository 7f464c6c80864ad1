//! Creation of a currency's control records.
//!
//! Validates the metadata bounds and produces the currency record together
//! with the initializing authority's role grant, which carries every
//! capability. The token mint itself — account creation, extension
//! configuration, the mint's authorities — is the host's bootstrap work,
//! performed around this call.

use vstd::prelude::*;

use crate::error::StablecoinError;
use crate::state::{
    Addr, RoleAccount, RoleFlags, StablecoinState, MAX_NAME_LEN, MAX_SYMBOL_LEN, MAX_URI_LEN,
};

verus! {

/// Everything a new currency is configured with.
pub struct InitializeParams {
    pub name: Vec<u8>,
    pub symbol: Vec<u8>,
    pub uri: Vec<u8>,
    pub decimals: u8,
    /// Compliance features, immutable after initialization.
    pub enable_permanent_delegate: bool,
    pub enable_transfer_hook: bool,
    pub default_account_frozen: bool,
    /// Supply cap; 0 means uncapped.
    pub max_supply: u64,
}

/// Why initialization is refused, or `None` if it is owed success.
pub open spec fn initialize_error(
    name_len: int,
    symbol_len: int,
    uri_len: int,
) -> Option<StablecoinError> {
    if name_len > MAX_NAME_LEN {
        Some(StablecoinError::NameTooLong)
    } else if symbol_len > MAX_SYMBOL_LEN {
        Some(StablecoinError::SymbolTooLong)
    } else if uri_len > MAX_URI_LEN {
        Some(StablecoinError::UriTooLong)
    } else {
        None
    }
}

/// Create a currency's control record and the authority's initial role
/// grant, which holds all five capabilities. The new currency starts
/// unpaused with zero counters and no pending authority.
pub fn initialize(
    params: InitializeParams,
    authority: Addr,
    mint: Addr,
    stablecoin_id: Addr,
    bump: u8,
) -> (r: Result<(StablecoinState, RoleAccount), StablecoinError>)
    ensures
        match r {
            Ok((st, role)) => {
                &&& initialize_error(
                    params.name@.len() as int,
                    params.symbol@.len() as int,
                    params.uri@.len() as int,
                ) is None
                &&& st.authority == authority
                &&& st.mint == mint
                &&& st.name@ == params.name@
                &&& st.symbol@ == params.symbol@
                &&& st.uri@ == params.uri@
                &&& st.decimals == params.decimals
                &&& st.enable_permanent_delegate == params.enable_permanent_delegate
                &&& st.enable_transfer_hook == params.enable_transfer_hook
                &&& st.default_account_frozen == params.default_account_frozen
                &&& !st.paused
                &&& st.total_minted == 0
                &&& st.total_burned == 0
                &&& st.max_supply == params.max_supply
                &&& st.bump == bump
                &&& st.pending_authority is None
                &&& st.wf()
                &&& role == (RoleAccount {
                    stablecoin: stablecoin_id,
                    holder: authority,
                    roles: RoleFlags {
                        is_minter: true,
                        is_burner: true,
                        is_pauser: true,
                        is_blacklister: true,
                        is_seizer: true,
                    },
                })
            },
            Err(e) => initialize_error(
                params.name@.len() as int,
                params.symbol@.len() as int,
                params.uri@.len() as int,
            ) == Some(e),
        },
{
    if params.name.len() > MAX_NAME_LEN {
        return Err(StablecoinError::NameTooLong);
    }
    if params.symbol.len() > MAX_SYMBOL_LEN {
        return Err(StablecoinError::SymbolTooLong);
    }
    if params.uri.len() > MAX_URI_LEN {
        return Err(StablecoinError::UriTooLong);
    }

    let st = StablecoinState {
        authority,
        mint,
        name: params.name,
        symbol: params.symbol,
        uri: params.uri,
        decimals: params.decimals,
        enable_permanent_delegate: params.enable_permanent_delegate,
        enable_transfer_hook: params.enable_transfer_hook,
        default_account_frozen: params.default_account_frozen,
        paused: false,
        total_minted: 0,
        total_burned: 0,
        max_supply: params.max_supply,
        bump,
        pending_authority: None,
    };
    let role = RoleAccount { stablecoin: stablecoin_id, holder: authority, roles: RoleFlags::all() };
    Ok((st, role))
}

} // verus!
