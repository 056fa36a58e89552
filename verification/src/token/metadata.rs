//! Token name, symbol and decimals.
use vstd::prelude::*;
use crate::token::types::{TokenError, TokenMetadata};
use crate::token::contract::{VeritixToken, TokenModel};

verus! {

/// Refuses metadata whose decimal precision does not fit in a byte.
pub fn validate_metadata(meta: &TokenMetadata) -> (r: Result<(), TokenError>)
    ensures
        r is Ok <==> meta.decimal <= 255,
        r is Err ==> r == Err::<(), TokenError>(TokenError::InvalidDecimal),
{
    if meta.decimal > 255 {
        Err(TokenError::InvalidDecimal)
    } else {
        Ok(())
    }
}

/// Stores the metadata.
pub fn write_metadata(t: &mut VeritixToken, meta: TokenMetadata)
    requires
        old(t).wf(),
    ensures
        final(t).wf(),
        final(t)@ == (TokenModel { metadata: Some(meta@), ..old(t)@ }),
{
    t.metadata = Some(meta);
}

/// The decimal precision; fails with `NotInitialized` before initialization.
pub fn read_decimal(t: &VeritixToken) -> (r: Result<u32, TokenError>)
    ensures
        match t@.metadata {
            Some(m) => r == Ok::<u32, TokenError>(m.decimal),
            None => r == Err::<u32, TokenError>(TokenError::NotInitialized),
        },
{
    match &t.metadata {
        Some(m) => Ok(m.decimal),
        None => Err(TokenError::NotInitialized),
    }
}

/// The name; fails with `NotInitialized` before initialization.
pub fn read_name(t: &VeritixToken) -> (r: Result<String, TokenError>)
    ensures
        match t@.metadata {
            Some(m) => r is Ok && r->Ok_0@ == m.name,
            None => r == Err::<String, TokenError>(TokenError::NotInitialized),
        },
{
    match &t.metadata {
        Some(m) => Ok(m.name.clone()),
        None => Err(TokenError::NotInitialized),
    }
}

/// The symbol; fails with `NotInitialized` before initialization.
pub fn read_symbol(t: &VeritixToken) -> (r: Result<String, TokenError>)
    ensures
        match t@.metadata {
            Some(m) => r is Ok && r->Ok_0@ == m.symbol,
            None => r == Err::<String, TokenError>(TokenError::NotInitialized),
        },
{
    match &t.metadata {
        Some(m) => Ok(m.symbol.clone()),
        None => Err(TokenError::NotInitialized),
    }
}

} // verus!
