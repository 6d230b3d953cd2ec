//! The metadata that a collection keeps on chain for each of its tokens, and
//! the rule by which it may be rewritten.

use vstd::prelude::*;

verus! {

/// One trait of a token: what kind of trait it is, and its value.
#[derive(Clone, Debug, PartialEq, Default)]
pub struct Trait {
    pub display_type: Option<String>,
    pub trait_type: String,
    pub value: String,
}

/// What a collection records of a token besides its owner.
#[derive(Clone, Debug, PartialEq, Default)]
pub struct Metadata {
    pub name: Option<String>,
    pub image: Option<String>,
    pub cohort: Option<String>,
    pub description: Option<String>,
    pub attributes: Option<Vec<Trait>>,
    pub badges: Option<Vec<String>>,
    pub skills: Option<Vec<String>>,
    pub github_url: Option<String>,
    pub is_for_hire: bool,
}

/// The part of a token's record that an update rewrites.
#[derive(Clone, Debug, PartialEq)]
pub struct TokenMetadata {
    pub token_uri: Option<String>,
    pub extension: Option<Metadata>,
}

/// Why a collection rejected a call.
#[derive(Clone, Copy, Debug, PartialEq, Eq)]
pub enum NftError {
    /// The caller is not the minter, or the token does not exist.
    Unauthorized,
}

/// What an update of a token's metadata gives: a rejection where the caller
/// is not the minter or the token does not exist, and else a record that
/// holds the new address and the new metadata.
pub open spec fn update_spec(
    sender: Seq<char>,
    minter: Seq<char>,
    token: Option<TokenMetadata>,
    token_uri: String,
    metadata: Metadata,
) -> Result<TokenMetadata, NftError> {
    if sender != minter || token is None {
        Err(NftError::Unauthorized)
    } else {
        Ok(TokenMetadata { token_uri: Some(token_uri), extension: Some(metadata) })
    }
}

/// Rewrites the metadata of a token on behalf of `sender`, where `minter` is
/// the collection's minter and `token` is what the collection holds of the
/// token, `None` where it holds no such token.
pub fn execute_update_on_chain_metadata(
    sender: &String,
    minter: &String,
    token: Option<TokenMetadata>,
    token_uri: String,
    metadata: Metadata,
) -> (r: Result<TokenMetadata, NftError>)
    ensures
        r == update_spec(sender@, minter@, token, token_uri, metadata),
{
    if *sender != *minter {
        Err(NftError::Unauthorized)
    } else {
        match token {
            Some(mut token_info) => {
                token_info.extension = Some(metadata);
                token_info.token_uri = Some(token_uri);
                Ok(token_info)
            },
            None => Err(NftError::Unauthorized),
        }
    }
}

} // verus!
