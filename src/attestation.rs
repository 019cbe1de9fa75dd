use vstd::prelude::*;
use crate::config::WormholeListenerConfig;
use crate::errors::DubuuMarketplaceError;
use crate::hashing::{hash_bytes, sha256_of};
use crate::keys::{seeds_view, AccountKey};

verus! {

/// A relayed claim about a balance held on another chain.
#[derive(Clone, Debug, PartialEq, Eq)]
pub struct BalanceAttestationPayload {
    pub solana_target_address: AccountKey,
    pub evm_chain_id: u16,
    pub asset_address_on_evm_as_bytes: Vec<u8>,
    pub balance: u64,
    pub timestamp: i64,
}

/// The stored attestation of one (target, source chain, source asset).
#[derive(Clone, Copy, Debug, PartialEq, Eq)]
pub struct CrossChainAttestation {
    pub user_solana_key: AccountKey,
    pub source_chain_id: u16,
    pub source_asset_hash: [u8; 32],
    pub attested_balance: u64,
    pub attestation_timestamp: i64,
    pub bump: u8,
}

/// Notification that a balance was attested.
#[derive(Clone, Copy, Debug, PartialEq, Eq)]
pub struct CrossChainBalanceAttestedEvent {
    pub user_solana_key: AccountKey,
    pub source_chain_id: u16,
    pub source_asset_hash: [u8; 32],
    pub attested_balance: u64,
}

/// What configuring the inbound channel reads.
#[derive(Clone, Copy, Debug, PartialEq, Eq)]
pub struct InitializeWormholeListenerAccounts {
    pub signer: AccountKey,
    pub wormhole_listener_config_bump: u8,
}

/// What recording an attestation reads.
#[derive(Clone, Copy, Debug, PartialEq, Eq)]
pub struct ProcessWormholeAttestationAccounts {
    pub wormhole_listener_config: WormholeListenerConfig,
    pub relayer: AccountKey,
    pub cross_chain_attestation_bump: u8,
}

/// Configures the inbound channel with the one relayer it accepts.
pub fn handle_initialize_wormhole_listener(
    ctx: &InitializeWormholeListenerAccounts,
    authorized_relayer: AccountKey,
) -> (r: WormholeListenerConfig)
    ensures
        r == (WormholeListenerConfig {
            wormhole_authorized_relayer: authorized_relayer,
            bump: ctx.wormhole_listener_config_bump,
        }),
{
    WormholeListenerConfig { wormhole_authorized_relayer: authorized_relayer, bump: ctx.wormhole_listener_config_bump }
}

/// The two bytes of a chain id, least significant first.
pub open spec fn u16_le(x: u16) -> Seq<u8> {
    seq![(x % 256) as u8, (x / 256) as u8]
}

/// The seeds of an attestation record's derived address: the tag
/// `attestation`, the target, the chain id in little-endian order and the
/// digest of the source asset's address.
pub open spec fn attestation_seeds_spec(target: Seq<u8>, chain_id: u16, source_asset: Seq<u8>) -> Seq<Seq<u8>> {
    seq![
        seq![97u8, 116u8, 116u8, 101u8, 115u8, 116u8, 97u8, 116u8, 105u8, 111u8, 110u8],
        target,
        u16_le(chain_id),
        sha256_of(source_asset)
    ]
}

/// Builds the seeds from which an attestation record's address is derived;
/// a resubmission with the same target, chain and source asset lands on the
/// same record.
pub fn attestation_address_seeds(payload: &BalanceAttestationPayload) -> (r: Vec<Vec<u8>>)
    ensures
        seeds_view(r@) == attestation_seeds_spec(
            payload.solana_target_address@,
            payload.evm_chain_id,
            payload.asset_address_on_evm_as_bytes@,
        ),
{
    let tag: Vec<u8> = vec![97u8, 116u8, 116u8, 101u8, 115u8, 116u8, 97u8, 116u8, 105u8, 111u8, 110u8];
    let id = payload.evm_chain_id;
    let le: Vec<u8> = vec![(id % 256) as u8, (id / 256) as u8];
    let digest = hash_bytes(payload.asset_address_on_evm_as_bytes.as_slice());
    let digest_bytes = AccountKey { bytes: digest }.to_vec();
    let ghost spec = attestation_seeds_spec(
        payload.solana_target_address@,
        payload.evm_chain_id,
        payload.asset_address_on_evm_as_bytes@,
    );
    assert(tag@ =~= spec[0]);
    assert(le@ =~= spec[2]);
    let mut r: Vec<Vec<u8>> = Vec::new();
    r.push(tag);
    r.push(payload.solana_target_address.to_vec());
    r.push(le);
    r.push(digest_bytes);
    assert(seeds_view(r@) =~= spec);
    r
}

/// Records a relayed balance. Only the configured relayer may submit
/// (`Unauthorized` otherwise). The record is the same whether it is new or
/// overwrites an earlier one for the same target, chain and asset.
pub fn handle_process_wormhole_balance_attestation(
    ctx: &ProcessWormholeAttestationAccounts,
    payload: &BalanceAttestationPayload,
) -> (r: Result<(CrossChainAttestation, CrossChainBalanceAttestedEvent), DubuuMarketplaceError>)
    ensures
        r is Err <==> ctx.relayer@ != ctx.wormhole_listener_config.wormhole_authorized_relayer@,
        r is Err ==> r == Err::<(CrossChainAttestation, CrossChainBalanceAttestedEvent), _>(
            DubuuMarketplaceError::Unauthorized,
        ),
        r matches Ok((rec, ev)) ==> {
            &&& rec.user_solana_key == payload.solana_target_address
            &&& rec.source_chain_id == payload.evm_chain_id
            &&& rec.source_asset_hash@ == sha256_of(payload.asset_address_on_evm_as_bytes@)
            &&& rec.attested_balance == payload.balance
            &&& rec.attestation_timestamp == payload.timestamp
            &&& rec.bump == ctx.cross_chain_attestation_bump
            &&& ev == (CrossChainBalanceAttestedEvent {
                user_solana_key: rec.user_solana_key,
                source_chain_id: rec.source_chain_id,
                source_asset_hash: rec.source_asset_hash,
                attested_balance: rec.attested_balance,
            })
        },
{
    if !ctx.relayer.same_as(&ctx.wormhole_listener_config.wormhole_authorized_relayer) {
        return Err(DubuuMarketplaceError::Unauthorized);
    }
    let hashed_asset_address = hash_bytes(payload.asset_address_on_evm_as_bytes.as_slice());
    let rec = CrossChainAttestation {
        user_solana_key: payload.solana_target_address,
        source_chain_id: payload.evm_chain_id,
        source_asset_hash: hashed_asset_address,
        attested_balance: payload.balance,
        attestation_timestamp: payload.timestamp,
        bump: ctx.cross_chain_attestation_bump,
    };
    let ev = CrossChainBalanceAttestedEvent {
        user_solana_key: payload.solana_target_address,
        source_chain_id: payload.evm_chain_id,
        source_asset_hash: hashed_asset_address,
        attested_balance: payload.balance,
    };
    Ok((rec, ev))
}

} // verus!
