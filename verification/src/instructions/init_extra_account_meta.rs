//! The extra accounts the transfer hook needs, as recorded for the mint: the
//! owner's user record (found from the seeds `"user"` and the owner's address)
//! and the vault configuration.

use vstd::prelude::*;

use crate::error::VaultError;
use crate::pubkey::Pubkey;

use spl_tlv_account_resolution::account::ExtraAccountMeta as SplExtraAccountMeta;
use spl_tlv_account_resolution::seeds::Seed as SplSeed;

verus! {

/// One seed of an address derived from the transfer's accounts and data.
#[derive(Clone, Debug)]
pub enum SeedConfig {
    Uninitialized,
    Literal { bytes: Vec<u8> },
    InstructionData { index: u8, length: u8 },
    AccountKey { index: u8 },
    AccountData { account_index: u8, data_index: u8, length: u8 },
}

/// A seed as plain values.
pub enum SeedView {
    Uninitialized,
    Literal { bytes: Seq<u8> },
    InstructionData { index: u8, length: u8 },
    AccountKey { index: u8 },
    AccountData { account_index: u8, data_index: u8, length: u8 },
}

impl View for SeedConfig {
    type V = SeedView;

    open spec fn view(&self) -> SeedView {
        match self {
            SeedConfig::Uninitialized => SeedView::Uninitialized,
            SeedConfig::Literal { bytes } => SeedView::Literal { bytes: bytes@ },
            SeedConfig::InstructionData { index, length } => SeedView::InstructionData {
                index: *index,
                length: *length,
            },
            SeedConfig::AccountKey { index } => SeedView::AccountKey { index: *index },
            SeedConfig::AccountData { account_index, data_index, length } => SeedView::AccountData {
                account_index: *account_index,
                data_index: *data_index,
                length: *length,
            },
        }
    }
}

/// An extra account of the transfer: its kind (0 an address, 1 an address derived
/// from seeds), the address or the packed seeds, and its signer and writable flags.
#[derive(Clone, Copy, Debug)]
pub struct ExtraAccountMeta {
    pub discriminator: u8,
    pub address_config: [u8; 32],
    pub is_signer: bool,
    pub is_writable: bool,
}

/// An extra account as plain values.
pub struct ExtraAccountMetaView {
    pub discriminator: u8,
    pub address_config: Seq<u8>,
    pub is_signer: bool,
    pub is_writable: bool,
}

impl View for ExtraAccountMeta {
    type V = ExtraAccountMetaView;

    open spec fn view(&self) -> ExtraAccountMetaView {
        ExtraAccountMetaView {
            discriminator: self.discriminator,
            address_config: self.address_config@,
            is_signer: self.is_signer,
            is_writable: self.is_writable,
        }
    }
}

/// A seed's packed form: a tag byte, then its fields; a literal carries its length
/// and then its bytes.
pub open spec fn seed_tlv(s: SeedView) -> Seq<u8> {
    match s {
        SeedView::Uninitialized => seq![],
        SeedView::Literal { bytes } => seq![1u8, bytes.len() as u8] + bytes,
        SeedView::InstructionData { index, length } => seq![2u8, index, length],
        SeedView::AccountKey { index } => seq![3u8, index],
        SeedView::AccountData { account_index, data_index, length } => seq![
            4u8,
            account_index,
            data_index,
            length,
        ],
    }
}

/// The packed forms of the seeds, one after the other.
pub open spec fn seeds_tlv(seeds: Seq<SeedView>) -> Seq<u8>
    decreases seeds.len(),
{
    if seeds.len() == 0 {
        seq![]
    } else {
        seeds_tlv(seeds.drop_last()) + seed_tlv(seeds.last())
    }
}

/// The 32-byte seed configuration: the packed seeds padded with zeros, or `None`
/// when a seed is uninitialized or the packed seeds exceed 32 bytes.
pub open spec fn seed_address_config(seeds: Seq<SeedView>) -> Option<Seq<u8>> {
    if (exists|i: int| 0 <= i < seeds.len() && #[trigger] seeds[i] is Uninitialized)
        || seeds_tlv(seeds).len() > 32 {
        None
    } else {
        Some(seeds_tlv(seeds) + Seq::new((32 - seeds_tlv(seeds).len()) as nat, |i: int| 0u8))
    }
}

/// The program address derived from one seed and a program id, with its bump,
/// or `None` when no bump gives one.
pub uninterp spec fn program_address(seed: Seq<u8>, program_id: Seq<u8>) -> Option<(Seq<u8>, u8)>;

/// The bytes of `vault-config`.
pub open spec fn vault_config_seed() -> Seq<u8> {
    seq![118u8, 97u8, 117u8, 108u8, 116u8, 45u8, 99u8, 111u8, 110u8, 102u8, 105u8, 103u8]
}

/// The seeds of the owner's user record: `user` and the address of account 3,
/// the owner in a transfer's account list.
pub open spec fn user_record_seeds() -> Seq<SeedView> {
    seq![
        SeedView::Literal { bytes: seq![117u8, 115u8, 101u8, 114u8] },
        SeedView::AccountKey { index: 3 },
    ]
}

/// An extra account of the given kind, configuration and flags.
pub open spec fn meta_view(discriminator: u8, config: Seq<u8>, is_signer: bool, is_writable: bool) -> ExtraAccountMetaView {
    ExtraAccountMetaView { discriminator, address_config: config, is_signer, is_writable }
}

/// The extra account for an address.
pub open spec fn meta_for_address(key: Seq<u8>) -> ExtraAccountMetaView {
    ExtraAccountMetaView { discriminator: 0, address_config: key, is_signer: false, is_writable: false }
}

/// The extra account for an address derived from the seeds.
pub open spec fn meta_for_seeds(seeds: Seq<SeedView>) -> ExtraAccountMetaView {
    ExtraAccountMetaView {
        discriminator: 1,
        address_config: seed_address_config(seeds)->0,
        is_signer: false,
        is_writable: false,
    }
}

/// `Pubkey::try_find_program_address` with the one seed. What it finds is named
/// `program_address`.
#[verifier::external_body]
fn find_program_address(seed: &[u8], program_id: &Pubkey) -> (r: Option<(Pubkey, u8)>)
    ensures
        match r {
            Some((k, b)) => program_address(seed@, program_id@) == Some((k@, b)),
            None => program_address(seed@, program_id@) is None,
        },
{
    let program_id = anchor_lang::prelude::Pubkey::new_from_array(program_id.bytes);
    anchor_lang::prelude::Pubkey::try_find_program_address(&[seed], &program_id).map(
        |(k, b)| (Pubkey { bytes: k.to_bytes() }, b),
    )
}

/// `ExtraAccountMeta::new_with_pubkey` of spl-tlv-account-resolution: per the
/// source it always succeeds, with discriminator 0 and the address as configuration.
#[verifier::external_body]
fn meta_with_pubkey(key: &Pubkey, is_signer: bool, is_writable: bool) -> (r: Option<ExtraAccountMeta>)
    ensures
        r is Some,
        r.unwrap()@ == meta_view(0, key@, is_signer, is_writable),
{
    let key = anchor_lang::prelude::Pubkey::new_from_array(key.bytes);
    let m = SplExtraAccountMeta::new_with_pubkey(&key, is_signer, is_writable).ok()?;
    Some(ExtraAccountMeta { discriminator: m.discriminator, address_config: m.address_config,
        is_signer: m.is_signer.into(), is_writable: m.is_writable.into() })
}

/// The seed type of spl-tlv-account-resolution, carried through opaquely.
#[verifier::external_type_specification]
#[verifier::external_body]
pub struct ExSplSeed(spl_tlv_account_resolution::seeds::Seed);

/// The spl-tlv-account-resolution `Seed` with the same fields.
#[verifier::external_body]
fn spl_seed(s: &SeedConfig) -> SplSeed {
    match s {
        SeedConfig::Uninitialized => SplSeed::Uninitialized,
        SeedConfig::Literal { bytes } => SplSeed::Literal { bytes: bytes.clone() },
        SeedConfig::InstructionData { index, length } => SplSeed::InstructionData { index: *index, length: *length },
        SeedConfig::AccountKey { index } => SplSeed::AccountKey { index: *index },
        SeedConfig::AccountData { account_index, data_index, length } => SplSeed::AccountData {
            account_index: *account_index, data_index: *data_index, length: *length },
    }
}

/// `ExtraAccountMeta::new_with_seeds` of spl-tlv-account-resolution: per the source
/// (`SeedConfig::pack_into_address_config`) discriminator 1 and the seeds packed one
/// after the other into 32 zeroed bytes; it fails on an uninitialized seed or
/// when the packed seeds exceed 32 bytes. A literal longer than 253 bytes makes
/// the size computation overflow, which `requires` rules out.
#[verifier::external_body]
fn meta_with_seeds(seeds: &Vec<SeedConfig>, is_signer: bool, is_writable: bool) -> (r: Option<ExtraAccountMeta>)
    requires
        forall|i: int|
            0 <= i < seeds@.len() ==> (#[trigger] seeds@[i]@ matches SeedView::Literal { bytes }
                ==> bytes.len() <= 253),
    ensures
        match seed_address_config(seeds@.map_values(|s: SeedConfig| s@)) {
            None => r is None,
            Some(config) => r is Some && r.unwrap()@ == meta_view(1, config, is_signer, is_writable),
        },
{
    let seeds: Vec<SplSeed> = seeds.iter().map(spl_seed).collect();
    let m = SplExtraAccountMeta::new_with_seeds(&seeds, is_signer, is_writable).ok()?;
    Some(ExtraAccountMeta { discriminator: m.discriminator, address_config: m.address_config,
        is_signer: m.is_signer.into(), is_writable: m.is_writable.into() })
}

/// Building the extra-account list reads nothing.
#[derive(Debug)]
pub struct InitializeExtraAccountMetaList {}

/// The extra-account list, as plain values, for the vault configuration's
/// program address `pda`.
pub open spec fn extra_metas_for(pda: Seq<u8>) -> Seq<ExtraAccountMetaView> {
    seq![meta_for_seeds(user_record_seeds()), meta_for_address(pda)]
}

/// The vault configuration's program address for the program, where there is one.
pub open spec fn vault_config_address(program_id: Seq<u8>) -> Seq<u8> {
    match program_address(vault_config_seed(), program_id) {
        Some((pda, _)) => pda,
        None => seq![],
    }
}

impl InitializeExtraAccountMetaList {
    /// The extra accounts of a transfer of the mint, in order: the owner's user
    /// record, then the vault configuration at its program address. Where no bump
    /// seed gives that address the program aborts, which `requires` leaves out.
    pub fn extra_account_metas(program_id: &Pubkey) -> (r: Result<Vec<ExtraAccountMeta>, VaultError>)
        requires
            program_address(vault_config_seed(), program_id@) is Some,
        ensures
            r matches Ok(metas) && metas@.map_values(|m: ExtraAccountMeta| m@) == extra_metas_for(
                vault_config_address(program_id@),
            ),
    {
        let seed = vec![118u8, 97u8, 117u8, 108u8, 116u8, 45u8, 99u8, 111u8, 110u8, 102u8, 105u8, 103u8];
        assert(seed@ =~= vault_config_seed());
        let (vault_config_pda, _bump) = find_program_address(seed.as_slice(), program_id).unwrap();
        let vault_config_meta = meta_with_pubkey(&vault_config_pda, false, false).unwrap();
        let seeds = vec![SeedConfig::Literal { bytes: vec![117u8, 115u8, 101u8, 114u8] }, SeedConfig::AccountKey { index: 3 }];
        let ghost seeds_view = seeds@.map_values(|s: SeedConfig| s@);
        assert(seeds_view =~= user_record_seeds());
        proof {
            reveal_with_fuel(seeds_tlv, 3);
            assert(seeds_tlv(user_record_seeds()).len() == 8);
            assert(!(exists|i: int| 0 <= i < user_record_seeds().len() && #[trigger] user_record_seeds()[i] is Uninitialized));
        }
        let user_meta = meta_with_seeds(&seeds, false, false).unwrap();
        let account_metas = vec![user_meta, vault_config_meta];
        assert(account_metas@.map_values(|m: ExtraAccountMeta| m@) =~= extra_metas_for(vault_config_pda@));
        Ok(account_metas)
    }

    /// The extra accounts, or `None` where no bump seed gives the vault
    /// configuration a program address (and `extra_account_metas` is not called).
    pub fn try_extra_account_metas(program_id: &Pubkey) -> (r: Option<Vec<ExtraAccountMeta>>)
        ensures
            match program_address(vault_config_seed(), program_id@) {
                None => r is None,
                Some((pda, _)) => r matches Some(metas) && metas@.map_values(
                    |m: ExtraAccountMeta| m@,
                ) == extra_metas_for(pda),
            },
    {
        let seed = vec![118u8, 97u8, 117u8, 108u8, 116u8, 45u8, 99u8, 111u8, 110u8, 102u8, 105u8, 103u8];
        assert(seed@ =~= vault_config_seed());
        match find_program_address(seed.as_slice(), program_id) {
            None => None,
            Some(_) => match Self::extra_account_metas(program_id) {
                Ok(metas) => Some(metas),
                Err(_) => None,
            },
        }
    }
}

} // verus!
