//! The records a referral registry keeps, and their mathematical views.
use vstd::prelude::*;
use crate::utils::AccountId;
use crate::rent::meta::opt_str_view;
use crate::tournament::metadata::clone_opt_str;

verus! {

pub type ProgramId = String;

pub type InfluencerId = AccountId;

pub type ContractId = AccountId;

pub type InfluencerRoyalty = u64;

/// The program a referral code stands for.
pub struct ReferralInfo {
    pub contract_id: ContractId,
    pub influencer_id: InfluencerId,
    pub program_id: ProgramId,
}

pub struct ReferralInfoView {
    pub contract_id: Seq<char>,
    pub influencer_id: Seq<char>,
    pub program_id: Seq<char>,
}

impl View for ReferralInfo {
    type V = ReferralInfoView;

    open spec fn view(&self) -> ReferralInfoView {
        ReferralInfoView {
            contract_id: self.contract_id@,
            influencer_id: self.influencer_id@,
            program_id: self.program_id@,
        }
    }
}

impl ReferralInfo {
    pub fn duplicate(&self) -> (r: Self)
        ensures
            r@ == self@,
    {
        ReferralInfo {
            contract_id: self.contract_id.clone(),
            influencer_id: self.influencer_id.clone(),
            program_id: self.program_id.clone(),
        }
    }
}

/// How a program presents itself.
pub struct ReferralProgramMetadata {
    pub title: Option<String>,
    pub media: Option<String>,
    pub description: Option<String>,
    pub url: Option<String>,
}

pub struct ProgramMetadataView {
    pub title: Option<Seq<char>>,
    pub media: Option<Seq<char>>,
    pub description: Option<Seq<char>>,
    pub url: Option<Seq<char>>,
}

impl View for ReferralProgramMetadata {
    type V = ProgramMetadataView;

    open spec fn view(&self) -> ProgramMetadataView {
        ProgramMetadataView {
            title: opt_str_view(self.title),
            media: opt_str_view(self.media),
            description: opt_str_view(self.description),
            url: opt_str_view(self.url),
        }
    }
}

impl ReferralProgramMetadata {
    pub fn duplicate(&self) -> (r: Self)
        ensures
            r@ == self@,
    {
        ReferralProgramMetadata {
            title: clone_opt_str(&self.title),
            media: clone_opt_str(&self.media),
            description: clone_opt_str(&self.description),
            url: clone_opt_str(&self.url),
        }
    }
}

/// A program as a view call returns it.
pub struct ReferralProgram {
    pub contract_id: ContractId,
    pub influencer_id: InfluencerId,
    pub program_id: ProgramId,
    pub metadata: Option<ReferralProgramMetadata>,
    pub code: String,
}

pub open spec fn opt_meta_view(o: Option<ReferralProgramMetadata>) -> Option<ProgramMetadataView> {
    match o {
        Some(m) => Some(m@),
        None => None,
    }
}

/// A new referral that the contract it was made for is to be told about.
pub struct ReferralCall {
    pub contract_id: ContractId,
    pub influencer_id: InfluencerId,
    pub program_id: ProgramId,
    pub account_id: AccountId,
}

/// Why a referral request was refused.
#[derive(PartialEq, Eq, Structural, Debug, Clone, Copy)]
pub enum ReferralError {
    ProgramDepositTooSmall,
    ReferralDepositTooSmall,
    ProgramExists,
    CodeUsed,
    ReferralExists,
    ProgramNotFound,
    InfoNotFound,
    ContractNotFound,
}

impl ReferralError {
    pub fn message(&self) -> (s: &'static str)
        ensures
            s@ == (match self {
                ReferralError::ProgramDepositTooSmall => "Requires attached deposit of 0.1 NEAR"@,
                ReferralError::ReferralDepositTooSmall => "Requires attached deposit of 0.02 NEAR"@,
                ReferralError::ProgramExists => "Program already exists"@,
                ReferralError::CodeUsed => "Code already used, please try again"@,
                ReferralError::ReferralExists => "Referral already exists"@,
                ReferralError::ProgramNotFound => "Not found referral program"@,
                ReferralError::InfoNotFound => "Not found info"@,
                ReferralError::ContractNotFound => "Not found"@,
            }),
    {
        match self {
            ReferralError::ProgramDepositTooSmall => "Requires attached deposit of 0.1 NEAR",
            ReferralError::ReferralDepositTooSmall => "Requires attached deposit of 0.02 NEAR",
            ReferralError::ProgramExists => "Program already exists",
            ReferralError::CodeUsed => "Code already used, please try again",
            ReferralError::ReferralExists => "Referral already exists",
            ReferralError::ProgramNotFound => "Not found referral program",
            ReferralError::InfoNotFound => "Not found info",
            ReferralError::ContractNotFound => "Not found",
        }
    }
}

/// The whole state of a referral registry as mathematical maps.
#[verifier::ext_equal]
pub struct ReferralState {
    /// The influencer who brought each `contract||account` that joined a program.
    pub influencer_by_id: Map<Seq<char>, Seq<char>>,
    /// The accounts referred to each contract.
    pub by_contract: Map<Seq<char>, Seq<Seq<char>>>,
    /// The accounts each influencer referred.
    pub by_influencer: Map<Seq<char>, Seq<Seq<char>>>,
    /// The accounts in each `contract||influencer||program`.
    pub by_program: Map<Seq<char>, Seq<Seq<char>>>,
    pub royalty: Map<Seq<char>, u64>,
    pub metadata: Map<Seq<char>, ProgramMetadataView>,
    /// Program ids by contract, then influencer.
    pub programs_by_contract: Map<Seq<char>, Map<Seq<char>, Seq<Seq<char>>>>,
    /// Program ids by influencer, then contract.
    pub programs_by_influencer: Map<Seq<char>, Map<Seq<char>, Seq<Seq<char>>>>,
    pub code_by_program: Map<Seq<char>, Seq<char>>,
    pub info_by_code: Map<Seq<char>, ReferralInfoView>,
}

} // verus!
