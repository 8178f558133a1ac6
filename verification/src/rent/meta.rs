//! The records a rent market keeps, and their mathematical views.
use vstd::prelude::*;
use crate::collections::{AssocMap};
use crate::utils::{AccountId, TokenId};

verus! {

/// Price per hour of rent, by the fungible token it is paid in.
pub type SaleConditions = AssocMap<String, u128>;

/// An NFT offered for rent.
pub struct Rent {
    pub token_id: TokenId,
    pub contract_id: AccountId,
    pub owner_id: AccountId,
    pub sale_conditions: SaleConditions,
    pub min_time: u64,
    pub max_time: u64,
    pub created_at: u64,
}

pub struct RentView {
    pub token_id: Seq<char>,
    pub contract_id: Seq<char>,
    pub owner_id: Seq<char>,
    pub sale_conditions: Map<Seq<char>, u128>,
    pub min_time: u64,
    pub max_time: u64,
    pub created_at: u64,
}

impl View for Rent {
    type V = RentView;

    open spec fn view(&self) -> RentView {
        RentView {
            token_id: self.token_id@,
            contract_id: self.contract_id@,
            owner_id: self.owner_id@,
            sale_conditions: self.sale_conditions.map(),
            min_time: self.min_time,
            max_time: self.max_time,
            created_at: self.created_at,
        }
    }
}

impl Rent {
    pub fn duplicate(&self) -> (r: Rent)
        ensures
            r@ == self@,
    {
        Rent {
            token_id: self.token_id.clone(),
            contract_id: self.contract_id.clone(),
            owner_id: self.owner_id.clone(),
            sale_conditions: self.sale_conditions.copy_map(),
            min_time: self.min_time,
            max_time: self.max_time,
            created_at: self.created_at,
        }
    }
}

/// A rent as a view call returns it: the offer, and who holds the token
/// until when, once it is rented.
pub struct JsonRent {
    pub token_id: TokenId,
    pub contract_id: AccountId,
    pub owner_id: AccountId,
    pub sale_conditions: SaleConditions,
    pub min_time: u64,
    pub max_time: u64,
    pub created_at: u64,
    pub ended_at: Option<u64>,
    pub renter_id: Option<AccountId>,
}

pub struct JsonRentView {
    pub rent: RentView,
    pub ended_at: Option<u64>,
    pub renter_id: Option<Seq<char>>,
}

pub open spec fn opt_str_view(o: Option<String>) -> Option<Seq<char>> {
    match o {
        Some(s) => Some(s@),
        None => None,
    }
}

impl View for JsonRent {
    type V = JsonRentView;

    open spec fn view(&self) -> JsonRentView {
        JsonRentView {
            rent: RentView {
                token_id: self.token_id@,
                contract_id: self.contract_id@,
                owner_id: self.owner_id@,
                sale_conditions: self.sale_conditions.map(),
                min_time: self.min_time,
                max_time: self.max_time,
                created_at: self.created_at,
            },
            ended_at: self.ended_at,
            renter_id: opt_str_view(self.renter_id),
        }
    }
}

/// The arguments an NFT contract passes along when its owner approves the
/// market.
pub struct RentOnNftApproveArgs {
    pub sale_conditions: SaleConditions,
    pub min_time: u64,
    pub max_time: u64,
}

/// The arguments a fungible token contract passes along with a payment.
pub struct RentOnFtTransferArgs {
    pub token_id: TokenId,
    pub contract_id: AccountId,
    pub receiver_id: AccountId,
    pub time: u64,
}

/// Why a rent request was refused.
#[derive(PartialEq, Eq, Structural, Debug, Clone, Copy)]
pub enum RentError {
    ApprovalsDisabled,
    NotApproved,
    TimeTooShort,
    TimeTooLong,
    AlreadyInRent,
    AlreadyOnMarket,
    RentAlreadyStarted,
    RentNotFound,
    Unauthorized,
    OnlyOwnerCanRemove,
    RentNotOwned,
    TokenNotOwned,
    ContractNotFound,
    NotAvailableForRent,
    OwnerIsReceiver,
    FtNotAvailable,
    PriceOverflow,
    InvalidDeposit,
    EndTimeOverflow,
    InvalidRentTime,
    NotAuthorized,
    RenterNotFound,
    EndNotFound,
    NotExpired,
    TransferFailed,
    MissingRecord,
}

impl RentError {
    /// The text a contract panics with for this refusal.
    pub fn message(&self) -> (s: &'static str)
        ensures
            s@ == (match self {
                RentError::ApprovalsDisabled => "Approvals are not tracked"@,
                RentError::NotApproved => "Not approved for sender"@,
                RentError::TimeTooShort => "minimum 1 hour."@,
                RentError::TimeTooLong => "maximum 100 days."@,
                RentError::AlreadyInRent => "Token is already in rent"@,
                RentError::AlreadyOnMarket => "Token already on market"@,
                RentError::RentAlreadyStarted => "Rent already started"@,
                RentError::RentNotFound => "Not found rent"@,
                RentError::Unauthorized => "Unauthorized"@,
                RentError::OnlyOwnerCanRemove => "Only owner can remove rent"@,
                RentError::RentNotOwned => "Rent should be owned by the sender"@,
                RentError::TokenNotOwned => "Token should be owned by the sender"@,
                RentError::ContractNotFound => "Not found nft contract"@,
                RentError::NotAvailableForRent => "Token is not available for rent"@,
                RentError::OwnerIsReceiver => "Not rent owned token"@,
                RentError::FtNotAvailable => "Ft not available"@,
                RentError::PriceOverflow => "Price overflow"@,
                RentError::InvalidDeposit => "Invalid attached deposit"@,
                RentError::EndTimeOverflow => "End time overflow"@,
                RentError::InvalidRentTime => "Invalid rent time"@,
                RentError::NotAuthorized => "Not authorized"@,
                RentError::RenterNotFound => "Not found renter"@,
                RentError::EndNotFound => "Not found rent end"@,
                RentError::NotExpired => "Rent is not expired"@,
                RentError::TransferFailed => "Error during transfer nft"@,
                RentError::MissingRecord => "Not found rent record"@,
            }),
    {
        match self {
            RentError::ApprovalsDisabled => "Approvals are not tracked",
            RentError::NotApproved => "Not approved for sender",
            RentError::TimeTooShort => "minimum 1 hour.",
            RentError::TimeTooLong => "maximum 100 days.",
            RentError::AlreadyInRent => "Token is already in rent",
            RentError::AlreadyOnMarket => "Token already on market",
            RentError::RentAlreadyStarted => "Rent already started",
            RentError::RentNotFound => "Not found rent",
            RentError::Unauthorized => "Unauthorized",
            RentError::OnlyOwnerCanRemove => "Only owner can remove rent",
            RentError::RentNotOwned => "Rent should be owned by the sender",
            RentError::TokenNotOwned => "Token should be owned by the sender",
            RentError::ContractNotFound => "Not found nft contract",
            RentError::NotAvailableForRent => "Token is not available for rent",
            RentError::OwnerIsReceiver => "Not rent owned token",
            RentError::FtNotAvailable => "Ft not available",
            RentError::PriceOverflow => "Price overflow",
            RentError::InvalidDeposit => "Invalid attached deposit",
            RentError::EndTimeOverflow => "End time overflow",
            RentError::InvalidRentTime => "Invalid rent time",
            RentError::NotAuthorized => "Not authorized",
            RentError::RenterNotFound => "Not found renter",
            RentError::EndNotFound => "Not found rent end",
            RentError::NotExpired => "Rent is not expired",
            RentError::TransferFailed => "Error during transfer nft",
            RentError::MissingRecord => "Not found rent record",
        }
    }
}

/// The whole state of a rent market as mathematical maps and sequences.
#[verifier::ext_equal]
pub struct RentState {
    /// Who approved the market for each `contract||token`, when tracked.
    pub approved: Option<Map<Seq<char>, Seq<char>>>,
    /// The renter of each rented `contract||token`.
    pub current: Map<Seq<char>, Seq<char>>,
    /// The offers open for payment, in enumeration order.
    pub pending: Seq<Seq<char>>,
    /// Every offer by `contract||token`.
    pub rents: Map<Seq<char>, RentView>,
    /// The offers of each owner.
    pub per_account: Map<Seq<char>, Seq<Seq<char>>>,
    /// When each rent ends.
    pub ends: Map<Seq<char>, u64>,
    /// The tokens each renter has rented.
    pub tokens_per_account: Map<Seq<char>, Seq<Seq<char>>>,
    /// The token ids on offer from each NFT contract.
    pub by_contract: Map<Seq<char>, Seq<Seq<char>>>,
}

/// A payment the market makes once a rent settles.
pub enum Payout {
    /// Native NEAR sent to `receiver_id`.
    Near { receiver_id: AccountId, amount: u128 },
    /// `amount` of the fungible token `ft_contract_id` sent to `receiver_id`.
    Ft { ft_contract_id: AccountId, receiver_id: AccountId, amount: u128 },
}

pub enum PayoutView {
    Near { receiver_id: Seq<char>, amount: u128 },
    Ft { ft_contract_id: Seq<char>, receiver_id: Seq<char>, amount: u128 },
}

impl View for Payout {
    type V = PayoutView;

    open spec fn view(&self) -> PayoutView {
        match self {
            Payout::Near { receiver_id, amount } => PayoutView::Near {
                receiver_id: receiver_id@,
                amount: *amount,
            },
            Payout::Ft { ft_contract_id, receiver_id, amount } => PayoutView::Ft {
                ft_contract_id: ft_contract_id@,
                receiver_id: receiver_id@,
                amount: *amount,
            },
        }
    }
}

/// An accepted payment for a rent: the NFT is to be moved to the market,
/// then the purchase settled with these values.
pub struct RentPurchase {
    pub contract_id: AccountId,
    pub token_id: TokenId,
    pub buyer_id: AccountId,
    pub owner_id: AccountId,
    pub receiver_id: AccountId,
    pub time: u64,
    pub end_time: u64,
    pub ft_token_id: AccountId,
    pub price: u128,
}

/// A claim the owner may make: the NFT is to go back to `owner_id`, then
/// the rent closed.
pub struct RentClaimCall {
    pub contract_id: AccountId,
    pub token_id: TokenId,
    pub owner_id: AccountId,
    pub renter_id: AccountId,
}

/// How a purchase settled: what goes back to the payer's token contract, and
/// the payment the market makes.
pub struct ResolvePurchase {
    pub refund: u128,
    pub payout: Option<Payout>,
}

} // verus!
