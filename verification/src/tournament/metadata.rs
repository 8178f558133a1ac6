//! The records a tournament factory keeps, and their mathematical views.
use vstd::prelude::*;
use crate::utils::{AccountId, TokenId};
use crate::rent::meta::opt_str_view;

verus! {

pub type TournamentId = String;

pub type PrizeId = String;

pub type WinnerPlace = u8;

/// The name and icon of a tournament factory.
pub struct TournamentFactoryMetadata {
    pub name: String,
    pub icon: Option<String>,
}

pub struct TournamentMetadata {
    pub name: String,
    pub media: Option<String>,
    pub summary: Option<String>,
}

pub struct MetadataView {
    pub name: Seq<char>,
    pub media: Option<Seq<char>>,
    pub summary: Option<Seq<char>>,
}

impl View for TournamentMetadata {
    type V = MetadataView;

    open spec fn view(&self) -> MetadataView {
        MetadataView {
            name: self.name@,
            media: opt_str_view(self.media),
            summary: opt_str_view(self.summary),
        }
    }
}

pub fn clone_opt_str(o: &Option<String>) -> (r: Option<String>)
    ensures
        opt_str_view(r) == opt_str_view(*o),
{
    match o {
        Some(s) => Some(s.clone()),
        None => None,
    }
}

impl TournamentMetadata {
    pub fn duplicate(&self) -> (r: Self)
        ensures
            r@ == self@,
    {
        TournamentMetadata {
            name: self.name.clone(),
            media: clone_opt_str(&self.media),
            summary: clone_opt_str(&self.summary),
        }
    }
}

pub struct Tournament {
    pub tournament_id: TournamentId,
    pub owner_id: AccountId,
    pub access_nft_contract: Option<AccountId>,
    pub players_number: u8,
    pub price: Option<u128>,
    pub started_at: Option<u64>,
    pub ended_at: Option<u64>,
    pub created_at: u64,
}

pub struct TournamentView {
    pub tournament_id: Seq<char>,
    pub owner_id: Seq<char>,
    pub access_nft_contract: Option<Seq<char>>,
    pub players_number: u8,
    pub price: Option<u128>,
    pub started_at: Option<u64>,
    pub ended_at: Option<u64>,
    pub created_at: u64,
}

impl View for Tournament {
    type V = TournamentView;

    open spec fn view(&self) -> TournamentView {
        TournamentView {
            tournament_id: self.tournament_id@,
            owner_id: self.owner_id@,
            access_nft_contract: opt_str_view(self.access_nft_contract),
            players_number: self.players_number,
            price: self.price,
            started_at: self.started_at,
            ended_at: self.ended_at,
            created_at: self.created_at,
        }
    }
}

impl Tournament {
    pub fn duplicate(&self) -> (r: Self)
        ensures
            r@ == self@,
    {
        Tournament {
            tournament_id: self.tournament_id.clone(),
            owner_id: self.owner_id.clone(),
            access_nft_contract: clone_opt_str(&self.access_nft_contract),
            players_number: self.players_number,
            price: self.price,
            started_at: self.started_at,
            ended_at: self.ended_at,
            created_at: self.created_at,
        }
    }
}

/// A tournament as a view call returns it.
pub struct JsonTournament {
    pub tournament_id: TournamentId,
    pub owner_id: AccountId,
    pub metadata: TournamentMetadata,
    pub access_nft_contract: Option<AccountId>,
    pub price: Option<u128>,
    pub players_total: u8,
    pub players_current: u8,
    pub started_at: Option<u64>,
    pub ended_at: Option<u64>,
    pub created_at: u64,
}

pub struct JsonTournamentView {
    pub tournament: TournamentView,
    pub metadata: MetadataView,
    pub players_current: u8,
}

impl View for JsonTournament {
    type V = JsonTournamentView;

    open spec fn view(&self) -> JsonTournamentView {
        JsonTournamentView {
            tournament: TournamentView {
                tournament_id: self.tournament_id@,
                owner_id: self.owner_id@,
                access_nft_contract: opt_str_view(self.access_nft_contract),
                players_number: self.players_total,
                price: self.price,
                started_at: self.started_at,
                ended_at: self.ended_at,
                created_at: self.created_at,
            },
            metadata: self.metadata@,
            players_current: self.players_current,
        }
    }
}

/// The arguments a fungible token contract passes along with a transfer to
/// the factory.
pub struct TournamentOnFtTransferArgs {
    pub tournament_id: TournamentId,
    pub owner_id: AccountId,
    pub place: Option<u8>,
    pub prize_id: Option<PrizeId>,
}

/// The arguments an NFT contract passes along with a transfer to the factory.
pub struct TournamentOnNftTransferArgs {
    pub tournament_id: TournamentId,
    pub owner_id: AccountId,
    pub place: Option<WinnerPlace>,
    pub prize_id: Option<PrizeId>,
}

/// A prize put up for a place: NEAR, a fungible token amount, or an NFT.
pub enum RewardPrize {
    Near { amount: u128, owner_id: Option<AccountId> },
    Ft { ft_contract_id: AccountId, amount: u128, owner_id: Option<AccountId> },
    Nft { nft_contract_id: AccountId, token_id: TokenId, owner_id: Option<AccountId> },
}

pub enum PrizeView {
    Near { amount: u128, owner_id: Option<Seq<char>> },
    Ft { ft_contract_id: Seq<char>, amount: u128, owner_id: Option<Seq<char>> },
    Nft { nft_contract_id: Seq<char>, token_id: Seq<char>, owner_id: Option<Seq<char>> },
}

impl View for RewardPrize {
    type V = PrizeView;

    open spec fn view(&self) -> PrizeView {
        match self {
            RewardPrize::Near { amount, owner_id } => PrizeView::Near {
                amount: *amount,
                owner_id: opt_str_view(*owner_id),
            },
            RewardPrize::Ft { ft_contract_id, amount, owner_id } => PrizeView::Ft {
                ft_contract_id: ft_contract_id@,
                amount: *amount,
                owner_id: opt_str_view(*owner_id),
            },
            RewardPrize::Nft { nft_contract_id, token_id, owner_id } => PrizeView::Nft {
                nft_contract_id: nft_contract_id@,
                token_id: token_id@,
                owner_id: opt_str_view(*owner_id),
            },
        }
    }
}

impl RewardPrize {
    pub fn duplicate(&self) -> (r: Self)
        ensures
            r@ == self@,
    {
        match self {
            RewardPrize::Near { amount, owner_id } => RewardPrize::Near {
                amount: *amount,
                owner_id: clone_opt_str(owner_id),
            },
            RewardPrize::Ft { ft_contract_id, amount, owner_id } => RewardPrize::Ft {
                ft_contract_id: ft_contract_id.clone(),
                amount: *amount,
                owner_id: clone_opt_str(owner_id),
            },
            RewardPrize::Nft { nft_contract_id, token_id, owner_id } => RewardPrize::Nft {
                nft_contract_id: nft_contract_id.clone(),
                token_id: token_id.clone(),
                owner_id: clone_opt_str(owner_id),
            },
        }
    }
}

/// A transfer the factory makes.
pub enum TournamentPayout {
    /// Native NEAR to `receiver_id`.
    Near { receiver_id: AccountId, amount: u128 },
    /// A fungible token amount to `receiver_id`, with a memo naming the place.
    Ft { ft_contract_id: AccountId, receiver_id: AccountId, amount: u128, place: u8 },
    /// An NFT to `receiver_id`, with a memo naming the place.
    Nft { nft_contract_id: AccountId, receiver_id: AccountId, token_id: TokenId, place: u8 },
}

pub enum TournamentPayoutView {
    Near { receiver_id: Seq<char>, amount: u128 },
    Ft { ft_contract_id: Seq<char>, receiver_id: Seq<char>, amount: u128, place: u8 },
    Nft { nft_contract_id: Seq<char>, receiver_id: Seq<char>, token_id: Seq<char>, place: u8 },
}

impl View for TournamentPayout {
    type V = TournamentPayoutView;

    open spec fn view(&self) -> TournamentPayoutView {
        match self {
            TournamentPayout::Near { receiver_id, amount } => TournamentPayoutView::Near {
                receiver_id: receiver_id@,
                amount: *amount,
            },
            TournamentPayout::Ft { ft_contract_id, receiver_id, amount, place } =>
                TournamentPayoutView::Ft {
                ft_contract_id: ft_contract_id@,
                receiver_id: receiver_id@,
                amount: *amount,
                place: *place,
            },
            TournamentPayout::Nft { nft_contract_id, receiver_id, token_id, place } =>
                TournamentPayoutView::Nft {
                nft_contract_id: nft_contract_id@,
                receiver_id: receiver_id@,
                token_id: token_id@,
                place: *place,
            },
        }
    }
}

/// Why a tournament request was refused.
#[derive(PartialEq, Eq, Structural, Debug, Clone, Copy)]
pub enum TournamentError {
    WrongDeposit,
    ZeroPrice,
    AlreadyExists,
    NotFound,
    AlreadyStarted,
    NotStarted,
    AlreadyEnded,
    NotOwner,
    NotFilled,
    Unavailable,
    DepositTooSmall,
    AlreadyJoined,
    PrizeTooSmall,
    NoWhitelist,
    NotWhitelisted,
    PlayersNotFound,
    NotMember,
    AlreadyRewarded,
    NoPrizes,
    PrizeNotFound,
    InvalidPlace,
    PrizeIdTaken,
    TooManyPrizes,
    Full,
    InvalidArgs,
    NftAccessUnavailable,
    InvalidContract,
    AccessNotFound,
    InvalidAccess,
    NotHandled,
    OutOfBounds,
    ZeroLimit,
    AccessDenied,
}

impl TournamentError {
    /// The text a contract panics with for this refusal.
    pub fn message(&self) -> (s: &'static str)
        ensures
            s@ == (match self {
                TournamentError::WrongDeposit => "Requires attached deposit of 0.1 NEAR"@,
                TournamentError::ZeroPrice => "Tournaments with zero in prise are not allowed"@,
                TournamentError::AlreadyExists => "Tournament already exists"@,
                TournamentError::NotFound => "Not found tournament"@,
                TournamentError::AlreadyStarted => "Tournament already started"@,
                TournamentError::NotStarted => "Tournament not started"@,
                TournamentError::AlreadyEnded => "Already ended"@,
                TournamentError::NotOwner => "Owner's method"@,
                TournamentError::NotFilled => "Tournament does not filled"@,
                TournamentError::Unavailable => "Unavailable"@,
                TournamentError::DepositTooSmall => "Deposit is too small"@,
                TournamentError::AlreadyJoined => "Already in the tournament"@,
                TournamentError::PrizeTooSmall => "Minimum 1 NEAR"@,
                TournamentError::NoWhitelist => "Not found whitelist"@,
                TournamentError::NotWhitelisted => "Not in whitelist"@,
                TournamentError::PlayersNotFound => "Not found"@,
                TournamentError::NotMember => "Not found member"@,
                TournamentError::AlreadyRewarded => "Already rewarded"@,
                TournamentError::NoPrizes => "Not found prizes"@,
                TournamentError::PrizeNotFound => "Not found"@,
                TournamentError::InvalidPlace => "Invalid place"@,
                TournamentError::PrizeIdTaken => "Prize id already taken"@,
                TournamentError::TooManyPrizes => "Maximum 5 prizes per place"@,
                TournamentError::Full => "Tournament is already full of players"@,
                TournamentError::InvalidArgs => "Invalid args"@,
                TournamentError::NftAccessUnavailable => "Nft access not available"@,
                TournamentError::InvalidContract => "Invalid contract"@,
                TournamentError::AccessNotFound => "Not found Tournament"@,
                TournamentError::InvalidAccess => "Invalid Access"@,
                TournamentError::NotHandled => "not implemented"@,
                TournamentError::OutOfBounds => "Out of bounds, please use a smaller from_index."@,
                TournamentError::ZeroLimit => "Cannot provide limit of 0."@,
                TournamentError::AccessDenied => "Access denied"@,
            }),
    {
        match self {
            TournamentError::WrongDeposit => "Requires attached deposit of 0.1 NEAR",
            TournamentError::ZeroPrice => "Tournaments with zero in prise are not allowed",
            TournamentError::AlreadyExists => "Tournament already exists",
            TournamentError::NotFound => "Not found tournament",
            TournamentError::AlreadyStarted => "Tournament already started",
            TournamentError::NotStarted => "Tournament not started",
            TournamentError::AlreadyEnded => "Already ended",
            TournamentError::NotOwner => "Owner's method",
            TournamentError::NotFilled => "Tournament does not filled",
            TournamentError::Unavailable => "Unavailable",
            TournamentError::DepositTooSmall => "Deposit is too small",
            TournamentError::AlreadyJoined => "Already in the tournament",
            TournamentError::PrizeTooSmall => "Minimum 1 NEAR",
            TournamentError::NoWhitelist => "Not found whitelist",
            TournamentError::NotWhitelisted => "Not in whitelist",
            TournamentError::PlayersNotFound => "Not found",
            TournamentError::NotMember => "Not found member",
            TournamentError::AlreadyRewarded => "Already rewarded",
            TournamentError::NoPrizes => "Not found prizes",
            TournamentError::PrizeNotFound => "Not found",
            TournamentError::InvalidPlace => "Invalid place",
            TournamentError::PrizeIdTaken => "Prize id already taken",
            TournamentError::TooManyPrizes => "Maximum 5 prizes per place",
            TournamentError::Full => "Tournament is already full of players",
            TournamentError::InvalidArgs => "Invalid args",
            TournamentError::NftAccessUnavailable => "Nft access not available",
            TournamentError::InvalidContract => "Invalid contract",
            TournamentError::AccessNotFound => "Not found Tournament",
            TournamentError::InvalidAccess => "Invalid Access",
            TournamentError::NotHandled => "not implemented",
            TournamentError::OutOfBounds => "Out of bounds, please use a smaller from_index.",
            TournamentError::ZeroLimit => "Cannot provide limit of 0.",
            TournamentError::AccessDenied => "Access denied",
        }
    }
}

/// The whole state of a tournament factory as mathematical maps.
#[verifier::ext_equal]
pub struct TournamentState {
    /// The players of each `owner||tournament`, in joining order.
    pub players: Map<Seq<char>, Seq<Seq<char>>>,
    /// Each tournament by `owner||tournament`.
    pub tournaments: Map<Seq<char>, TournamentView>,
    pub metadata: Map<Seq<char>, MetadataView>,
    /// Each prize by `owner||tournament||place||prize`.
    pub prizes: Map<Seq<char>, PrizeView>,
    /// The prize ids of each place of each tournament.
    pub prizes_by_tournament: Map<Seq<char>, Map<u8, Seq<Seq<char>>>>,
    /// The `owner||tournament||place` ids already rewarded.
    pub rewarded: Seq<Seq<char>>,
    /// The NFT token ids that admit a player, per tournament.
    pub access_nft: Map<Seq<char>, Seq<Seq<char>>>,
    /// The tournament ids each owner created.
    pub by_owner: Map<Seq<char>, Seq<Seq<char>>>,
    /// Who may put up prizes, per tournament.
    pub whitelist: Map<Seq<char>, Seq<Seq<char>>>,
}

} // verus!
