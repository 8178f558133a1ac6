//! Identifiers built from account and token names, and decimal rendering of
//! numbers.
use vstd::prelude::*;
use vstd::string::StringExecFns;

verus! {

pub type AccountId = String;

pub type TokenId = String;

/// The separator placed between the parts of a compound identifier.
pub open spec fn delimiter() -> Seq<char> {
    seq!['|', '|']
}

/// `a`, the separator, then `b`.
pub open spec fn spec_join(a: Seq<char>, b: Seq<char>) -> Seq<char> {
    a + delimiter() + b
}

/// Appends the separator and `b` to `a`.
pub fn join_id(a: &String, b: &String) -> (r: String)
    ensures
        r@ == spec_join(a@, b@),
{
    let mut r = a.clone();
    let sep = "||";
    proof {
        reveal_strlit("||");
    }
    r.append(sep);
    r.append(b.as_str());
    assert(r@ =~= spec_join(a@, b@));
    r
}

/// The key of an NFT in a given contract: `contract_id||token_id`.
pub fn contract_token_id(contract_id: &AccountId, token_id: &String) -> (r: String)
    ensures
        r@ == spec_join(contract_id@, token_id@),
{
    join_id(contract_id, token_id)
}

/// The account name that stands for the native NEAR token.
pub open spec fn spec_near_ft() -> Seq<char> {
    seq!['n', 'e', 'a', 'r']
}

pub fn near_ft() -> (r: AccountId)
    ensures
        r@ == spec_near_ft(),
{
    let s = "near";
    proof {
        reveal_strlit("near");
    }
    let r = String::from_str(s);
    assert(r@ =~= spec_near_ft());
    r
}

/// The digit character for `d < 10`.
pub open spec fn digit_char(d: nat) -> char {
    if d == 0 {
        '0'
    } else if d == 1 {
        '1'
    } else if d == 2 {
        '2'
    } else if d == 3 {
        '3'
    } else if d == 4 {
        '4'
    } else if d == 5 {
        '5'
    } else if d == 6 {
        '6'
    } else if d == 7 {
        '7'
    } else if d == 8 {
        '8'
    } else {
        '9'
    }
}

/// The decimal rendering of `n`, most significant digit first, no leading zeros.
pub open spec fn decimal(n: nat) -> Seq<char>
    decreases n,
{
    if n < 10 {
        seq![digit_char(n)]
    } else {
        decimal(n / 10).push(digit_char(n % 10))
    }
}

fn digit_str(d: u64) -> (s: &'static str)
    requires
        d < 10,
    ensures
        s@ == seq![digit_char(d as nat)],
{
    proof {
        reveal_strlit("0");
        reveal_strlit("1");
        reveal_strlit("2");
        reveal_strlit("3");
        reveal_strlit("4");
        reveal_strlit("5");
        reveal_strlit("6");
        reveal_strlit("7");
        reveal_strlit("8");
        reveal_strlit("9");
    }
    let s = if d == 0 {
        "0"
    } else if d == 1 {
        "1"
    } else if d == 2 {
        "2"
    } else if d == 3 {
        "3"
    } else if d == 4 {
        "4"
    } else if d == 5 {
        "5"
    } else if d == 6 {
        "6"
    } else if d == 7 {
        "7"
    } else if d == 8 {
        "8"
    } else {
        "9"
    };
    assert(s@ =~= seq![digit_char(d as nat)]);
    s
}

/// The decimal text of `n`, as `n.to_string()` writes it.
pub fn u64_to_decimal(n: u64) -> (s: String)
    ensures
        s@ == decimal(n as nat),
    decreases n,
{
    if n < 10 {
        String::from_str(digit_str(n))
    } else {
        let mut s = u64_to_decimal(n / 10);
        s.append(digit_str(n % 10));
        assert(s@ =~= decimal(n as nat));
        s
    }
}

/// The fee some calls require, in yoctoNEAR (0.01 NEAR).
pub const PRICE: u128 = 10000000000000000000000;

/// Why a call's attached deposit was refused.
#[derive(PartialEq, Eq, Structural, Debug, Clone, Copy)]
pub enum DepositError {
    WrongFee,
    NoYocto,
}

impl DepositError {
    pub fn message(&self) -> (s: &'static str)
        ensures
            s@ == (match self {
                DepositError::WrongFee => "Requires attached deposit of 0.01 NEAR"@,
                DepositError::NoYocto => "Requires attached deposit of at least 1 yoctoNEAR"@,
            }),
    {
        match self {
            DepositError::WrongFee => "Requires attached deposit of 0.01 NEAR",
            DepositError::NoYocto => "Requires attached deposit of at least 1 yoctoNEAR",
        }
    }
}

/// Refuses unless exactly the fee is attached.
pub fn assert_tx_money(deposit: u128) -> (r: Result<(), DepositError>)
    ensures
        r is Ok <==> deposit == PRICE,
        r is Err ==> r->Err_0 == DepositError::WrongFee,
{
    if deposit == PRICE {
        Ok(())
    } else {
        Err(DepositError::WrongFee)
    }
}

/// Refuses unless at least one yoctoNEAR is attached.
pub fn assert_at_least_one_yocto(deposit: u128) -> (r: Result<(), DepositError>)
    ensures
        r is Ok <==> deposit >= 1,
        r is Err ==> r->Err_0 == DepositError::NoYocto,
{
    if deposit >= 1 {
        Ok(())
    } else {
        Err(DepositError::NoYocto)
    }
}

} // verus!
