//! Why a command was refused.
use vstd::prelude::*;
use vstd::string::*;
use crate::state::{GamePhase, phase_name};

verus! {

/// A refused command; the game state is left as it was.
#[derive(Clone, Debug, PartialEq, Eq)]
pub enum GameError {
    NotYourTurn,
    CurrentPlayerNotFound,
    InvalidPhase { expected: GamePhase, actual: GamePhase },
    PlayerNotFound,
    NotAProperty,
    PropertyNotFound,
    PropertyAlreadyOwned,
    InsufficientFunds,
    PropertyNotOwned,
    OwnProperty,
    NotOwner,
    CannotBuildHere,
    NoMonopoly,
    MaxLevel,
    BuildUnevenly,
    NoHotelsLeft,
    NoHousesLeft,
    NotEnoughMoney,
    NoBuildings,
    SellUnevenly,
    NoHousesForDowngrade,
    NotInJail,
    NoJailCard,
    InitiatorNotFound,
    TargetNotFound,
    InvalidAmount,
    SelfTrade,
    DuplicatePlayer,
    OfferExceedsCash,
    OfferedNotOwned(usize),
    RequestedNotOwned(usize),
    UnknownProperty(usize),
    TradeNotFound,
    DuplicateTrade,
    NotTradeTarget,
    NotTradeInitiator,
    InitiatorLacksCash,
    TargetLacksCash,
    InitiatorLostProperty,
    TargetLostProperty,
    AlreadyMortgaged,
    NotMortgaged,
    HasBuildings,
}

/// Reason shown for error `e`, for the errors that carry no tile id.
pub open spec fn error_text(e: GameError) -> Seq<char> {
    match e {
        GameError::NotYourTurn => "Not your turn"@,
        GameError::CurrentPlayerNotFound => "Current player not found"@,
        GameError::PlayerNotFound => "Player not found"@,
        GameError::NotAProperty => "Not a property"@,
        GameError::PropertyNotFound => "Property not found"@,
        GameError::PropertyAlreadyOwned => "Property already owned"@,
        GameError::InsufficientFunds => "Insufficient funds"@,
        GameError::PropertyNotOwned => "Property not owned"@,
        GameError::OwnProperty => "You own this property"@,
        GameError::NotOwner => "You do not own this property"@,
        GameError::CannotBuildHere => "Cannot build on railroads or utilities"@,
        GameError::NoMonopoly => "You must own the monopoly to build"@,
        GameError::MaxLevel => "Already at max level (Hotel)"@,
        GameError::BuildUnevenly => "Must build evenly"@,
        GameError::NoHotelsLeft => "No hotels left in bank"@,
        GameError::NoHousesLeft => "No houses left in bank"@,
        GameError::NotEnoughMoney => "Not enough money"@,
        GameError::NoBuildings => "No buildings to sell"@,
        GameError::SellUnevenly => "Must sell evenly"@,
        GameError::NoHousesForDowngrade => "Not enough houses in bank to downgrade hotel"@,
        GameError::NotInJail => "Player is not in jail"@,
        GameError::NoJailCard => "You do not have a Get Out of Jail Free card"@,
        GameError::InitiatorNotFound => "Initiator not found"@,
        GameError::TargetNotFound => "Target player not found"@,
        GameError::InvalidAmount => "Trade amounts cannot be negative"@,
        GameError::SelfTrade => "Cannot trade with yourself"@,
        GameError::DuplicatePlayer => "Two players share an id"@,
        GameError::OfferExceedsCash => "Not enough money to offer"@,
        GameError::TradeNotFound => "Trade not found"@,
        GameError::DuplicateTrade => "Trade id already in use"@,
        GameError::NotTradeTarget => "You are not the target of this trade"@,
        GameError::NotTradeInitiator => "You are not the initiator of this trade"@,
        GameError::InitiatorLacksCash => "Initiator no longer has enough money"@,
        GameError::TargetLacksCash => "You do not have enough money"@,
        GameError::InitiatorLostProperty => "Initiator no longer owns offered property"@,
        GameError::TargetLostProperty => "You no longer own requested property"@,
        GameError::AlreadyMortgaged => "Property is already mortgaged"@,
        GameError::NotMortgaged => "Property is not mortgaged"@,
        GameError::HasBuildings => "Sell all buildings before mortgaging"@,
        GameError::InvalidPhase { expected, actual } => "Invalid phase. Expected "@ + phase_name(expected) + ", got "@
            + phase_name(actual),
        _ => Seq::empty(),
    }
}

impl GameError {
    /// Human-readable reason, as shown to the player.
    pub fn message(&self) -> (r: String)
        ensures
            !(*self is OfferedNotOwned || *self is RequestedNotOwned || *self is UnknownProperty) ==> r@ == error_text(*self),
            *self is OfferedNotOwned ==> exists|d: Seq<char>| r@ == "You do not own property "@ + d,
            *self is RequestedNotOwned ==> exists|d: Seq<char>| r@ == "Target does not own property "@ + d,
            *self is UnknownProperty ==> exists|d: Seq<char>| r@ == "Property "@ + d + " not found"@,
    {
        match self {
            GameError::NotYourTurn => String::from_str("Not your turn"),
            GameError::CurrentPlayerNotFound => String::from_str("Current player not found"),
            GameError::InvalidPhase { expected, actual } => {
                let s = String::from_str("Invalid phase. Expected ");
                let s = s.concat(expected.name());
                let s = s.concat(", got ");
                s.concat(actual.name())
            },
            GameError::PlayerNotFound => String::from_str("Player not found"),
            GameError::NotAProperty => String::from_str("Not a property"),
            GameError::PropertyNotFound => String::from_str("Property not found"),
            GameError::PropertyAlreadyOwned => String::from_str("Property already owned"),
            GameError::InsufficientFunds => String::from_str("Insufficient funds"),
            GameError::PropertyNotOwned => String::from_str("Property not owned"),
            GameError::OwnProperty => String::from_str("You own this property"),
            GameError::NotOwner => String::from_str("You do not own this property"),
            GameError::CannotBuildHere => String::from_str("Cannot build on railroads or utilities"),
            GameError::NoMonopoly => String::from_str("You must own the monopoly to build"),
            GameError::MaxLevel => String::from_str("Already at max level (Hotel)"),
            GameError::BuildUnevenly => String::from_str("Must build evenly"),
            GameError::NoHotelsLeft => String::from_str("No hotels left in bank"),
            GameError::NoHousesLeft => String::from_str("No houses left in bank"),
            GameError::NotEnoughMoney => String::from_str("Not enough money"),
            GameError::NoBuildings => String::from_str("No buildings to sell"),
            GameError::SellUnevenly => String::from_str("Must sell evenly"),
            GameError::NoHousesForDowngrade => String::from_str("Not enough houses in bank to downgrade hotel"),
            GameError::NotInJail => String::from_str("Player is not in jail"),
            GameError::NoJailCard => String::from_str("You do not have a Get Out of Jail Free card"),
            GameError::InitiatorNotFound => String::from_str("Initiator not found"),
            GameError::TargetNotFound => String::from_str("Target player not found"),
            GameError::InvalidAmount => String::from_str("Trade amounts cannot be negative"),
            GameError::SelfTrade => String::from_str("Cannot trade with yourself"),
            GameError::DuplicatePlayer => String::from_str("Two players share an id"),
            GameError::OfferExceedsCash => String::from_str("Not enough money to offer"),
            GameError::OfferedNotOwned(id) => String::from_str("You do not own property ").concat(id.to_string().as_str()),
            GameError::RequestedNotOwned(id) => String::from_str("Target does not own property ").concat(id.to_string().as_str()),
            GameError::UnknownProperty(id) => String::from_str("Property ").concat(id.to_string().as_str()).concat(" not found"),
            GameError::TradeNotFound => String::from_str("Trade not found"),
            GameError::DuplicateTrade => String::from_str("Trade id already in use"),
            GameError::NotTradeTarget => String::from_str("You are not the target of this trade"),
            GameError::NotTradeInitiator => String::from_str("You are not the initiator of this trade"),
            GameError::InitiatorLacksCash => String::from_str("Initiator no longer has enough money"),
            GameError::TargetLacksCash => String::from_str("You do not have enough money"),
            GameError::InitiatorLostProperty => String::from_str("Initiator no longer owns offered property"),
            GameError::TargetLostProperty => String::from_str("You no longer own requested property"),
            GameError::AlreadyMortgaged => String::from_str("Property is already mortgaged"),
            GameError::NotMortgaged => String::from_str("Property is not mortgaged"),
            GameError::HasBuildings => String::from_str("Sell all buildings before mortgaging"),
        }
    }
}

} // verus!
