//! What a client can subscribe to.

use vstd::prelude::*;
use vstd::string::StringExecFns;

verus! {

/// The target of a subscription.
#[derive(Clone, Debug, PartialEq, Eq)]
pub enum Stock {
    /// Every symbol.
    All,
    /// One symbol.
    Symbol(String),
}

/// A kind of message together with the stocks it is wanted for.
#[derive(Clone, Debug, PartialEq, Eq)]
pub enum Subscription {
    /// Aggregates per second.
    SecondAggregates(Stock),
    /// Aggregates per minute.
    MinuteAggregates(Stock),
    /// Trades.
    Trades(Stock),
    /// Quotes.
    Quotes(Stock),
}

impl Stock {
    /// The symbol as the service wants it: `*` stands for all.
    pub open spec fn spec_text(self) -> Seq<char> {
        match self {
            Stock::All => "*"@,
            Stock::Symbol(symbol) => symbol@,
        }
    }

    /// The symbol as the service wants it: `*` stands for all.
    pub fn to_string(&self) -> (text: String)
        ensures
            text@ == self.spec_text(),
    {
        match self {
            Stock::All => String::from_str("*"),
            Stock::Symbol(symbol) => symbol.clone(),
        }
    }
}

impl Subscription {
    /// The code of the message kind.
    pub open spec fn spec_kind(self) -> Seq<char> {
        match self {
            Subscription::SecondAggregates(_) => "A"@,
            Subscription::MinuteAggregates(_) => "AM"@,
            Subscription::Trades(_) => "T"@,
            Subscription::Quotes(_) => "Q"@,
        }
    }

    /// The stocks that the subscription is for.
    pub open spec fn spec_stock(self) -> Stock {
        match self {
            Subscription::SecondAggregates(stock) => stock,
            Subscription::MinuteAggregates(stock) => stock,
            Subscription::Trades(stock) => stock,
            Subscription::Quotes(stock) => stock,
        }
    }

    /// The subscription as a request parameter: the kind's code, a dot
    /// and the symbol.
    pub open spec fn spec_text(self) -> Seq<char> {
        self.spec_kind() + "."@ + self.spec_stock().spec_text()
    }

    /// The subscription as a request parameter: the kind's code, a dot
    /// and the symbol.
    pub fn to_string(&self) -> (text: String)
        ensures
            text@ == self.spec_text(),
    {
        let (kind, stock) = match self {
            Subscription::SecondAggregates(stock) => ("A", stock),
            Subscription::MinuteAggregates(stock) => ("AM", stock),
            Subscription::Trades(stock) => ("T", stock),
            Subscription::Quotes(stock) => ("Q", stock),
        };
        let mut text = String::from_str(kind);
        text.append(".");
        let symbol = stock.to_string();
        text.append(symbol.as_str());
        text
    }
}

} // verus!
