//! The prices as the provider reports them.
//!
//! The records are generic in `A`, the type of an amount of money: nothing
//! here computes with an amount, it is only carried to whoever draws it.

use crate::view::Day;
use vstd::prelude::*;

verus! {

/// The price of one hour.
#[derive(Debug, Clone)]
pub struct Price<A> {
    /// What the hour costs, all included.
    pub total: A,
    /// The part of it that pays for the energy.
    pub energy: A,
    /// When the hour starts, as the provider writes it.
    pub starts_at: String,
}

/// The prices of a home at the time of asking: the hour that runs, and the
/// hours of today and of tomorrow in the provider's order.
#[derive(Debug)]
pub struct PriceInfo<A> {
    pub current: Price<A>,
    pub today: Vec<Price<A>>,
    pub tomorrow: Vec<Price<A>>,
}

/// The subscription of a home.
#[derive(Debug)]
pub struct Subscription<A> {
    pub price_info: PriceInfo<A>,
}

/// A home of the account.
#[derive(Debug)]
pub struct Home<A> {
    pub current_subscription: Subscription<A>,
}

/// The account, seen for its prices.
#[derive(Debug)]
pub struct PriceViewer<A> {
    pub homes: Vec<Home<A>>,
}

/// The payload of an answer.
#[derive(Debug)]
pub struct Data<T> {
    pub viewer: T,
}

/// An answer of the provider.
#[derive(Debug)]
pub struct ApiResponse<T> {
    pub data: Data<T>,
}

/// The totals of a series of hours, in its order.
pub open spec fn totals_of<A>(series: Seq<Price<A>>) -> Seq<A> {
    Seq::new(series.len(), |i: int| series[i].total)
}

impl<A> PriceInfo<A> {
    /// The hours of `day`.
    pub open spec fn series_of(self, day: Day) -> Vec<Price<A>> {
        match day {
            Day::Today => self.today,
            Day::Tomorrow => self.tomorrow,
        }
    }

    /// The hours of `day`.
    pub fn series(&self, day: Day) -> (series: &Vec<Price<A>>)
        ensures
            *series == self.series_of(day),
    {
        match day {
            Day::Today => &self.today,
            Day::Tomorrow => &self.tomorrow,
        }
    }
}

impl<A> PriceViewer<A> {
    /// The prices of the first home, if the account has a home.
    pub open spec fn first_of(self) -> Option<PriceInfo<A>> {
        if self.homes@.len() == 0 {
            None
        } else {
            Some(self.homes@[0].current_subscription.price_info)
        }
    }

    /// The prices of the first home; nothing if the account has no home.
    pub fn first_price_info(&self) -> (found: Option<&PriceInfo<A>>)
        ensures
            found.is_some() <==> self.homes@.len() > 0,
            match found {
                Some(info) => Some(*info) == self.first_of(),
                None => self.first_of().is_none(),
            },
    {
        if self.homes.len() == 0 {
            None
        } else {
            Some(&self.homes[0].current_subscription.price_info)
        }
    }
}

impl<A> ApiResponse<PriceViewer<A>> {
    /// The prices that an answer holds for the first home of the account.
    pub fn first_price_info(&self) -> (found: Option<&PriceInfo<A>>)
        ensures
            found.is_some() <==> self.data.viewer.homes@.len() > 0,
            match found {
                Some(info) => Some(*info) == self.data.viewer.first_of(),
                None => self.data.viewer.first_of().is_none(),
            },
    {
        self.data.viewer.first_price_info()
    }
}

/// What each of `amounts` refers to.
pub open spec fn referred<A>(amounts: Seq<&A>) -> Seq<A> {
    Seq::new(amounts.len(), |i: int| *amounts[i])
}

/// The totals of a series of hours, in its order: what a chart of it draws.
pub fn totals<A>(series: &Vec<Price<A>>) -> (amounts: Vec<&A>)
    ensures
        referred(amounts@) == totals_of(series@),
{
    let mut amounts: Vec<&A> = Vec::new();
    let mut i: usize = 0;
    while i < series.len()
        invariant
            i <= series.len(),
            amounts@.len() == i,
            forall|j: int| 0 <= j < i ==> *(#[trigger] amounts@[j]) == series@[j].total,
        decreases series.len() - i,
    {
        amounts.push(&series[i].total);
        i = i + 1;
    }
    assert(referred(amounts@) =~= totals_of(series@));
    amounts
}

/// A series and its totals have the same length, and the total of each hour
/// stands where the hour does.
pub proof fn lemma_totals_keep_order<A>(series: Seq<Price<A>>, i: int)
    requires
        0 <= i < series.len(),
    ensures
        totals_of(series).len() == series.len(),
        totals_of(series)[i] == series[i].total,
{
}

} // verus!
