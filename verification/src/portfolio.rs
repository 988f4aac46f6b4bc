//! Portfolios: named groups with an optional description and theme.

use vstd::prelude::*;
use crate::text::{clone_opt, opt_text, owned};

verus! {

/// Why an operation on portfolios failed.
#[derive(Debug)]
pub enum PortfolioError {
    /// The database reported an error, whose text is carried.
    Database(String),
    PortfolioNotFound,
}

impl PortfolioError {
    /// The message shown for the error.
    pub open spec fn text(self) -> Seq<char> {
        match self {
            PortfolioError::Database(d) => d@,
            PortfolioError::PortfolioNotFound => "Portfolio not found"@,
        }
    }

    /// The message shown for the error: the database's own text, or that
    /// the portfolio was not found.
    pub fn message(&self) -> (r: String)
        ensures
            r@ == self.text(),
    {
        match self {
            PortfolioError::Database(d) => d.clone(),
            PortfolioError::PortfolioNotFound => owned("Portfolio not found"),
        }
    }
}

/// What a portfolio is, as plain values.
pub struct PortfolioView {
    pub id: u128,
    pub name: Seq<char>,
    pub description: Option<Seq<char>>,
    pub theme: Option<Seq<char>>,
    pub created_at: int,
    pub updated_at: int,
}

/// A portfolio.
#[derive(Debug)]
pub struct Portfolio {
    pub id: u128,
    pub name: String,
    pub description: Option<String>,
    pub theme: Option<String>,
    pub created_at: i64,
    pub updated_at: i64,
}

impl View for Portfolio {
    type V = PortfolioView;

    open spec fn view(&self) -> PortfolioView {
        PortfolioView {
            id: self.id,
            name: self.name@,
            description: opt_text(self.description),
            theme: opt_text(self.theme),
            created_at: self.created_at as int,
            updated_at: self.updated_at as int,
        }
    }
}

impl Clone for Portfolio {
    fn clone(&self) -> (r: Self)
        ensures
            r == *self,
    {
        Portfolio {
            id: self.id,
            name: self.name.clone(),
            description: clone_opt(&self.description),
            theme: clone_opt(&self.theme),
            created_at: self.created_at,
            updated_at: self.updated_at,
        }
    }
}

/// What the caller supplies for a new portfolio.
#[derive(Debug)]
pub struct CreatePortfolio {
    pub name: String,
    pub description: Option<String>,
    pub theme: Option<String>,
}

impl Clone for CreatePortfolio {
    fn clone(&self) -> (r: Self)
        ensures
            r == *self,
    {
        CreatePortfolio {
            name: self.name.clone(),
            description: clone_opt(&self.description),
            theme: clone_opt(&self.theme),
        }
    }
}

/// The changes asked of a portfolio: what is not given stays as it is.
#[derive(Debug)]
pub struct UpdatePortfolio {
    pub name: Option<String>,
    pub description: Option<String>,
    pub theme: Option<String>,
}

/// The one of two optional texts that counts: the new one where it is
/// given, else the old one.
pub open spec fn preferred(new: Option<Seq<char>>, old: Option<Seq<char>>) -> Option<Seq<char>> {
    match new {
        Some(_) => new,
        None => old,
    }
}

/// A copy of the one of two optional strings that counts.
fn prefer(new: &Option<String>, old: &Option<String>) -> (r: Option<String>)
    ensures
        opt_text(r) == preferred(opt_text(*new), opt_text(*old)),
{
    match new {
        Some(_) => clone_opt(new),
        None => clone_opt(old),
    }
}

impl UpdatePortfolio {
    /// What `existing` holds once the changes are applied: each of name,
    /// description and theme is the given one, or the existing one where
    /// none is given. A description or a theme can be replaced but not
    /// taken away. Identifier and instants are those of `existing`.
    pub fn apply(&self, existing: &Portfolio) -> (r: Portfolio)
        ensures
            r@ == (PortfolioView {
                id: existing.id,
                name: match self.name {
                    Some(n) => n@,
                    None => existing.name@,
                },
                description: preferred(opt_text(self.description), opt_text(existing.description)),
                theme: preferred(opt_text(self.theme), opt_text(existing.theme)),
                created_at: existing.created_at as int,
                updated_at: existing.updated_at as int,
            }),
    {
        Portfolio {
            id: existing.id,
            name: match &self.name {
                Some(n) => n.clone(),
                None => existing.name.clone(),
            },
            description: prefer(&self.description, &existing.description),
            theme: prefer(&self.theme, &existing.theme),
            created_at: existing.created_at,
            updated_at: existing.updated_at,
        }
    }
}

/// What a lookup found, or `PortfolioNotFound` where it found nothing.
pub fn found<T>(portfolio: Option<T>) -> (r: Result<T, PortfolioError>)
    ensures
        portfolio matches Some(p) ==> r == Ok::<T, PortfolioError>(p),
        portfolio is None ==> r is Err && r->Err_0 is PortfolioNotFound,
{
    match portfolio {
        Some(p) => Ok(p),
        None => Err(PortfolioError::PortfolioNotFound),
    }
}

/// What a deletion that removed `rows` rows means: `PortfolioNotFound`
/// where it removed none.
pub fn deleted(rows: u64) -> (r: Result<(), PortfolioError>)
    ensures
        rows > 0 ==> r is Ok,
        rows == 0 ==> r is Err && r->Err_0 is PortfolioNotFound,
{
    if rows == 0 {
        Err(PortfolioError::PortfolioNotFound)
    } else {
        Ok(())
    }
}

} // verus!
