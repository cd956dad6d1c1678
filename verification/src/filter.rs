//! Subscription filters: expressions of the node's event query language,
//! held in the canonical form that the RPC library gives them.

use crate::error::InvalidFilter;
use vstd::prelude::*;

verus! {

/// The canonical text of the query that `expr` parses to under the grammar of
/// `tendermint_rpc`, or `None` where the grammar refuses `expr`.
pub uninterp spec fn canonical_filter(expr: Seq<char>) -> Option<Seq<char>>;

/// `tendermint_rpc::Error`, the error of the RPC library, of which nothing is
/// read here: it is only told apart from success.
#[verifier::external_type_specification]
#[verifier::external_body]
pub struct ExRpcError(tendermint_rpc::Error);

/// Parses `expr` with `tendermint_rpc::query::Query::from_str` and renders the
/// query with its `Display` impl, which is the text that the RPC library puts
/// on the wire for it. Believed, not proved: both are functions of the text
/// alone, so the outcome is `canonical_filter(expr@)`; a refused expression
/// gives the library's error.
#[verifier::external_body]
fn canonical_text(expr: &str) -> (r: Result<String, tendermint_rpc::Error>)
    ensures
        match r {
            Ok(text) => canonical_filter(expr@) == Some(text@),
            Err(_) => canonical_filter(expr@) is None,
        },
{
    match expr.parse::<tendermint_rpc::query::Query>() {
        Ok(query) => Ok(query.to_string()),
        Err(e) => Err(e),
    }
}

/// A filter that the query grammar has accepted, in canonical form.
#[derive(Debug, PartialEq, Eq)]
pub struct Filter {
    text: String,
}

impl View for Filter {
    type V = Seq<char>;

    closed spec fn view(&self) -> Seq<char> {
        self.text@
    }
}

/// What parsing made of an expression: the canonical text of the filter, if
/// there is one.
pub open spec fn parsed_view(parsed: Result<Filter, InvalidFilter>) -> Option<Seq<char>> {
    match parsed {
        Ok(filter) => Some(filter@),
        Err(_) => None,
    }
}

impl Filter {
    /// Parses a filter expression. Succeeds exactly where the grammar accepts
    /// the expression, and then holds its canonical text.
    pub fn parse(expr: &str) -> (r: Result<Filter, InvalidFilter>)
        ensures
            parsed_view(r) == canonical_filter(expr@),
    {
        match canonical_text(expr) {
            Ok(text) => Ok(Filter { text }),
            Err(_) => Err(InvalidFilter),
        }
    }

    /// The canonical text of the filter.
    pub fn text(&self) -> (text: &str)
        ensures
            text@ == self@,
    {
        self.text.as_str()
    }

    /// Whether `text` is the canonical text of the filter.
    pub fn has_text(&self, text: &String) -> (same: bool)
        ensures
            same == (self@ == text@),
    {
        self.text == *text
    }
}

} // verus!
