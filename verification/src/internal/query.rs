//! Query strings of content listings: one pair per control that is set,
//! none for one that is not.

use crate::models::content::ContentParams;
use vstd::prelude::*;
use vstd::string::*;

verus! {

/// The character of a decimal digit.
pub open spec fn digit_char(d: nat) -> char
    recommends
        d < 10,
{
    if d == 0 {
        '0'
    } else if d == 1 {
        '1'
    } else if d == 2 {
        '2'
    } else if d == 3 {
        '3'
    } else if d == 4 {
        '4'
    } else if d == 5 {
        '5'
    } else if d == 6 {
        '6'
    } else if d == 7 {
        '7'
    } else if d == 8 {
        '8'
    } else {
        '9'
    }
}

/// A number in decimal notation, without leading zeros.
pub open spec fn decimal_text(n: nat) -> Seq<char>
    decreases n,
{
    if n < 10 {
        seq![digit_char(n)]
    } else {
        decimal_text(n / 10).push(digit_char(n % 10))
    }
}

/// The names and values of a query, in the order in which they are sent.
pub type QueryText = Seq<(Seq<char>, Seq<char>)>;

/// The pair of a numeric control, if it is set.
pub open spec fn number_field(name: Seq<char>, value: Option<u64>) -> QueryText {
    match value {
        Some(n) => seq![(name, decimal_text(n as nat))],
        None => seq![],
    }
}

/// The pair of a textual control, if it is set.
pub open spec fn text_field(name: Seq<char>, value: Option<String>) -> QueryText {
    match value {
        Some(text) => seq![(name, text@)],
        None => seq![],
    }
}

/// The query of a content listing: `page`, `per_page` and `strategy`, in
/// this order, each only if it is set.
pub open spec fn query_of(params: ContentParams) -> QueryText {
    number_field("page"@, params.page) + number_field("per_page"@, params.per_page) + text_field(
        "strategy"@,
        params.strategy,
    )
}

/// The text of each name and value of a list of pairs.
pub open spec fn pairs_text(pairs: Seq<(String, String)>) -> QueryText {
    Seq::new(pairs.len(), |i: int| (pairs[i].0@, pairs[i].1@))
}

/// The number of controls that are set.
pub open spec fn set_count(params: ContentParams) -> nat {
    let page: nat = if params.page is Some { 1 } else { 0 };
    let per_page: nat = if params.per_page is Some { 1 } else { 0 };
    let strategy: nat = if params.strategy is Some { 1 } else { 0 };
    page + per_page + strategy
}

/// Tells whether a query has a pair under `name`.
pub open spec fn has_field(query: QueryText, name: Seq<char>) -> bool {
    exists|i: int| 0 <= i < query.len() && (#[trigger] query[i]).0 == name
}

/// The names of the three controls differ from each other.
pub proof fn lemma_field_names_differ()
    ensures
        "page"@ != "per_page"@,
        "page"@ != "strategy"@,
        "per_page"@ != "strategy"@,
{
    reveal_strlit("page");
    reveal_strlit("per_page");
    reveal_strlit("strategy");
    assert("page"@.len() == 4);
    assert("per_page"@.len() == 8);
    assert("strategy"@.len() == 8);
    assert("per_page"@[0] == 'p');
    assert("strategy"@[0] == 's');
}

/// A query holds the controls that are set and no others: it has as many
/// pairs as controls are set, a pair under a control's name exactly when
/// that control is set, and every pair carries the value of its control.
pub proof fn lemma_query_holds_only_set_fields(params: ContentParams)
    ensures
        query_of(params).len() == set_count(params),
        has_field(query_of(params), "page"@) <==> params.page is Some,
        has_field(query_of(params), "per_page"@) <==> params.per_page is Some,
        has_field(query_of(params), "strategy"@) <==> params.strategy is Some,
        forall|i: int|
            0 <= i < query_of(params).len() ==> {
                let pair = #[trigger] query_of(params)[i];
                ||| params.page is Some && pair == ("page"@, decimal_text(params.page->0 as nat))
                ||| params.per_page is Some && pair == (
                    "per_page"@,
                    decimal_text(params.per_page->0 as nat),
                )
                ||| params.strategy is Some && pair == ("strategy"@, params.strategy->0@)
            },
{
    lemma_field_names_differ();
    let query = query_of(params);
    let first = number_field("page"@, params.page);
    let second = number_field("per_page"@, params.per_page);
    let third = text_field("strategy"@, params.strategy);
    assert(query == first + second + third);
    if params.page is Some {
        assert(query[0].0 == "page"@);
    }
    if params.per_page is Some {
        assert(query[first.len() as int].0 == "per_page"@);
    }
    if params.strategy is Some {
        assert(query[(first.len() + second.len()) as int].0 == "strategy"@);
    }
}

fn digit_str(d: u64) -> (text: &'static str)
    requires
        d < 10,
    ensures
        text@ == seq![digit_char(d as nat)],
{
    proof {
        reveal_strlit("0");
        reveal_strlit("1");
        reveal_strlit("2");
        reveal_strlit("3");
        reveal_strlit("4");
        reveal_strlit("5");
        reveal_strlit("6");
        reveal_strlit("7");
        reveal_strlit("8");
        reveal_strlit("9");
    }
    let text = if d == 0 {
        "0"
    } else if d == 1 {
        "1"
    } else if d == 2 {
        "2"
    } else if d == 3 {
        "3"
    } else if d == 4 {
        "4"
    } else if d == 5 {
        "5"
    } else if d == 6 {
        "6"
    } else if d == 7 {
        "7"
    } else if d == 8 {
        "8"
    } else {
        "9"
    };
    assert(text@ =~= seq![digit_char(d as nat)]);
    text
}

/// Writes a number in decimal notation.
pub fn decimal(n: u64) -> (text: String)
    ensures
        text@ == decimal_text(n as nat),
    decreases n,
{
    if n < 10 {
        digit_str(n).to_owned()
    } else {
        let mut text = decimal(n / 10);
        text.append(digit_str(n % 10));
        assert(text@ =~= decimal_text(n as nat));
        text
    }
}

/// Lists the pairs of a query: the controls that are set, and only those.
pub fn query_pairs(params: &ContentParams) -> (pairs: Vec<(String, String)>)
    ensures
        pairs_text(pairs@) == query_of(*params),
{
    let mut pairs: Vec<(String, String)> = Vec::new();
    if let Some(page) = params.page {
        pairs.push(("page".to_owned(), decimal(page)));
    }
    if let Some(per_page) = params.per_page {
        pairs.push(("per_page".to_owned(), decimal(per_page)));
    }
    if let Some(strategy) = &params.strategy {
        pairs.push(("strategy".to_owned(), strategy.clone()));
    }
    assert(pairs_text(pairs@) =~= query_of(*params));
    pairs
}

} // verus!
