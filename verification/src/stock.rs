//! The stock service: the balance request, the balance rows it stores, and the stock
//! report.

use vstd::prelude::*;
use crate::json::{deref_opt, get, get_in, items_of, member, member_of, text_or, text_or_default, Json};
use crate::text::{owned, push_str};

verus! {

/// The address of the balance of products.
pub fn product_balance_url() -> (r: String)
    ensures
        r@ == "http://global_trade.cr.wk.net.br/RadarWebWebServices/Areas/Estoque/Estoque.svc/json/BuscarSaldoProduto"@,
{
    owned(
        "http://global_trade.cr.wk.net.br/RadarWebWebServices/Areas/Estoque/Estoque.svc/json/BuscarSaldoProduto",
    )
}

/// The address of the balance of kits.
pub fn kit_balance_url() -> (r: String)
    ensures
        r@ == "http://global_trade.cr.wk.net.br/RadarWebWebServices/Areas/Estoque/Estoque.svc/json/BuscarSaldoProdutoKit"@,
{
    owned(
        "http://global_trade.cr.wk.net.br/RadarWebWebServices/Areas/Estoque/Estoque.svc/json/BuscarSaldoProdutoKit",
    )
}

/// The headers of a balance request.
pub fn balance_request_headers() -> (r: Vec<(String, String)>)
    ensures
        r@.len() == 4,
        r@[0].0@ == "Content-Type"@ && r@[0].1@ == "application/json"@,
        r@[1].0@ == "Accept"@ && r@[1].1@ == "application/json"@,
        r@[2].0@ == "Accept-Encoding"@ && r@[2].1@ == "gzip, deflate, br"@,
        r@[3].0@ == "Connection"@ && r@[3].1@ == "keep-alive"@,
{
    vec![
        (owned("Content-Type"), owned("application/json")),
        (owned("Accept"), owned("application/json")),
        (owned("Accept-Encoding"), owned("gzip, deflate, br")),
        (owned("Connection"), owned("keep-alive")),
    ]
}

/// `j` is the body of a balance request: the login, and the filter for own stock at
/// location 46.
pub open spec fn is_balance_request(j: Json, login: Json) -> bool {
    &&& j matches Json::Object(fields)
    &&& fields@.len() == 2
    &&& fields@[0].0@ == "login"@ && fields@[0].1 == login
    &&& fields@[1].0@ == "filtro"@
    &&& fields@[1].1 matches Json::Object(filter)
    &&& filter@.len() == 2
    &&& filter@[0].0@ == "EstoqueProprio"@ && filter@[0].1 == Json::Bool(true)
    &&& filter@[1].0@ == "CodigoLocais"@
    &&& filter@[1].1 matches Json::Str(c) && c@ == "46"@
}

/// The body of a balance request for the given login.
pub fn balance_request(login: Json) -> (j: Json)
    ensures
        is_balance_request(j, login),
{
    let filter = Json::Object(
        vec![
            (owned("EstoqueProprio"), Json::Bool(true)),
            (owned("CodigoLocais"), Json::Str(owned("46"))),
        ],
    );
    Json::Object(vec![(owned("login"), login), (owned("filtro"), filter)])
}

/// The balance of one product as the reply gives it.
#[derive(Debug)]
pub struct Balance {
    pub code: String,
    pub available: String,
}

/// `b` is the balance of the reply entry `p`: its code (or empty) and its available
/// quantity (or `"0"`), where they are strings.
pub open spec fn is_balance_of(b: Balance, p: Json) -> bool {
    &&& b.code@ == text_or(member(p, "CodigoProduto"@), ""@)
    &&& b.available@ == text_or(member(p, "QuantidadeDisponivel"@), "0"@)
}

/// The entries of a balance reply.
pub open spec fn balance_entries(reply: Json) -> Seq<Json> {
    match items_of(member_of(member(reply, "BuscarSaldoProdutoResult"@), "QuantidadeDisponivelProdutos"@)) {
        Some(items) => items,
        None => Seq::empty(),
    }
}

/// The balances of a reply, one for each of its entries.
pub fn balances(reply: &Json) -> (r: Vec<Balance>)
    ensures
        r@.len() == balance_entries(*reply).len(),
        forall|i: int| 0 <= i < r@.len() ==> #[trigger] is_balance_of(r@[i], balance_entries(*reply)[i]),
{
    let mut r: Vec<Balance> = Vec::new();
    let list = get_in(get(reply, "BuscarSaldoProdutoResult"), "QuantidadeDisponivelProdutos");
    match list {
        Some(Json::Array(items)) => {
            let mut i: usize = 0;
            while i < items.len()
                invariant
                    balance_entries(*reply) == items@,
                    i <= items@.len(),
                    r@.len() == i,
                    forall|k: int| 0 <= k < i ==> #[trigger] is_balance_of(r@[k], items@[k]),
                decreases items.len() - i,
            {
                let p = &items[i];
                r.push(
                    Balance {
                        code: text_or_default(get(p, "CodigoProduto"), ""),
                        available: text_or_default(get(p, "QuantidadeDisponivel"), "0"),
                    },
                );
                i = i + 1;
            }
        },
        _ => {},
    }
    r
}

/// The name stored with a balance: the product's name, or a notice where the product
/// table has none.
pub fn stored_name(found: Option<String>) -> (r: String)
    ensures
        r@ == (match found {
            Some(n) => n@,
            None => "Nome não encontrado!"@,
        }),
{
    match found {
        Some(n) => n,
        None => owned("Nome não encontrado!"),
    }
}

/// A row of the stock table.
#[derive(Debug)]
pub struct StockRow {
    pub code: String,
    pub available: String,
    pub name: String,
}

/// The text handed to the language model for a stock question: the stored row of the
/// product, where there is one, else the question as it came.
pub open spec fn stock_message_text(row: Option<StockRow>, question: Seq<char>) -> Seq<char> {
    match row {
        Some(r) => "Item em estoque encontrado!\nCódigo do produto: "@ + r.code@ + "\nNome: "@ + r.name@
            + "\nQuantidade disponível: "@ + r.available@,
        None => question,
    }
}

/// The text handed to the language model for a stock question.
pub fn stock_message(row: Option<&StockRow>, question: &str) -> (r: String)
    ensures
        r@ == stock_message_text(
            match row {
                Some(x) => Some(*x),
                None => None,
            },
            question@,
        ),
{
    match row {
        Some(x) => {
            let mut r = owned("Item em estoque encontrado!\nCódigo do produto: ");
            push_str(&mut r, x.code.as_str());
            push_str(&mut r, "\nNome: ");
            push_str(&mut r, x.name.as_str());
            push_str(&mut r, "\nQuantidade disponível: ");
            push_str(&mut r, x.available.as_str());
            r
        },
        None => owned(question),
    }
}

} // verus!
