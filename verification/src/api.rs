//! The addresses of the business API and of the language model, and the session
//! token that the API hands out.

use vstd::prelude::*;
use crate::calendar::{chrono_days_before, day_number, first_day, iso_date, iso_date_text, valid_date, CivilDate};
use crate::json::{as_text, deref_opt, get, member, text_of, Json};
use crate::text::{owned, push_str};

verus! {

/// The host of the business API, over HTTPS or plain HTTP.
pub open spec fn base_text(secure: bool) -> Seq<char> {
    if secure {
        "https://global_trade.cr.wk.net.br"@
    } else {
        "http://global_trade.cr.wk.net.br"@
    }
}

fn base(secure: bool) -> (r: String)
    ensures
        r@ == base_text(secure),
{
    if secure {
        owned("https://global_trade.cr.wk.net.br")
    } else {
        owned("http://global_trade.cr.wk.net.br")
    }
}

/// Where a session token is requested.
pub fn token_url(secure: bool) -> (r: String)
    ensures
        r@ == base_text(secure) + "/wk.api/api/v1/token"@,
{
    let mut r = base(secure);
    push_str(&mut r, "/wk.api/api/v1/token");
    r
}

/// The session token of a token reply (`reply["token"]`), where it is a string.
pub fn session_token(reply: &Json) -> (r: Option<String>)
    ensures
        match r {
            Some(t) => text_of(member(*reply, "token"@)) == Some(t@),
            None => text_of(member(*reply, "token"@)) is None,
        },
{
    match as_text(get(reply, "token")) {
        Some(t) => Some(owned(t)),
        None => None,
    }
}

/// The list of products.
pub fn product_list_url(secure: bool) -> (r: String)
    ensures
        r@ == base_text(secure) + "/wk.api/api/empresarial/v1/produto"@,
{
    let mut r = base(secure);
    push_str(&mut r, "/wk.api/api/empresarial/v1/produto");
    r
}

/// One product, by its id.
pub fn product_url(secure: bool, id: &str) -> (r: String)
    ensures
        r@ == base_text(secure) + "/wk.api/api/empresarial/v1/produto/"@ + id@,
{
    let mut r = base(secure);
    push_str(&mut r, "/wk.api/api/empresarial/v1/produto/");
    push_str(&mut r, id);
    r
}

/// The number of days back from today that the invoices are requested for.
pub const INVOICE_DAYS: i64 = 1096;

/// The invoices issued from `INVOICE_DAYS` days before `today` up to `today`.
pub fn invoice_list_url(secure: bool, today: CivilDate) -> (r: String)
    requires
        valid_date(today),
        day_number(today) - INVOICE_DAYS >= first_day(),
    ensures
        exists|start: CivilDate|
            {
                &&& valid_date(start)
                &&& day_number(start) == day_number(today) - INVOICE_DAYS
                &&& r@ == base_text(secure) + "/wk.api/api/comercial/v1/nota-fiscal?DataEmissaoInicial="@
                    + iso_date_text(start) + "&DataEmissaoFinal="@ + iso_date_text(today)
            },
{
    proof {
        assert(day_number(today) <= crate::calendar::last_day()) by {
            crate::calendar::lemma_valid_day_bounds(today);
        }
    }
    let start = chrono_days_before(today, INVOICE_DAYS).unwrap();
    let mut r = base(secure);
    push_str(&mut r, "/wk.api/api/comercial/v1/nota-fiscal?DataEmissaoInicial=");
    push_str(&mut r, iso_date(start).as_str());
    push_str(&mut r, "&DataEmissaoFinal=");
    push_str(&mut r, iso_date(today).as_str());
    r
}

/// The purchase orders that are authorised and still pending.
pub fn purchase_order_url() -> (r: String)
    ensures
        r@ == "http://global_trade.cr.wk.net.br/wk.api/api/compras/v1/ordem-compra?situacaoAutorizacao=Autorizada&situacaoAtendimento=Pendente"@,
{
    owned(
        "http://global_trade.cr.wk.net.br/wk.api/api/compras/v1/ordem-compra?situacaoAutorizacao=Autorizada&situacaoAtendimento=Pendente",
    )
}

/// Where chat completions are requested.
pub fn chat_url() -> (r: String)
    ensures
        r@ == "https://api.openai.com/v1/chat/completions"@,
{
    owned("https://api.openai.com/v1/chat/completions")
}

} // verus!
