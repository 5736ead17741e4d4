//! The invoice services: the invoice, item and product rows taken from the records of
//! the API, and the invoice report.

use vstd::prelude::*;
use crate::calendar::{
    br_date, br_date_text, chrono_date_time_parse, chrono_parse_date_time, chrono_parse_rfc3339_utc,
    chrono_rfc3339_utc, unix_epoch, CivilDateTime,
};
use crate::json::{
    as_int, as_items, as_text, at, deref_opt, element_of, get, get_in, int_of, items_of, member, member_of,
    number_text, number_text_or_zero, text_of, text_or, text_or_default, Json,
};
use crate::text::{amount_text, decimal, decimal_i64, owned, push_amount, push_str, str_eq};

verus! {

/// An invoice as the invoice table stores it.
#[derive(Debug)]
pub struct InvoiceRow {
    /// The access key.
    pub key: String,
    /// The branch of the first apportionment.
    pub branch_id: String,
    /// `Entrada` or `Saída`.
    pub kind: String,
    pub issued: Option<CivilDateTime>,
    pub moved: CivilDateTime,
    pub number: String,
    pub client_code: String,
    pub client_name: String,
}

/// The format of the dates of the records.
pub open spec fn record_date_format() -> Seq<char> {
    "%Y-%m-%dT%H:%M:%S"@
}

/// The start of the Unix epoch, the date stored where a record's date does not parse.
pub open spec fn epoch() -> CivilDateTime {
    CivilDateTime {
        date: crate::calendar::CivilDate { year: 1970, month: 1, day: 1 },
        hour: 0,
        minute: 0,
        second: 0,
        nanosecond: 0,
    }
}

/// `Entrada` for an incoming invoice; every other type is stored as `Saída`.
pub open spec fn kind_text(api_kind: Seq<char>) -> Seq<char> {
    if api_kind == "Entrada"@ {
        "Entrada"@
    } else {
        "Saída"@
    }
}

/// A date of a record in the format of the records, or the epoch.
pub open spec fn record_date_or_epoch(text: Seq<char>) -> CivilDateTime {
    match chrono_date_time_parse(text, record_date_format()) {
        Some(t) => t,
        None => epoch(),
    }
}

/// The fields that the two invoice services take alike from a record.
pub open spec fn common_invoice_fields(r: InvoiceRow, nota: Json) -> bool {
    &&& r.key@ == text_or(member(nota, "chave"@), ""@)
    &&& r.branch_id@ == text_or(
        member_of(element_of(member(nota, "rateios"@), 0), "idFilial"@),
        ""@,
    )
    &&& r.kind@ == kind_text(text_or(member(nota, "tipo"@), ""@))
    &&& r.number@ == decimal(
        match int_of(member(nota, "numero"@)) {
            Some(n) => n as int,
            None => 0,
        },
    )
    &&& r.client_code@ == text_or(member(nota, "idClienteFornecedor"@), ""@)
    &&& r.client_name@ == text_or(member_of(member(nota, "localEntrega"@), "nome"@), ""@)
}

/// `r` is the row of the invoice record `nota`: both dates read in the format of the
/// records, the epoch where they do not parse.
pub open spec fn is_invoice_row(r: InvoiceRow, nota: Json) -> bool {
    &&& common_invoice_fields(r, nota)
    &&& r.issued == Some(record_date_or_epoch(text_or(member(nota, "dataEmissao"@), ""@)))
    &&& r.moved == record_date_or_epoch(text_or(member(nota, "dataEntradaSaida"@), ""@))
}

/// `r` is the row of the invoice record `nota` as the first invoice service stores it:
/// both dates read as RFC 3339 and taken to UTC; an issue date that does not parse is
/// left out, a movement date that does not parse is the epoch.
pub open spec fn is_rfc3339_invoice_row(r: InvoiceRow, nota: Json) -> bool {
    &&& common_invoice_fields(r, nota)
    &&& r.issued == chrono_rfc3339_utc(text_or(member(nota, "dataEmissao"@), ""@))
    &&& r.moved == match chrono_rfc3339_utc(text_or(member(nota, "dataEntradaSaida"@), ""@)) {
        Some(t) => t,
        None => epoch(),
    }
}

fn kind_of(nota: &Json) -> (r: String)
    ensures
        r@ == kind_text(text_or(member(*nota, "tipo"@), ""@)),
{
    let api_kind = text_or_default(get(nota, "tipo"), "");
    if str_eq(api_kind.as_str(), "Entrada") {
        owned("Entrada")
    } else {
        owned("Saída")
    }
}

fn date_or_epoch(text: &str) -> (t: CivilDateTime)
    ensures
        t == record_date_or_epoch(text@),
{
    match chrono_parse_date_time(text, "%Y-%m-%dT%H:%M:%S") {
        Some(t) => t,
        None => unix_epoch(),
    }
}

fn number_of(nota: &Json) -> (r: String)
    ensures
        r@ == decimal(
            match int_of(member(*nota, "numero"@)) {
                Some(n) => n as int,
                None => 0,
            },
        ),
{
    let n = match as_int(get(nota, "numero")) {
        Some(n) => n,
        None => 0,
    };
    decimal_i64(n)
}

/// The row of an invoice record.
pub fn invoice_row(nota: &Json) -> (r: InvoiceRow)
    ensures
        is_invoice_row(r, *nota),
{
    let issued_text = text_or_default(get(nota, "dataEmissao"), "");
    let moved_text = text_or_default(get(nota, "dataEntradaSaida"), "");
    InvoiceRow {
        key: text_or_default(get(nota, "chave"), ""),
        branch_id: text_or_default(get_in(at(get(nota, "rateios"), 0), "idFilial"), ""),
        kind: kind_of(nota),
        issued: Some(date_or_epoch(issued_text.as_str())),
        moved: date_or_epoch(moved_text.as_str()),
        number: number_of(nota),
        client_code: text_or_default(get(nota, "idClienteFornecedor"), ""),
        client_name: text_or_default(get_in(get(nota, "localEntrega"), "nome"), ""),
    }
}

/// The row of an invoice record as the first invoice service stores it.
pub fn rfc3339_invoice_row(nota: &Json) -> (r: InvoiceRow)
    ensures
        is_rfc3339_invoice_row(r, *nota),
{
    let issued_text = text_or_default(get(nota, "dataEmissao"), "");
    let moved_text = text_or_default(get(nota, "dataEntradaSaida"), "");
    let moved = match chrono_parse_rfc3339_utc(moved_text.as_str()) {
        Some(t) => t,
        None => unix_epoch(),
    };
    InvoiceRow {
        key: text_or_default(get(nota, "chave"), ""),
        branch_id: text_or_default(get_in(at(get(nota, "rateios"), 0), "idFilial"), ""),
        kind: kind_of(nota),
        issued: chrono_parse_rfc3339_utc(issued_text.as_str()),
        moved,
        number: number_of(nota),
        client_code: text_or_default(get(nota, "idClienteFornecedor"), ""),
        client_name: text_or_default(get_in(get(nota, "localEntrega"), "nome"), ""),
    }
}

} // verus!

verus! {

/// An item of an invoice: the product it names and the text of its total value.
#[derive(Debug)]
pub struct InvoiceItem {
    pub product_id: String,
    pub total: String,
}

pub open spec fn item_view(i: InvoiceItem) -> (Seq<char>, Seq<char>) {
    (i.product_id@, i.total@)
}

/// The product that an item record names, where it names one.
pub open spec fn item_product_id(item: Json) -> Option<Seq<char>> {
    text_of(member_of(member(item, "produtoServico"@), "id"@))
}

/// The items of the item records that name a product, in order: the product and the
/// text of the total value (`"0"` where it is not a number).
pub open spec fn item_refs(items: Seq<Json>) -> Seq<(Seq<char>, Seq<char>)>
    decreases items.len(),
{
    if items.len() == 0 {
        Seq::empty()
    } else {
        let rest = item_refs(items.drop_last());
        match item_product_id(items.last()) {
            Some(id) => rest.push((id, number_text_or_zero(member(items.last(), "valorTotal"@)))),
            None => rest,
        }
    }
}

/// The item records of an invoice record.
pub open spec fn item_records(nota: Json) -> Seq<Json> {
    match items_of(member(nota, "itens"@)) {
        Some(items) => items,
        None => Seq::empty(),
    }
}

/// The items of an invoice record that name a product.
pub fn invoice_items(nota: &Json) -> (r: Vec<InvoiceItem>)
    ensures
        r@.map_values(|i: InvoiceItem| item_view(i)) == item_refs(item_records(*nota)),
{
    let mut r: Vec<InvoiceItem> = Vec::new();
    match as_items(get(nota, "itens")) {
        Some(items) => {
            let mut k: usize = 0;
            while k < items.len()
                invariant
                    item_records(*nota) == items@,
                    k <= items@.len(),
                    r@.map_values(|i: InvoiceItem| item_view(i)) == item_refs(items@.subrange(0, k as int)),
                decreases items.len() - k,
            {
                let item = &items[k];
                let ghost prev = r@;
                assert(items@.subrange(0, k + 1).drop_last() =~= items@.subrange(0, k as int));
                assert(items@.subrange(0, k + 1).last() == items@[k as int]);
                match as_text(get_in(get(item, "produtoServico"), "id")) {
                    Some(id) => {
                        r.push(InvoiceItem { product_id: owned(id), total: number_text(get(item, "valorTotal")) });
                        assert(r@.map_values(|i: InvoiceItem| item_view(i)) =~= prev.map_values(|i: InvoiceItem| item_view(i)).push(item_view(r@.last())));
                    },
                    None => {},
                }
                k = k + 1;
            }
            assert(items@.subrange(0, items@.len() as int) =~= items@);
        },
        None => {
            assert(r@.map_values(|i: InvoiceItem| item_view(i)) =~= Seq::empty());
        },
    }
    r
}

/// A product as the product table of the invoices stores it.
#[derive(Debug)]
pub struct InvoiceProduct {
    pub id: String,
    pub code: String,
    pub name: String,
    pub description: String,
    pub kind: String,
    /// The texts of the numbers, `"0"` where a value is not a number.
    pub sale_price: String,
    pub gross_weight: String,
    pub net_weight: String,
    pub classification: String,
    pub reference: String,
    pub gtin: String,
}

/// The fields of a product row read from the product record `p`, all but the code.
pub open spec fn product_fields(r: InvoiceProduct, id: Seq<char>, p: Json) -> bool {
    &&& r.id@ == id
    &&& r.name@ == text_or(member(p, "nome"@), ""@)
    &&& r.description@ == text_or(member(p, "descricao"@), ""@)
    &&& r.kind@ == text_or(member(p, "tipo"@), ""@)
    &&& r.sale_price@ == number_text_or_zero(member(p, "precoVenda"@))
    &&& r.gross_weight@ == number_text_or_zero(member(p, "pesoBruto"@))
    &&& r.net_weight@ == number_text_or_zero(member(p, "pesoLiquido"@))
    &&& r.classification@ == text_or(member(p, "classificacao"@), ""@)
    &&& r.reference@ == text_or(member(p, "referencia"@), ""@)
    &&& r.gtin@ == text_or(member_of(member(p, "complemento"@), "gtin"@), ""@)
}

/// The row of the product `id` from its record, with the code that the record gives.
pub fn invoice_product(id: &str, p: &Json) -> (r: InvoiceProduct)
    ensures
        product_fields(r, id@, *p),
        r.code@ == text_or(member(*p, "codigo"@), ""@),
{
    let code = text_or_default(get(p, "codigo"), "");
    product_row_with_code(id, p, code)
}

/// The row of the product `id` from its record, with the id as its code (as the first
/// invoice service stores it).
pub fn invoice_product_by_id(id: &str, p: &Json) -> (r: InvoiceProduct)
    ensures
        product_fields(r, id@, *p),
        r.code@ == id@,
{
    product_row_with_code(id, p, owned(id))
}

fn product_row_with_code(id: &str, p: &Json, code: String) -> (r: InvoiceProduct)
    ensures
        product_fields(r, id@, *p),
        r.code == code,
{
    InvoiceProduct {
        id: owned(id),
        code,
        name: text_or_default(get(p, "nome"), ""),
        description: text_or_default(get(p, "descricao"), ""),
        kind: text_or_default(get(p, "tipo"), ""),
        sale_price: number_text(get(p, "precoVenda")),
        gross_weight: number_text(get(p, "pesoBruto")),
        net_weight: number_text(get(p, "pesoLiquido")),
        classification: text_or_default(get(p, "classificacao"), ""),
        reference: text_or_default(get(p, "referencia"), ""),
        gtin: text_or_default(get_in(get(p, "complemento"), "gtin"), ""),
    }
}

} // verus!

verus! {

/// An invoice as read back from the invoice table.
#[derive(Debug)]
pub struct StoredInvoice {
    pub key: String,
    pub kind: String,
    pub issued: Option<CivilDateTime>,
    pub moved: CivilDateTime,
    pub client_code: String,
    pub client_name: String,
}

/// An item as read back from the item table: the product and the total, in millionths of
/// a unit.
#[derive(Debug)]
pub struct StoredItem {
    pub product_id: String,
    pub total: i64,
}

/// The report line of one item.
pub open spec fn item_line(i: StoredItem) -> Seq<char> {
    "- Produto: "@ + i.product_id@ + ", Total: "@ + amount_text(i.total as int) + "\n"@
}

/// The report lines of the items, in order.
pub open spec fn item_lines(items: Seq<StoredItem>) -> Seq<char>
    decreases items.len(),
{
    if items.len() == 0 {
        Seq::empty()
    } else {
        item_lines(items.drop_last()) + item_line(items.last())
    }
}

/// A date as the report writes it: `dd/mm/yyyy`, or `N/D` where there is none.
pub open spec fn report_date_text(t: Option<CivilDateTime>) -> Seq<char> {
    match t {
        Some(t) => br_date_text(t.date),
        None => "N/D"@,
    }
}

/// The report of an invoice found under the number `number`.
pub open spec fn invoice_report_text(number: Seq<char>, inv: StoredInvoice, items: Seq<StoredItem>) -> Seq<char> {
    "Nota fiscal encontrada!\nNúmero: "@ + number + "\nTipo: "@ + inv.kind@ + "\nCliente: "@
        + inv.client_name@ + " ("@ + inv.client_code@ + ")\nChave: "@ + inv.key@ + "\nEmissão: "@
        + report_date_text(inv.issued) + "\nSaída: "@ + br_date_text(inv.moved.date) + "\nItens:\n"@
        + item_lines(items)
}

fn item_text(i: &StoredItem) -> (r: String)
    ensures
        r@ == item_line(*i),
{
    let mut r = owned("- Produto: ");
    push_str(&mut r, i.product_id.as_str());
    push_str(&mut r, ", Total: ");
    push_amount(&mut r, i.total as i128);
    push_str(&mut r, "\n");
    r
}

/// The report of an invoice found under the number `number`, with its items.
pub fn invoice_report(number: &str, inv: &StoredInvoice, items: &Vec<StoredItem>) -> (r: String)
    ensures
        r@ == invoice_report_text(number@, *inv, items@),
{
    let mut r = owned("Nota fiscal encontrada!\nNúmero: ");
    push_str(&mut r, number);
    push_str(&mut r, "\nTipo: ");
    push_str(&mut r, inv.kind.as_str());
    push_str(&mut r, "\nCliente: ");
    push_str(&mut r, inv.client_name.as_str());
    push_str(&mut r, " (");
    push_str(&mut r, inv.client_code.as_str());
    push_str(&mut r, ")\nChave: ");
    push_str(&mut r, inv.key.as_str());
    push_str(&mut r, "\nEmissão: ");
    match inv.issued {
        Some(t) => push_str(&mut r, br_date(t.date).as_str()),
        None => push_str(&mut r, "N/D"),
    }
    push_str(&mut r, "\nSaída: ");
    push_str(&mut r, br_date(inv.moved.date).as_str());
    push_str(&mut r, "\nItens:\n");
    let ghost head = r@;
    let mut i: usize = 0;
    while i < items.len()
        invariant
            i <= items@.len(),
            r@ == head + item_lines(items@.subrange(0, i as int)),
        decreases items.len() - i,
    {
        let line = item_text(&items[i]);
        push_str(&mut r, line.as_str());
        assert(items@.subrange(0, i + 1).drop_last() =~= items@.subrange(0, i as int));
        assert(r@ =~= head + item_lines(items@.subrange(0, i + 1)));
        i = i + 1;
    }
    assert(items@.subrange(0, items@.len() as int) =~= items@);
    assert(r@ =~= invoice_report_text(number@, *inv, items@));
    r
}

/// The text handed to the language model for an invoice question: the report of the
/// invoice stored under `number`, with its items, where there is one, else the question
/// as it came.
pub open spec fn invoice_message_text(number: Seq<char>, found: Option<StoredInvoice>, items: Seq<StoredItem>, question: Seq<char>) -> Seq<char> {
    match found {
        Some(inv) => invoice_report_text(number, inv, items),
        None => question,
    }
}

/// The text handed to the language model for an invoice question.
pub fn invoice_message(number: &str, found: Option<&StoredInvoice>, items: &Vec<StoredItem>, question: &str) -> (r: String)
    ensures
        r@ == invoice_message_text(
            number@,
            match found {
                Some(x) => Some(*x),
                None => None,
            },
            items@,
            question@,
        ),
{
    match found {
        Some(inv) => invoice_report(number, inv, items),
        None => owned(question),
    }
}

} // verus!

verus! {

/// `Entrada` and `Saída` are the only types an invoice row takes.
pub proof fn lemma_kind_values(api_kind: Seq<char>)
    ensures
        kind_text(api_kind) == "Entrada"@ || kind_text(api_kind) == "Saída"@,
        kind_text(api_kind) == "Entrada"@ <==> api_kind == "Entrada"@,
{
    reveal_strlit("Entrada");
    reveal_strlit("Saída");
    assert("Entrada"@.len() != "Saída"@.len());
}

/// What the product table held, or the API gave, for the product of an item.
pub enum ProductLookup {
    /// The product is already stored.
    Stored,
    /// The product was not stored; this is its record from the API.
    Fetched(Json),
    /// The product was not stored, and the API did not give it.
    Unavailable,
}

/// What to store for an item of an invoice.
#[derive(Debug)]
pub enum ItemAction {
    StoreItem,
    StoreProductAndItem(InvoiceProduct),
    SkipItem,
}

/// What the invoice service stores for an item: the item where its product is stored;
/// the product (with the code of its record) and the item where it was fetched; nothing
/// where it could not be had.
pub fn item_action(item: &InvoiceItem, lookup: ProductLookup) -> (a: ItemAction)
    ensures
        lookup is Stored ==> a is StoreItem,
        lookup is Unavailable ==> a is SkipItem,
        lookup matches ProductLookup::Fetched(p) ==> (a matches ItemAction::StoreProductAndItem(r)
            && product_fields(r, item.product_id@, p) && r.code@ == text_or(member(p, "codigo"@), ""@)),
{
    match lookup {
        ProductLookup::Stored => ItemAction::StoreItem,
        ProductLookup::Fetched(p) => ItemAction::StoreProductAndItem(
            invoice_product(item.product_id.as_str(), &p),
        ),
        ProductLookup::Unavailable => ItemAction::SkipItem,
    }
}

/// What the first invoice service stores for an item: the product (with its id as its
/// code) where it was fetched, and the item in every case.
pub fn first_service_item_action(item: &InvoiceItem, lookup: ProductLookup) -> (a: ItemAction)
    ensures
        !(lookup is Fetched) ==> a is StoreItem,
        lookup matches ProductLookup::Fetched(p) ==> (a matches ItemAction::StoreProductAndItem(r)
            && product_fields(r, item.product_id@, p) && r.code@ == item.product_id@),
{
    match lookup {
        ProductLookup::Fetched(p) => ItemAction::StoreProductAndItem(
            invoice_product_by_id(item.product_id.as_str(), &p),
        ),
        _ => ItemAction::StoreItem,
    }
}

} // verus!

verus! {

/// The item lines of a list of rows joined to a second list are the item lines of the first
/// followed by those of the second: every row keeps its place and none is dropped,
/// whatever it holds or however many rows come before it.
pub proof fn lemma_item_lines_concat(a: Seq<StoredItem>, b: Seq<StoredItem>)
    ensures
        item_lines(a + b) == item_lines(a) + item_lines(b),
    decreases b.len(),
{
    if b.len() == 0 {
        assert(a + b =~= a);
        assert(item_lines(a) + item_lines(b) =~= item_lines(a));
    } else {
        lemma_item_lines_concat(a, b.drop_last());
        assert((a + b).drop_last() =~= a + b.drop_last());
        assert((a + b).last() == b.last());
        assert(item_lines(a + b) =~= item_lines(a) + (item_lines(b.drop_last()) + item_line(b.last())));
    }
}

/// A single row gives exactly its own text.
pub proof fn lemma_item_lines_single(x: StoredItem)
    ensures
        item_lines(seq![x]) == item_line(x),
{
    assert(seq![x].drop_last() =~= Seq::<StoredItem>::empty());
    assert(seq![x].last() == x);
    assert(item_lines(seq![x].drop_last()) =~= Seq::<char>::empty());
    assert(item_lines(seq![x]) =~= item_line(x));
}

/// The text of a list is the texts of its rows one after another: its length is the
/// sum of theirs, and the text of each row stands at the offset of the rows before it.
pub proof fn lemma_item_lines_each_row(s: Seq<StoredItem>, i: int)
    requires
        0 <= i < s.len(),
    ensures
        item_lines(s) == item_lines(s.subrange(0, i)) + item_line(s[i]) + item_lines(s.subrange(i + 1, s.len() as int)),
{
    assert(s =~= s.subrange(0, i) + seq![s[i]] + s.subrange(i + 1, s.len() as int));
    lemma_item_lines_concat(s.subrange(0, i) + seq![s[i]], s.subrange(i + 1, s.len() as int));
    lemma_item_lines_concat(s.subrange(0, i), seq![s[i]]);
    lemma_item_lines_single(s[i]);
}

} // verus!
