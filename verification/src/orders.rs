//! The purchase order service: the order, order-product and product rows taken from
//! the records of the API, and the purchase order report.

use vstd::prelude::*;
use crate::calendar::{chrono_date_parse, chrono_parse_date, CivilDate};
use crate::json::{
    as_int, as_items, as_text, deref_opt, get, get_in, int_of, items_of, member, member_of,
    number_text, number_text_or_zero, text_of, text_or, text_or_default, Json,
};
use crate::text::{decimal, decimal_i64, owned, push_str, trim, trimmed};

verus! {

/// The format of the dates of purchase orders.
pub open spec fn br_date_format() -> Seq<char> {
    "%d/%m/%Y"@
}

/// A date written `dd/mm/yyyy`, read by `chrono`.
pub fn parse_date_br(text: &str) -> (r: Option<CivilDate>)
    ensures
        r == chrono_date_parse(text@, br_date_format()),
{
    chrono_parse_date(text, "%d/%m/%Y")
}

/// A date field of a record, read as `dd/mm/yyyy` (an absent field reads as empty).
pub open spec fn record_br_date(v: Option<Json>) -> Option<CivilDate> {
    chrono_date_parse(text_or(v, ""@), br_date_format())
}

fn br_date_field(v: Option<&Json>) -> (r: Option<CivilDate>)
    ensures
        r == record_br_date(deref_opt(v)),
{
    let t = text_or_default(v, "");
    parse_date_br(t.as_str())
}

/// A purchase order as the order table stores it.
#[derive(Debug)]
pub struct OrderRow {
    pub id: String,
    pub key: String,
    pub issued: Option<CivilDate>,
    pub accrual: Option<CivilDate>,
    pub needed: Option<CivilDate>,
    pub issuing_branch: String,
    pub billing_branch: String,
    pub operation_nature: String,
    pub supplier: String,
    pub classification: String,
    pub management: String,
    pub requester: String,
    pub department: String,
    pub buyer: String,
    pub currency: String,
    pub notes: String,
    pub authorization_status: String,
    pub service_status: String,
    pub integration_status: String,
    pub delivery_date: Option<CivilDate>,
    pub delivery_days: i32,
    pub delivery_place: String,
    pub carrier: String,
    pub freight_payer: String,
    /// The texts of the totals, `"0"` where a total is not a number.
    pub freight: String,
    pub insurance: String,
    pub other_costs: String,
    pub total: String,
}

/// A text field of a record, or empty.
pub open spec fn field(ord: Json, key: Seq<char>) -> Seq<char> {
    text_or(member(ord, key), ""@)
}

/// A text field of a part of a record, or empty.
pub open spec fn sub_field(ord: Json, part: Seq<char>, key: Seq<char>) -> Seq<char> {
    text_or(member_of(member(ord, part), key), ""@)
}

/// `r` is the row of the purchase order record `ord`.
pub open spec fn is_order_row(r: OrderRow, ord: Json) -> bool {
    &&& r.id@ == field(ord, "id"@)
    &&& r.key@ == field(ord, "chave"@)
    &&& r.issued == record_br_date(member(ord, "dataEmissao"@))
    &&& r.accrual == record_br_date(member(ord, "dataCompetencia"@))
    &&& r.needed == record_br_date(member(ord, "dataNecessidade"@))
    &&& r.issuing_branch@ == field(ord, "idFilialEmitente"@)
    &&& r.billing_branch@ == field(ord, "idFilialFaturamento"@)
    &&& r.operation_nature@ == field(ord, "idNaturezaOperacaoProduto"@)
    &&& r.supplier@ == field(ord, "idFornecedorTransportador"@)
    &&& r.classification@ == field(ord, "idClassificacao"@)
    &&& r.management@ == field(ord, "idGerencial"@)
    &&& r.requester@ == field(ord, "idRequisitante"@)
    &&& r.department@ == field(ord, "idDepartamento"@)
    &&& r.buyer@ == field(ord, "idComprador"@)
    &&& r.currency@ == field(ord, "idMoeda"@)
    &&& r.notes@ == field(ord, "observacoes"@)
    &&& r.authorization_status@ == field(ord, "situacaoAutorizacao"@)
    &&& r.service_status@ == field(ord, "situacaoAtendimento"@)
    &&& r.integration_status@ == field(ord, "situacaoIntegracao"@)
    &&& r.delivery_date == record_br_date(member_of(member(ord, "entrega"@), "dataEntrega"@))
    &&& r.delivery_days == (match int_of(member_of(member(ord, "entrega"@), "numeroDiasEntrega"@)) {
        Some(n) => n,
        None => 0,
    }) as i32
    &&& r.delivery_place@ == sub_field(ord, "entrega"@, "localEntrega"@)
    &&& r.carrier@ == sub_field(ord, "transporte"@, "idTransportadora"@)
    &&& r.freight_payer@ == sub_field(ord, "transporte"@, "fretePorConta"@)
    &&& r.freight@ == number_text_or_zero(member_of(member(ord, "totais"@), "frete"@))
    &&& r.insurance@ == number_text_or_zero(member_of(member(ord, "totais"@), "seguro"@))
    &&& r.other_costs@ == number_text_or_zero(member_of(member(ord, "totais"@), "despesasAcessorias"@))
    &&& r.total@ == number_text_or_zero(member_of(member(ord, "totais"@), "valorTotal"@))
}

fn text_field(ord: &Json, key: &str) -> (r: String)
    ensures
        r@ == field(*ord, key@),
{
    text_or_default(get(ord, key), "")
}

fn sub_text_field(ord: &Json, part: &str, key: &str) -> (r: String)
    ensures
        r@ == sub_field(*ord, part@, key@),
{
    text_or_default(get_in(get(ord, part), key), "")
}

/// The row of a purchase order record.
pub fn order_row(ord: &Json) -> (r: OrderRow)
    ensures
        is_order_row(r, *ord),
{
    let days = match as_int(get_in(get(ord, "entrega"), "numeroDiasEntrega")) {
        Some(n) => n,
        None => 0,
    };
    OrderRow {
        id: text_field(ord, "id"),
        key: text_field(ord, "chave"),
        issued: br_date_field(get(ord, "dataEmissao")),
        accrual: br_date_field(get(ord, "dataCompetencia")),
        needed: br_date_field(get(ord, "dataNecessidade")),
        issuing_branch: text_field(ord, "idFilialEmitente"),
        billing_branch: text_field(ord, "idFilialFaturamento"),
        operation_nature: text_field(ord, "idNaturezaOperacaoProduto"),
        supplier: text_field(ord, "idFornecedorTransportador"),
        classification: text_field(ord, "idClassificacao"),
        management: text_field(ord, "idGerencial"),
        requester: text_field(ord, "idRequisitante"),
        department: text_field(ord, "idDepartamento"),
        buyer: text_field(ord, "idComprador"),
        currency: text_field(ord, "idMoeda"),
        notes: text_field(ord, "observacoes"),
        authorization_status: text_field(ord, "situacaoAutorizacao"),
        service_status: text_field(ord, "situacaoAtendimento"),
        integration_status: text_field(ord, "situacaoIntegracao"),
        delivery_date: br_date_field(get_in(get(ord, "entrega"), "dataEntrega")),
        delivery_days: days as i32,
        delivery_place: sub_text_field(ord, "entrega", "localEntrega"),
        carrier: sub_text_field(ord, "transporte", "idTransportadora"),
        freight_payer: sub_text_field(ord, "transporte", "fretePorConta"),
        freight: number_text(get_in(get(ord, "totais"), "frete")),
        insurance: number_text(get_in(get(ord, "totais"), "seguro")),
        other_costs: number_text(get_in(get(ord, "totais"), "despesasAcessorias")),
        total: number_text(get_in(get(ord, "totais"), "valorTotal")),
    }
}

} // verus!

verus! {

/// A product of an order for one authorising user, as the order-product table stores it.
#[derive(Debug)]
pub struct OrderProductRow {
    pub order_id: String,
    pub product_id: String,
    pub user_id: String,
    /// The texts of the numbers, `"0"` where a value is not a number.
    pub quantity: String,
    pub needed: Option<CivilDate>,
    pub unit_price: String,
    /// The order's currency, or `N/A`.
    pub currency: String,
}

/// The rows that an item of an order gives: one for each authorisation, all naming the
/// item's product.
#[derive(Debug)]
pub struct OrderItemRows {
    pub product_id: String,
    pub rows: Vec<OrderProductRow>,
}

/// The item records of an order record.
pub open spec fn order_items_of(ord: Json) -> Seq<Json> {
    match items_of(member(ord, "itens"@)) {
        Some(items) => items,
        None => Seq::empty(),
    }
}

/// The authorisation records of an order record.
pub open spec fn authorizations_of(ord: Json) -> Seq<Json> {
    match items_of(member(ord, "autorizacoes"@)) {
        Some(auths) => auths,
        None => Seq::empty(),
    }
}

/// The product of an item record, or empty.
pub open spec fn item_product(item: Json) -> Seq<char> {
    text_or(member_of(member(item, "produtoServico"@), "id"@), ""@)
}

/// `r` is the row of the item record `item` of the order `ord` for the authorisation
/// record `auth`.
pub open spec fn is_order_product_row(r: OrderProductRow, ord: Json, item: Json, auth: Json) -> bool {
    &&& r.order_id@ == field(ord, "id"@)
    &&& r.product_id@ == item_product(item)
    &&& r.user_id@ == field(auth, "idUsuario"@)
    &&& r.quantity@ == number_text_or_zero(member(item, "quantidadeSolicitada"@))
    &&& r.needed == record_br_date(member(item, "dataNecessidade"@))
    &&& r.unit_price@ == number_text_or_zero(member(item, "valorUnitario"@))
    &&& r.currency@ == text_or(member(ord, "idMoeda"@), "N/A"@)
}

fn order_product_row(ord: &Json, item: &Json, auth: &Json) -> (r: OrderProductRow)
    ensures
        is_order_product_row(r, *ord, *item, *auth),
{
    OrderProductRow {
        order_id: text_field(ord, "id"),
        product_id: text_or_default(get_in(get(item, "produtoServico"), "id"), ""),
        user_id: text_field(auth, "idUsuario"),
        quantity: number_text(get(item, "quantidadeSolicitada")),
        needed: br_date_field(get(item, "dataNecessidade")),
        unit_price: number_text(get(item, "valorUnitario")),
        currency: text_or_default(get(ord, "idMoeda"), "N/A"),
    }
}

fn item_rows(ord: &Json, item: &Json) -> (r: OrderItemRows)
    ensures
        r.product_id@ == item_product(*item),
        r.rows@.len() == authorizations_of(*ord).len(),
        forall|j: int|
            0 <= j < r.rows@.len() ==> #[trigger] is_order_product_row(
                r.rows@[j],
                *ord,
                *item,
                authorizations_of(*ord)[j],
            ),
{
    let mut rows: Vec<OrderProductRow> = Vec::new();
    match as_items(get(ord, "autorizacoes")) {
        Some(auths) => {
            let mut j: usize = 0;
            while j < auths.len()
                invariant
                    authorizations_of(*ord) == auths@,
                    j <= auths@.len(),
                    rows@.len() == j,
                    forall|k: int|
                        0 <= k < j ==> #[trigger] is_order_product_row(rows@[k], *ord, *item, auths@[k]),
                decreases auths.len() - j,
            {
                rows.push(order_product_row(ord, item, &auths[j]));
                j = j + 1;
            }
        },
        None => {},
    }
    OrderItemRows { product_id: text_or_default(get_in(get(item, "produtoServico"), "id"), ""), rows }
}

/// The rows of the items of an order record, one entry for each item. The caller stores
/// the rows of an item only where its product is in the product table.
pub fn order_item_rows(ord: &Json) -> (r: Vec<OrderItemRows>)
    ensures
        r@.len() == order_items_of(*ord).len(),
        forall|i: int|
            0 <= i < r@.len() ==> {
                &&& #[trigger] r@[i].product_id@ == item_product(order_items_of(*ord)[i])
                &&& r@[i].rows@.len() == authorizations_of(*ord).len()
                &&& forall|j: int|
                    0 <= j < r@[i].rows@.len() ==> #[trigger] is_order_product_row(
                        r@[i].rows@[j],
                        *ord,
                        order_items_of(*ord)[i],
                        authorizations_of(*ord)[j],
                    )
            },
{
    let mut r: Vec<OrderItemRows> = Vec::new();
    match as_items(get(ord, "itens")) {
        Some(items) => {
            let mut i: usize = 0;
            while i < items.len()
                invariant
                    order_items_of(*ord) == items@,
                    i <= items@.len(),
                    r@.len() == i,
                    forall|k: int|
                        0 <= k < i ==> {
                            &&& #[trigger] r@[k].product_id@ == item_product(items@[k])
                            &&& r@[k].rows@.len() == authorizations_of(*ord).len()
                            &&& forall|j: int|
                                0 <= j < r@[k].rows@.len() ==> #[trigger] is_order_product_row(
                                    r@[k].rows@[j],
                                    *ord,
                                    items@[k],
                                    authorizations_of(*ord)[j],
                                )
                        },
                decreases items.len() - i,
            {
                r.push(item_rows(ord, &items[i]));
                i = i + 1;
            }
        },
        None => {},
    }
    r
}

/// A product of the catalogue as the product table of the orders stores it.
#[derive(Debug)]
pub struct SyncedProduct {
    pub id: String,
    pub code: String,
    pub name: String,
}

pub open spec fn synced_view(p: SyncedProduct) -> (Seq<char>, Seq<char>, Seq<char>) {
    (p.id@, p.code@, p.name@)
}

/// The products of the catalogue records that have both an id and a code, in order.
pub open spec fn synced_of(items: Seq<Json>) -> Seq<(Seq<char>, Seq<char>, Seq<char>)>
    decreases items.len(),
{
    if items.len() == 0 {
        Seq::empty()
    } else {
        let rest = synced_of(items.drop_last());
        let p = items.last();
        let id = field(p, "id"@);
        let code = field(p, "codigo"@);
        if id.len() > 0 && code.len() > 0 {
            rest.push((id, code, field(p, "nome"@)))
        } else {
            rest
        }
    }
}

/// The catalogue rows to store from a product list, and the number of records the list
/// held; `None` where the reply is not a list.
pub fn synced_products(list: &Json) -> (r: Option<(Vec<SyncedProduct>, usize)>)
    ensures
        match list {
            Json::Array(items) => r matches Some((rows, n)) && n == items@.len() && rows@.map_values(
                |p: SyncedProduct| synced_view(p),
            ) == synced_of(items@),
            _ => r is None,
        },
{
    match list {
        Json::Array(items) => {
            let mut rows: Vec<SyncedProduct> = Vec::new();
            let mut i: usize = 0;
            while i < items.len()
                invariant
                    i <= items@.len(),
                    rows@.map_values(|p: SyncedProduct| synced_view(p)) == synced_of(
                        items@.subrange(0, i as int),
                    ),
                decreases items.len() - i,
            {
                let p = &items[i];
                let ghost prev = rows@;
                assert(items@.subrange(0, i + 1).drop_last() =~= items@.subrange(0, i as int));
                assert(items@.subrange(0, i + 1).last() == items@[i as int]);
                let id = text_field(p, "id");
                let code = text_field(p, "codigo");
                if !id.as_str().is_empty() && !code.as_str().is_empty() {
                    rows.push(SyncedProduct { id, code, name: text_field(p, "nome") });
                    assert(rows@.map_values(|p: SyncedProduct| synced_view(p)) =~= prev.map_values(
                        |p: SyncedProduct| synced_view(p),
                    ).push(synced_view(rows@.last())));
                }
                i = i + 1;
            }
            assert(items@.subrange(0, items@.len() as int) =~= items@);
            Some((rows, items.len()))
        },
        _ => None,
    }
}

} // verus!

verus! {

/// A product of a purchase order as the report query reads it.
#[derive(Debug)]
pub struct OrderReportRow {
    pub key: String,
    pub issued: Option<String>,
    pub accrual: Option<String>,
    pub needed: Option<String>,
    pub issuing_branch_name: Option<String>,
    pub billing_branch_name: Option<String>,
    pub operation_nature: String,
    pub classification: String,
    pub management: String,
    pub requester: String,
    pub department: String,
    pub buyer: String,
    pub currency_symbol: Option<String>,
    pub notes: Option<String>,
    pub authorization_status: String,
    pub service_status: String,
    pub integration_status: String,
    pub delivery_date: Option<String>,
    pub delivery_days: String,
    pub delivery_place: String,
    pub carrier: String,
    pub freight_payer: String,
    pub freight: String,
    pub insurance: String,
    pub other_costs: i32,
    pub total: i32,
    pub product_name: Option<String>,
    pub quantity: Option<String>,
    pub unit_price: Option<String>,
}

/// The labels of the lines of an order block, in order.
pub open spec fn order_labels() -> Seq<Seq<char>> {
    seq![
        "Chave: "@,
        "Data Emissão: "@,
        "Data Competência: "@,
        "Previsão Chegada: "@,
        "Filial Emitente: "@,
        "Filial Faturamento: "@,
        "Natureza da Operação: "@,
        "Classificação: "@,
        "Gerencial: "@,
        "Requisitante: "@,
        "Departamento: "@,
        "Comprador: "@,
        "Moeda: "@,
        "Observações: "@,
        "Autorização: "@,
        "Atendimento: "@,
        "Integração: "@,
        "Data de Entrega: "@,
        "Nº Dias Entrega: "@,
        "Local Entrega: "@,
        "Transportadora: "@,
        "Frete por Conta: "@,
        "Valor Frete: "@,
        "Valor Seguro: "@,
        "Despesas Acessórias: "@,
        "Valor Total: "@,
        "Produto: "@,
        "Quantidade: "@,
        "Valor Unitário: "@,
    ]
}

/// A value that may be missing, or `N/A`.
pub open spec fn or_na(v: Option<String>) -> Seq<char> {
    match v {
        Some(s) => s@,
        None => "N/A"@,
    }
}

/// The values of the lines of an order block, in the order of the labels.
pub open spec fn order_values(r: OrderReportRow) -> Seq<Seq<char>> {
    seq![
        r.key@,
        or_na(r.issued),
        or_na(r.accrual),
        or_na(r.needed),
        or_na(r.issuing_branch_name),
        or_na(r.billing_branch_name),
        r.operation_nature@,
        r.classification@,
        r.management@,
        r.requester@,
        r.department@,
        r.buyer@,
        or_na(r.currency_symbol),
        or_na(r.notes),
        r.authorization_status@,
        r.service_status@,
        r.integration_status@,
        or_na(r.delivery_date),
        r.delivery_days@,
        r.delivery_place@,
        r.carrier@,
        r.freight_payer@,
        r.freight@,
        r.insurance@,
        decimal(r.other_costs as int),
        decimal(r.total as int),
        or_na(r.product_name),
        or_na(r.quantity),
        or_na(r.unit_price) + " "@ + or_na(r.currency_symbol),
    ]
}

/// What comes before each line of an order block: a blank line and an indent.
pub open spec fn line_break() -> Seq<char> {
    "\n\n                    "@
}

/// The first `n` labelled lines.
pub open spec fn labelled_lines(labels: Seq<Seq<char>>, values: Seq<Seq<char>>, n: nat) -> Seq<char>
    decreases n,
{
    if n == 0 {
        Seq::empty()
    } else {
        labelled_lines(labels, values, (n - 1) as nat) + line_break() + labels[n - 1] + values[n - 1]
    }
}

/// The report block of one order product.
pub open spec fn order_block_text(r: OrderReportRow) -> Seq<char> {
    "Dados da Ordem de Compra:"@ + labelled_lines(order_labels(), order_values(r), 29) + "\n\n"@
}

/// The report blocks of the rows, in order.
pub open spec fn order_blocks(rows: Seq<OrderReportRow>) -> Seq<char>
    decreases rows.len(),
{
    if rows.len() == 0 {
        Seq::empty()
    } else {
        order_blocks(rows.drop_last()) + order_block_text(rows.last())
    }
}

/// The text handed to the language model for the purchase orders of a product code:
/// the blocks of its rows; a notice where there are none, or where the query failed
/// (`None`).
pub open spec fn order_message_text(rows: Option<Seq<OrderReportRow>>, code: Seq<char>) -> Seq<char> {
    match rows {
        Some(rows) => if rows.len() > 0 {
            order_blocks(rows)
        } else {
            "Nenhuma ordem de compra encontrada para o código '"@ + code + "'."@
        },
        None => "Erro ao consultar a ordem de compra para '"@ + code + "'."@,
    }
}

fn na(v: &Option<String>) -> (r: String)
    ensures
        r@ == or_na(*v),
{
    match v {
        Some(s) => s.clone(),
        None => owned("N/A"),
    }
}

fn order_label_list() -> (r: Vec<&'static str>)
    ensures
        r@.len() == 29,
        forall|i: int| 0 <= i < 29 ==> #[trigger] r@[i]@ == order_labels()[i],
{
    let r = vec![
        "Chave: ",
        "Data Emissão: ",
        "Data Competência: ",
        "Previsão Chegada: ",
        "Filial Emitente: ",
        "Filial Faturamento: ",
        "Natureza da Operação: ",
        "Classificação: ",
        "Gerencial: ",
        "Requisitante: ",
        "Departamento: ",
        "Comprador: ",
        "Moeda: ",
        "Observações: ",
        "Autorização: ",
        "Atendimento: ",
        "Integração: ",
        "Data de Entrega: ",
        "Nº Dias Entrega: ",
        "Local Entrega: ",
        "Transportadora: ",
        "Frete por Conta: ",
        "Valor Frete: ",
        "Valor Seguro: ",
        "Despesas Acessórias: ",
        "Valor Total: ",
        "Produto: ",
        "Quantidade: ",
        "Valor Unitário: ",
    ];
    r
}

fn order_value_list(row: &OrderReportRow) -> (r: Vec<String>)
    ensures
        r@.len() == 29,
        forall|i: int| 0 <= i < 29 ==> #[trigger] r@[i]@ == order_values(*row)[i],
{
    let mut unit = na(&row.unit_price);
    push_str(&mut unit, " ");
    push_str(&mut unit, na(&row.currency_symbol).as_str());
    let r = vec![
        row.key.clone(),
        na(&row.issued),
        na(&row.accrual),
        na(&row.needed),
        na(&row.issuing_branch_name),
        na(&row.billing_branch_name),
        row.operation_nature.clone(),
        row.classification.clone(),
        row.management.clone(),
        row.requester.clone(),
        row.department.clone(),
        row.buyer.clone(),
        na(&row.currency_symbol),
        na(&row.notes),
        row.authorization_status.clone(),
        row.service_status.clone(),
        row.integration_status.clone(),
        na(&row.delivery_date),
        row.delivery_days.clone(),
        row.delivery_place.clone(),
        row.carrier.clone(),
        row.freight_payer.clone(),
        row.freight.clone(),
        row.insurance.clone(),
        decimal_i64(row.other_costs as i64),
        decimal_i64(row.total as i64),
        na(&row.product_name),
        na(&row.quantity),
        unit,
    ];
    r
}

/// The report block of one order product.
pub fn order_block(row: &OrderReportRow) -> (r: String)
    ensures
        r@ == order_block_text(*row),
{
    let labels = order_label_list();
    let values = order_value_list(row);
    let mut r = owned("Dados da Ordem de Compra:");
    let ghost head = r@;
    let mut i: usize = 0;
    while i < 29
        invariant
            labels@.len() == 29,
            values@.len() == 29,
            forall|k: int| 0 <= k < 29 ==> #[trigger] labels@[k]@ == order_labels()[k],
            forall|k: int| 0 <= k < 29 ==> #[trigger] values@[k]@ == order_values(*row)[k],
            i <= 29,
            r@ == head + labelled_lines(order_labels(), order_values(*row), i as nat),
        decreases 29 - i,
    {
        push_str(&mut r, "\n\n                    ");
        push_str(&mut r, labels[i]);
        push_str(&mut r, values[i].as_str());
        assert(r@ =~= head + labelled_lines(order_labels(), order_values(*row), (i + 1) as nat));
        i = i + 1;
    }
    push_str(&mut r, "\n\n");
    r
}

/// The text handed to the language model for the purchase orders of a product code.
pub fn order_message(rows: Option<&Vec<OrderReportRow>>, code: &str) -> (r: String)
    ensures
        r@ == order_message_text(
            match rows {
                Some(v) => Some(v@),
                None => None,
            },
            code@,
        ),
{
    match rows {
        Some(v) => {
            if v.len() == 0 {
                let mut r = owned("Nenhuma ordem de compra encontrada para o código '");
                push_str(&mut r, code);
                push_str(&mut r, "'.");
                r
            } else {
                let mut r = String::new();
                let mut i: usize = 0;
                while i < v.len()
                    invariant
                        i <= v@.len(),
                        r@ == order_blocks(v@.subrange(0, i as int)),
                    decreases v.len() - i,
                {
                    let block = order_block(&v[i]);
                    push_str(&mut r, block.as_str());
                    assert(v@.subrange(0, i + 1).drop_last() =~= v@.subrange(0, i as int));
                    i = i + 1;
                }
                assert(v@.subrange(0, v@.len() as int) =~= v@);
                r
            }
        },
        None => {
            let mut r = owned("Erro ao consultar a ordem de compra para '");
            push_str(&mut r, code);
            push_str(&mut r, "'.");
            r
        },
    }
}

} // verus!

verus! {

/// The product code that a purchase order question asks about: the question trimmed and
/// in upper case.
pub fn order_lookup_code(question: &str) -> (r: String)
    ensures
        r@ == crate::text::std_uppercase(trimmed(question@)),
{
    let t = trim(question);
    crate::text::to_uppercase(t.as_str())
}

} // verus!

verus! {

/// The report blocks of a list of rows joined to a second list are the report blocks of the first
/// followed by those of the second: every row keeps its place and none is dropped,
/// whatever it holds or however many rows come before it.
pub proof fn lemma_order_blocks_concat(a: Seq<OrderReportRow>, b: Seq<OrderReportRow>)
    ensures
        order_blocks(a + b) == order_blocks(a) + order_blocks(b),
    decreases b.len(),
{
    if b.len() == 0 {
        assert(a + b =~= a);
        assert(order_blocks(a) + order_blocks(b) =~= order_blocks(a));
    } else {
        lemma_order_blocks_concat(a, b.drop_last());
        assert((a + b).drop_last() =~= a + b.drop_last());
        assert((a + b).last() == b.last());
        assert(order_blocks(a + b) =~= order_blocks(a) + (order_blocks(b.drop_last()) + order_block_text(b.last())));
    }
}

/// A single row gives exactly its own text.
pub proof fn lemma_order_blocks_single(x: OrderReportRow)
    ensures
        order_blocks(seq![x]) == order_block_text(x),
{
    assert(seq![x].drop_last() =~= Seq::<OrderReportRow>::empty());
    assert(seq![x].last() == x);
    assert(order_blocks(seq![x].drop_last()) =~= Seq::<char>::empty());
    assert(order_blocks(seq![x]) =~= order_block_text(x));
}

/// The text of a list is the texts of its rows one after another: its length is the
/// sum of theirs, and the text of each row stands at the offset of the rows before it.
pub proof fn lemma_order_blocks_each_row(s: Seq<OrderReportRow>, i: int)
    requires
        0 <= i < s.len(),
    ensures
        order_blocks(s) == order_blocks(s.subrange(0, i)) + order_block_text(s[i]) + order_blocks(s.subrange(i + 1, s.len() as int)),
{
    assert(s =~= s.subrange(0, i) + seq![s[i]] + s.subrange(i + 1, s.len() as int));
    lemma_order_blocks_concat(s.subrange(0, i) + seq![s[i]], s.subrange(i + 1, s.len() as int));
    lemma_order_blocks_concat(s.subrange(0, i), seq![s[i]]);
    lemma_order_blocks_single(s[i]);
}

} // verus!
