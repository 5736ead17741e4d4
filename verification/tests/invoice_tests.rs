use gx_datalinker::calendar::{CivilDate, CivilDateTime};
use gx_datalinker::invoices::{
    first_service_item_action, item_action, InvoiceItem, ItemAction, ProductLookup,
    invoice_items, invoice_message, invoice_product, invoice_product_by_id, invoice_report, invoice_row,
    rfc3339_invoice_row, StoredInvoice, StoredItem,
};
use gx_datalinker::json::{Json, JsonNumber};

fn s(t: &str) -> Json {
    Json::Str(t.to_string())
}

fn num(text: &str, value: Option<i64>) -> Json {
    Json::Number(JsonNumber { as_i64: value, text: text.to_string() })
}

fn obj(fields: Vec<(&str, Json)>) -> Json {
    Json::Object(fields.into_iter().map(|(k, v)| (k.to_string(), v)).collect())
}

fn at(y: i32, mo: u32, d: u32, h: u32, mi: u32, se: u32) -> CivilDateTime {
    CivilDateTime { date: CivilDate { year: y, month: mo, day: d }, hour: h, minute: mi, second: se, nanosecond: 0 }
}

fn epoch() -> CivilDateTime {
    at(1970, 1, 1, 0, 0, 0)
}

fn record() -> Json {
    obj(vec![
        ("chave", s("352401")),
        ("rateios", Json::Array(vec![obj(vec![("idFilial", s("F1"))]), obj(vec![("idFilial", s("F2"))])])),
        ("dataEmissao", s("2024-05-10T08:15:00")),
        ("dataEntradaSaida", s("10/05/2024")),
        ("numero", num("1234", Some(1234))),
        ("idClienteFornecedor", s("C9")),
        ("tipo", s("Entrada")),
        ("localEntrega", obj(vec![("nome", s("Loja"))])),
        (
            "itens",
            Json::Array(vec![
                obj(vec![("produtoServico", obj(vec![("id", s("p1"))])), ("valorTotal", num("10.5", None))]),
                obj(vec![("produtoServico", obj(vec![("codigo", s("x"))]))]),
                obj(vec![("produtoServico", obj(vec![("id", s("p2"))])), ("valorTotal", s("7"))]),
            ]),
        ),
    ])
}

#[test]
fn invoice_row_reads_the_record() {
    let r = invoice_row(&record());
    assert_eq!(r.key, "352401");
    assert_eq!(r.branch_id, "F1");
    assert_eq!(r.kind, "Entrada");
    assert_eq!(r.issued, Some(at(2024, 5, 10, 8, 15, 0)));
    assert_eq!(r.moved, epoch());
    assert_eq!(r.number, "1234");
    assert_eq!(r.client_code, "C9");
    assert_eq!(r.client_name, "Loja");
}

#[test]
fn invoice_row_defaults() {
    let r = invoice_row(&obj(vec![("tipo", s("Saida")), ("numero", num("1.5", None))]));
    assert_eq!(r.key, "");
    assert_eq!(r.branch_id, "");
    assert_eq!(r.kind, "Saída");
    assert_eq!(r.issued, Some(epoch()));
    assert_eq!(r.number, "0");
    let other = invoice_row(&obj(vec![("tipo", s("Devolução"))]));
    assert_eq!(other.kind, "Saída");
}

#[test]
fn rfc3339_row_takes_dates_to_utc() {
    let r = rfc3339_invoice_row(&obj(vec![
        ("dataEmissao", s("2024-05-10T10:00:00-03:00")),
        ("dataEntradaSaida", s("2024-05-10T10:00:00")),
    ]));
    assert_eq!(r.issued, Some(at(2024, 5, 10, 13, 0, 0)));
    assert_eq!(r.moved, epoch());
    let r = rfc3339_invoice_row(&obj(vec![("dataEntradaSaida", s("2024-12-31T23:30:00+00:00"))]));
    assert_eq!(r.issued, None);
    assert_eq!(r.moved, at(2024, 12, 31, 23, 30, 0));
}

#[test]
fn items_need_a_product() {
    let items = invoice_items(&record());
    assert_eq!(items.len(), 2);
    assert_eq!(items[0].product_id, "p1");
    assert_eq!(items[0].total, "10.5");
    assert_eq!(items[1].product_id, "p2");
    assert_eq!(items[1].total, "0");
    assert!(invoice_items(&obj(vec![])).is_empty());
}

#[test]
fn product_rows() {
    let p = obj(vec![
        ("nome", s("Parafuso")),
        ("codigo", s("PAR-1")),
        ("precoVenda", num("2.75", None)),
        ("pesoBruto", num("3", Some(3))),
        ("complemento", obj(vec![("gtin", s("789"))])),
    ]);
    let r = invoice_product("id-1", &p);
    assert_eq!(r.id, "id-1");
    assert_eq!(r.code, "PAR-1");
    assert_eq!(r.name, "Parafuso");
    assert_eq!(r.sale_price, "2.75");
    assert_eq!(r.gross_weight, "3");
    assert_eq!(r.net_weight, "0");
    assert_eq!(r.gtin, "789");
    assert_eq!(r.reference, "");
    let by_id = invoice_product_by_id("id-1", &p);
    assert_eq!(by_id.code, "id-1");
}

#[test]
fn invoice_report_text() {
    let inv = StoredInvoice {
        key: "K".to_string(),
        kind: "Saída".to_string(),
        issued: Some(at(2024, 5, 10, 8, 0, 0)),
        moved: at(2024, 5, 11, 0, 0, 0),
        client_code: "C9".to_string(),
        client_name: "Loja".to_string(),
    };
    let items = vec![
        StoredItem { product_id: "p1".to_string(), total: 10_500_000 },
        StoredItem { product_id: "p2".to_string(), total: 70_000 },
    ];
    assert_eq!(
        invoice_report("77", &inv, &items),
        "Nota fiscal encontrada!\nNúmero: 77\nTipo: Saída\nCliente: Loja (C9)\nChave: K\nEmissão: 10/05/2024\nSaída: 11/05/2024\nItens:\n- Produto: p1, Total: 10.50\n- Produto: p2, Total: 0.07\n"
    );
    let bare = StoredInvoice { issued: None, ..inv };
    assert!(invoice_report("77", &bare, &vec![]).contains("Emissão: N/D\nSaída: 11/05/2024\nItens:\n"));
}

#[test]
fn item_actions() {
    let item = InvoiceItem { product_id: "p1".to_string(), total: "1".to_string() };
    assert!(matches!(item_action(&item, ProductLookup::Stored), ItemAction::StoreItem));
    assert!(matches!(item_action(&item, ProductLookup::Unavailable), ItemAction::SkipItem));
    let record = obj(vec![("codigo", s("C-1")), ("nome", s("N"))]);
    match item_action(&item, ProductLookup::Fetched(record)) {
        ItemAction::StoreProductAndItem(p) => {
            assert_eq!(p.id, "p1");
            assert_eq!(p.code, "C-1");
            assert_eq!(p.name, "N");
        }
        other => panic!("unexpected {:?}", other),
    }
    assert!(matches!(first_service_item_action(&item, ProductLookup::Unavailable), ItemAction::StoreItem));
    match first_service_item_action(&item, ProductLookup::Fetched(obj(vec![("codigo", s("C-1"))]))) {
        ItemAction::StoreProductAndItem(p) => assert_eq!(p.code, "p1"),
        other => panic!("unexpected {:?}", other),
    }
}

#[test]
fn invoice_message_falls_back_to_the_question() {
    assert_eq!(invoice_message("77", None, &vec![], "  77 \n"), "  77 \n");
    let inv = StoredInvoice {
        key: "K".to_string(),
        kind: "Entrada".to_string(),
        issued: None,
        moved: at(2024, 1, 2, 0, 0, 0),
        client_code: "C".to_string(),
        client_name: "N".to_string(),
    };
    let items = vec![StoredItem { product_id: "p".to_string(), total: 1_234_567 }];
    let text = invoice_message("77", Some(&inv), &items, " 77 ");
    assert_eq!(text, invoice_report("77", &inv, &items));
    assert!(text.ends_with("- Produto: p, Total: 1.23\n"));
}
