use gx_datalinker::calendar::CivilDate;
use gx_datalinker::json::{Json, JsonNumber};
use gx_datalinker::orders::{
    order_block, order_item_rows, order_lookup_code, order_message, order_row, synced_products,
    OrderReportRow,
};

fn s(t: &str) -> Json {
    Json::Str(t.to_string())
}

fn num(text: &str, value: Option<i64>) -> Json {
    Json::Number(JsonNumber { as_i64: value, text: text.to_string() })
}

fn obj(fields: Vec<(&str, Json)>) -> Json {
    Json::Object(fields.into_iter().map(|(k, v)| (k.to_string(), v)).collect())
}

fn order() -> Json {
    obj(vec![
        ("id", s("OC-1")),
        ("chave", s("K1")),
        ("dataEmissao", s("02/01/2025")),
        ("dataCompetencia", s("2025-01-02")),
        ("idMoeda", s("BRL")),
        ("entrega", obj(vec![("dataEntrega", s("15/01/2025")), ("numeroDiasEntrega", num("4294967301", Some(4294967301))), ("localEntrega", s("Doca"))])),
        ("transporte", obj(vec![("idTransportadora", s("T1"))])),
        ("totais", obj(vec![("frete", num("12.5", None)), ("valorTotal", num("100", Some(100)))])),
        (
            "itens",
            Json::Array(vec![
                obj(vec![
                    ("produtoServico", obj(vec![("id", s("P1"))])),
                    ("quantidadeSolicitada", num("3", Some(3))),
                    ("dataNecessidade", s("20/01/2025")),
                    ("valorUnitario", num("9.99", None)),
                ]),
                obj(vec![("produtoServico", obj(vec![]))]),
            ]),
        ),
        ("autorizacoes", Json::Array(vec![obj(vec![("idUsuario", s("U1"))]), obj(vec![])])),
    ])
}

#[test]
fn order_row_reads_the_record() {
    let r = order_row(&order());
    assert_eq!(r.id, "OC-1");
    assert_eq!(r.key, "K1");
    assert_eq!(r.issued, Some(CivilDate { year: 2025, month: 1, day: 2 }));
    assert_eq!(r.accrual, None);
    assert_eq!(r.needed, None);
    assert_eq!(r.currency, "BRL");
    assert_eq!(r.delivery_date, Some(CivilDate { year: 2025, month: 1, day: 15 }));
    assert_eq!(r.delivery_days, 5);
    assert_eq!(r.delivery_place, "Doca");
    assert_eq!(r.carrier, "T1");
    assert_eq!(r.freight_payer, "");
    assert_eq!(r.freight, "12.5");
    assert_eq!(r.insurance, "0");
    assert_eq!(r.total, "100");
    assert_eq!(r.notes, "");
}

#[test]
fn order_items_give_a_row_per_authorisation() {
    let plans = order_item_rows(&order());
    assert_eq!(plans.len(), 2);
    assert_eq!(plans[0].product_id, "P1");
    assert_eq!(plans[0].rows.len(), 2);
    let first = &plans[0].rows[0];
    assert_eq!(first.order_id, "OC-1");
    assert_eq!(first.product_id, "P1");
    assert_eq!(first.user_id, "U1");
    assert_eq!(first.quantity, "3");
    assert_eq!(first.needed, Some(CivilDate { year: 2025, month: 1, day: 20 }));
    assert_eq!(first.unit_price, "9.99");
    assert_eq!(first.currency, "BRL");
    assert_eq!(plans[0].rows[1].user_id, "");
    assert_eq!(plans[1].product_id, "");
    assert_eq!(plans[1].rows[0].quantity, "0");
    let no_currency = order_item_rows(&obj(vec![
        ("itens", Json::Array(vec![obj(vec![])])),
        ("autorizacoes", Json::Array(vec![obj(vec![])])),
    ]));
    assert_eq!(no_currency[0].rows[0].currency, "N/A");
    let no_auth = order_item_rows(&obj(vec![("itens", Json::Array(vec![obj(vec![])]))]));
    assert!(no_auth[0].rows.is_empty());
}

#[test]
fn synced_products_need_id_and_code() {
    let list = Json::Array(vec![
        obj(vec![("id", s("1")), ("codigo", s("A")), ("nome", s("Um"))]),
        obj(vec![("id", s("2")), ("codigo", s(""))]),
        obj(vec![("codigo", s("C"))]),
        obj(vec![("id", s("4")), ("codigo", s("D"))]),
    ]);
    let (rows, listed) = synced_products(&list).unwrap();
    assert_eq!(listed, 4);
    assert_eq!(rows.len(), 2);
    assert_eq!((rows[0].id.as_str(), rows[0].code.as_str(), rows[0].name.as_str()), ("1", "A", "Um"));
    assert_eq!((rows[1].id.as_str(), rows[1].code.as_str(), rows[1].name.as_str()), ("4", "D", ""));
    assert!(synced_products(&obj(vec![])).is_none());
}

#[test]
fn lookup_code_is_trimmed_upper_case() {
    assert_eq!(order_lookup_code("  abc-1 \n"), "ABC-1");
    assert_eq!(order_lookup_code("straße"), "STRASSE");
}

fn report_row() -> OrderReportRow {
    OrderReportRow {
        key: "K1".to_string(),
        issued: Some("2025-01-02".to_string()),
        accrual: None,
        needed: None,
        issuing_branch_name: Some("Matriz".to_string()),
        billing_branch_name: None,
        operation_nature: "N".to_string(),
        classification: "C".to_string(),
        management: "G".to_string(),
        requester: "R".to_string(),
        department: "D".to_string(),
        buyer: "B".to_string(),
        currency_symbol: Some("R$".to_string()),
        notes: None,
        authorization_status: "Autorizada".to_string(),
        service_status: "Pendente".to_string(),
        integration_status: "I".to_string(),
        delivery_date: None,
        delivery_days: "4".to_string(),
        delivery_place: "Doca".to_string(),
        carrier: "T1".to_string(),
        freight_payer: "Emitente".to_string(),
        freight: "12.5".to_string(),
        insurance: "0".to_string(),
        other_costs: -3,
        total: 100,
        product_name: Some("Parafuso".to_string()),
        quantity: Some("3".to_string()),
        unit_price: Some("9.99".to_string()),
    }
}

#[test]
fn order_block_layout() {
    let sep = "\n\n                    ";
    let expected = format!(
        "Dados da Ordem de Compra:{s}Chave: K1{s}Data Emissão: 2025-01-02{s}Data Competência: N/A{s}Previsão Chegada: N/A{s}Filial Emitente: Matriz{s}Filial Faturamento: N/A{s}Natureza da Operação: N{s}Classificação: C{s}Gerencial: G{s}Requisitante: R{s}Departamento: D{s}Comprador: B{s}Moeda: R${s}Observações: N/A{s}Autorização: Autorizada{s}Atendimento: Pendente{s}Integração: I{s}Data de Entrega: N/A{s}Nº Dias Entrega: 4{s}Local Entrega: Doca{s}Transportadora: T1{s}Frete por Conta: Emitente{s}Valor Frete: 12.5{s}Valor Seguro: 0{s}Despesas Acessórias: -3{s}Valor Total: 100{s}Produto: Parafuso{s}Quantidade: 3{s}Valor Unitário: 9.99 R$\n\n",
        s = sep
    );
    assert_eq!(order_block(&report_row()), expected);
}

#[test]
fn order_message_cases() {
    let rows = vec![report_row(), report_row()];
    let block = order_block(&report_row());
    assert_eq!(order_message(Some(&rows), "ABC"), format!("{}{}", block, block));
    assert_eq!(order_message(Some(&vec![]), "ABC"), "Nenhuma ordem de compra encontrada para o código 'ABC'.");
    assert_eq!(order_message(None, "ABC"), "Erro ao consultar a ordem de compra para 'ABC'.");
}
