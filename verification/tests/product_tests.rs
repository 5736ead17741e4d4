use gx_datalinker::json::{Json, JsonNumber};
use gx_datalinker::products::{
    brand_name, brand_url, catalog_rows, classify, profit_report, rank_rows, AbcClass,
    MonthlyProfit, ProductProfit,
};

fn row(code: &str, profit: i64) -> ProductProfit {
    ProductProfit { code: code.to_string(), profit }
}

fn s(t: &str) -> Json {
    Json::Str(t.to_string())
}

fn num(n: i64) -> Json {
    Json::Number(JsonNumber { as_i64: Some(n), text: n.to_string() })
}

fn obj(fields: Vec<(&str, Json)>) -> Json {
    Json::Object(fields.into_iter().map(|(k, v)| (k.to_string(), v)).collect())
}

fn sample() -> Vec<ProductProfit> {
    vec![row("P3", 10_000_000), row("P1", 50_000_000), row("P4", 10_000_000), row("P2", 30_000_000)]
}

/// The share that the report of `code` among `rows` writes.
fn share(rows: &Vec<ProductProfit>, code: &str) -> String {
    let text = profit_report(code, &vec![], &classify(rows, code));
    let start = text.find("Participação no lucro: ").unwrap() + "Participação no lucro: ".len();
    let end = text[start..].find('%').unwrap() + start;
    text[start..end].to_string()
}

/// The total that the report of `code` among `rows` writes.
fn total_line(rows: &Vec<ProductProfit>, code: &str) -> String {
    let text = profit_report(code, &vec![], &classify(rows, code));
    let start = text.find("Lucro total geral: ").unwrap() + "Lucro total geral: ".len();
    let end = text[start..].find('\n').unwrap() + start;
    text[start..end].to_string()
}

#[test]
fn ranking_is_highest_first_and_stable() {
    let ranked = rank_rows(&sample());
    let codes: Vec<&str> = ranked.iter().map(|r| r.code.as_str()).collect();
    assert_eq!(codes, vec!["P1", "P2", "P3", "P4"]);
    let ranked = rank_rows(&vec![row("X", 5), row("Y", 5), row("Z", 7)]);
    let codes: Vec<&str> = ranked.iter().map(|r| r.code.as_str()).collect();
    assert_eq!(codes, vec!["Z", "X", "Y"]);
}

#[test]
fn classes_follow_running_share() {
    // total 100.00: P1 reaches 50%, P2 80%, P3 90%, P4 100%.
    let rows = sample();
    let p1 = classify(&rows, "P1");
    assert_eq!(p1.class, AbcClass::B);
    assert_eq!(p1.item_profit, 50_000_000);
    assert_eq!(p1.total_profit, 100_000_000);
    assert_eq!(share(&rows, "P1"), "50.00");
    assert_eq!(classify(&rows, "P2").class, AbcClass::C);
    assert_eq!(share(&rows, "P4"), "10.00");
    let top = classify(&vec![row("A1", 20), row("B1", 80)], "B1");
    assert_eq!(top.class, AbcClass::C);
    let small = classify(&vec![row("A1", 20), row("B1", 80)], "A1");
    assert_eq!(small.class, AbcClass::C);
    let first = classify(&vec![row("A1", 10), row("B1", 90), row("C1", 0)], "C1");
    assert_eq!(first.class, AbcClass::C);
    let even = vec![row("Q1", 100), row("Q2", 100), row("Q3", 100), row("Q4", 100), row("Q5", 100)];
    assert_eq!(classify(&even, "Q1").class, AbcClass::A);
    assert_eq!(classify(&even, "Q2").class, AbcClass::B);
    assert_eq!(classify(&even, "Q3").class, AbcClass::C);
}

#[test]
fn missing_product_is_class_c() {
    let r = classify(&sample(), "NOPE");
    assert_eq!(r.class, AbcClass::C);
    assert_eq!(r.item_profit, 0);
    assert_eq!(share(&sample(), "NOPE"), "0.00");
}

#[test]
fn no_profit_makes_every_listed_product_class_a() {
    let rows = vec![row("L1", -500), row("L2", 300)];
    let r = classify(&rows, "L2");
    assert_eq!(r.class, AbcClass::A);
    assert_eq!(r.total_profit, -200);
    assert_eq!(share(&rows, "L2"), "0.00");
    assert_eq!(classify(&rows, "L3").class, AbcClass::C);
}

#[test]
fn share_rounds_to_hundredths() {
    // 1/3 of the total is 33.33%, 2/3 is 66.67%.
    let rows = vec![row("T1", 100), row("T2", 200)];
    assert_eq!(share(&rows, "T1"), "33.33");
    assert_eq!(share(&rows, "T2"), "66.67");
}

#[test]
fn thousandths_count_in_the_total_and_the_classes() {
    // three products earning 0.004 each: the total is 0.012, written 0.01, and the first
    // holds a third of it, which is class B.
    let rows = vec![row("U1", 4_000), row("U2", 4_000), row("U3", 4_000)];
    let u1 = classify(&rows, "U1");
    assert_eq!(u1.total_profit, 12_000);
    assert_eq!(u1.class, AbcClass::B);
    assert_eq!(total_line(&rows, "U1"), "0.01");
    assert_eq!(share(&rows, "U1"), "33.33");
}

#[test]
fn amounts_round_half_to_even_and_keep_the_sign() {
    assert_eq!(total_line(&vec![row("H", 125_000)], "H"), "0.12");
    assert_eq!(total_line(&vec![row("H", 375_000)], "H"), "0.38");
    assert_eq!(total_line(&vec![row("H", -125_000)], "H"), "-0.12");
    assert_eq!(total_line(&vec![row("H", -1_000)], "H"), "-0.00");
    assert_eq!(total_line(&vec![row("H", 999_999_999)], "H"), "1000.00");
    // a loss too small to show still writes its sign
    let rows = vec![row("N", -1), row("M", 10_000_000)];
    assert_eq!(share(&rows, "N"), "-0.00");
}

#[test]
fn profit_report_text() {
    let rows = sample();
    let summary = classify(&rows, "P3");
    let months = vec![MonthlyProfit { month: "2025-01".to_string(), sales: 1_500_500_000, purchases: 50_000, profit: 1_500_450_000 }];
    let text = profit_report("P3", &months, &summary);
    assert_eq!(
        text,
        "Relatório de lucro para o item 'P3':\n- 2025-01 | Vendas: 1500.50 | Compras: 0.05 | Lucro: 1500.45\n\nLucro total do item (últimos 12 meses): 10.00\nLucro total geral: 100.00\nParticipação no lucro: 10.00%\nClassificação ABC: C\n"
    );
    let empty = profit_report("X", &vec![], &classify(&vec![row("X", -12_340_000)], "X"));
    assert_eq!(
        empty,
        "Relatório de lucro para o item 'X':\nNenhum dado mensal encontrado.\n\nLucro total do item (últimos 12 meses): -12.34\nLucro total geral: -12.34\nParticipação no lucro: 0.00%\nClassificação ABC: A\n"
    );
}

#[test]
fn catalog_rows_read_the_product_records() {
    let record = obj(vec![
        ("id", s("abc")),
        ("codigo", s("P-1")),
        ("nome", s("Parafuso")),
        ("inativo", Json::Bool(true)),
        ("ipi", obj(vec![("classificacaoFiscalNCM", s("7318"))])),
        (
            "listaInfoPlus",
            Json::Array(vec![
                obj(vec![("posicao", num(3)), ("valor", s("no"))]),
                obj(vec![("posicao", num(14)), ("valor", s("marca-9"))]),
                obj(vec![("posicao", num(14)), ("valor", s("other"))]),
            ]),
        ),
    ]);
    let bare = obj(vec![("id", num(7))]);
    let rows = catalog_rows(&Json::Array(vec![record, bare]));
    assert_eq!(rows.len(), 2);
    assert_eq!(rows[0].id, "abc");
    assert_eq!(rows[0].code, "P-1");
    assert_eq!(rows[0].name, "Parafuso");
    assert_eq!(rows[0].description, "");
    assert_eq!(rows[0].status, "Inativo");
    assert_eq!(rows[0].ncm, "7318");
    assert_eq!(rows[0].brand_id, "marca-9");
    assert_eq!(rows[1].id, "");
    assert_eq!(rows[1].status, "Ativo");
    assert_eq!(rows[1].brand_id, "");
    assert!(catalog_rows(&Json::Null).is_empty());
}

#[test]
fn brand_entry_value_must_be_a_string() {
    let record = obj(vec![(
        "listaInfoPlus",
        Json::Array(vec![
            obj(vec![("posicao", num(14)), ("valor", num(5))]),
            obj(vec![("posicao", num(14)), ("valor", s("later"))]),
        ]),
    )]);
    let rows = catalog_rows(&Json::Array(vec![record]));
    assert_eq!(rows[0].brand_id, "");
}

#[test]
fn brand_lookup() {
    assert_eq!(brand_url(""), None);
    assert_eq!(
        brand_url("m1"),
        Some("https://global_trade.cr.wk.net.br/wk.api/api/empresarial/v1/informacao-complementar/m1".to_string())
    );
    assert_eq!(brand_name(Some(&obj(vec![("name", s("ACME"))]))), "ACME");
    assert_eq!(brand_name(Some(&obj(vec![("nome", s("ACME"))]))), "");
    assert_eq!(brand_name(None), "");
}

#[test]
fn ranking_keeps_every_row_and_the_total() {
    let rows = vec![row("A", 3), row("B", -2), row("C", 3), row("D", 10), row("A", 1)];
    let ranked = rank_rows(&rows);
    let mut before: Vec<(String, i64)> = rows.iter().map(|r| (r.code.clone(), r.profit)).collect();
    let mut after: Vec<(String, i64)> = ranked.iter().map(|r| (r.code.clone(), r.profit)).collect();
    assert!(ranked.windows(2).all(|w| w[0].profit >= w[1].profit));
    before.sort();
    after.sort();
    assert_eq!(before, after);
    assert_eq!(classify(&rows, "A").total_profit, 15);
    // the first "A" in the ranking (profit 3) gives the item's profit; the last decides the class
    let a = classify(&rows, "A");
    assert_eq!(a.item_profit, 3);
    assert_eq!(a.class, AbcClass::C);
}
