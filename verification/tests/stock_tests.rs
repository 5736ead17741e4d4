use gx_datalinker::json::{Json, JsonNumber};
use gx_datalinker::stock::{
    balance_request, balance_request_headers, balances, kit_balance_url, product_balance_url,
    stock_message, stored_name, StockRow,
};

fn s(t: &str) -> Json {
    Json::Str(t.to_string())
}

fn obj(fields: Vec<(&str, Json)>) -> Json {
    Json::Object(fields.into_iter().map(|(k, v)| (k.to_string(), v)).collect())
}

#[test]
fn balance_request_wraps_the_login() {
    let body = balance_request(obj(vec![("Usuario", s("u"))]));
    match body {
        Json::Object(fields) => {
            assert_eq!(fields[0].0, "login");
            assert!(matches!(&fields[0].1, Json::Object(l) if l[0].0 == "Usuario"));
            assert_eq!(fields[1].0, "filtro");
            match &fields[1].1 {
                Json::Object(f) => {
                    assert_eq!(f[0].0, "EstoqueProprio");
                    assert!(matches!(f[0].1, Json::Bool(true)));
                    assert_eq!(f[1].0, "CodigoLocais");
                    assert!(matches!(&f[1].1, Json::Str(c) if c == "46"));
                }
                _ => panic!("filter is not an object"),
            }
        }
        _ => panic!("body is not an object"),
    }
    let headers = balance_request_headers();
    assert_eq!(headers[2], ("Accept-Encoding".to_string(), "gzip, deflate, br".to_string()));
    assert!(product_balance_url().ends_with("BuscarSaldoProduto"));
    assert!(kit_balance_url().ends_with("BuscarSaldoProdutoKit"));
}

#[test]
fn balances_default_missing_fields() {
    let reply = obj(vec![(
        "BuscarSaldoProdutoResult",
        obj(vec![(
            "QuantidadeDisponivelProdutos",
            Json::Array(vec![
                obj(vec![("CodigoProduto", s("A1")), ("QuantidadeDisponivel", s("12,5"))]),
                obj(vec![(
                    "QuantidadeDisponivel",
                    Json::Number(JsonNumber { as_i64: Some(3), text: "3".to_string() }),
                )]),
            ]),
        )]),
    )]);
    let b = balances(&reply);
    assert_eq!(b.len(), 2);
    assert_eq!(b[0].code, "A1");
    assert_eq!(b[0].available, "12,5");
    assert_eq!(b[1].code, "");
    assert_eq!(b[1].available, "0");
    assert!(balances(&obj(vec![])).is_empty());
}

#[test]
fn stored_name_defaults() {
    assert_eq!(stored_name(Some("Cabo".to_string())), "Cabo");
    assert_eq!(stored_name(None), "Nome não encontrado!");
}

#[test]
fn stock_message_describes_the_row() {
    let row = StockRow { code: "A1".to_string(), available: "7".to_string(), name: "Cabo".to_string() };
    assert_eq!(
        stock_message(Some(&row), " A1 "),
        "Item em estoque encontrado!\nCódigo do produto: A1\nNome: Cabo\nQuantidade disponível: 7"
    );
    assert_eq!(stock_message(None, " A9 "), " A9 ");
}
