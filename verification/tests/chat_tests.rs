use gx_datalinker::chat::{
    finish_exchange, finish_order_exchange, finish_stock_exchange, model_name, order_prompt,
    reply_text, request_body, single_turn_messages, stock_prompt, ChatHistory, ChatOutcome,
    HISTORY_LIMIT,
};
use gx_datalinker::json::{Json, JsonNumber};

fn s(t: &str) -> Json {
    Json::Str(t.to_string())
}

fn obj(fields: Vec<(&str, Json)>) -> Json {
    Json::Object(fields.into_iter().map(|(k, v)| (k.to_string(), v)).collect())
}

fn reply(content: Json) -> Json {
    obj(vec![(
        "choices",
        Json::Array(vec![obj(vec![("message", obj(vec![("role", s("assistant")), ("content", content)]))])]),
    )])
}

#[test]
fn history_keeps_the_last_ten_messages() {
    let mut h = ChatHistory::new();
    for i in 0..12 {
        h.record_user(&format!("pergunta {}", i));
    }
    assert_eq!(h.len(), HISTORY_LIMIT);
    assert_eq!(h.get(0).content, "pergunta 2");
    assert_eq!(h.get(9).content, "pergunta 11");
    h.record_assistant("resposta");
    assert_eq!(h.len(), 10);
    assert_eq!(h.get(0).content, "pergunta 3");
    assert_eq!(h.get(9).role, "assistant");
}

#[test]
fn request_starts_with_the_system_prompt() {
    let mut h = ChatHistory::new();
    h.record_user("olá");
    let msgs = h.request_messages("sistema");
    assert_eq!(msgs.len(), 2);
    assert_eq!(msgs[0].role, "system");
    assert_eq!(msgs[0].content, "sistema");
    assert_eq!(msgs[1].role, "user");
    assert_eq!(msgs[1].content, "olá");
}

#[test]
fn request_body_names_model_and_messages() {
    let msgs = single_turn_messages("p", "u");
    let body = request_body(&model_name(), &msgs);
    match body {
        Json::Object(fields) => {
            assert_eq!(fields[0].0, "model");
            assert!(matches!(&fields[0].1, Json::Str(m) if m == "gpt-4-turbo"));
            assert_eq!(fields[1].0, "messages");
            match &fields[1].1 {
                Json::Array(items) => {
                    assert_eq!(items.len(), 2);
                    match &items[1] {
                        Json::Object(f) => {
                            assert_eq!(f[0].0, "role");
                            assert!(matches!(&f[0].1, Json::Str(r) if r == "user"));
                            assert!(matches!(&f[1].1, Json::Str(c) if c == "u"));
                        }
                        _ => panic!("message is not an object"),
                    }
                }
                _ => panic!("messages is not an array"),
            }
        }
        _ => panic!("body is not an object"),
    }
}

#[test]
fn reply_text_reads_the_first_choice() {
    assert_eq!(reply_text(&reply(s("relatório")), "Erro na resposta"), "relatório");
    assert_eq!(reply_text(&reply(Json::Null), "Erro na resposta"), "Erro na resposta");
    assert_eq!(reply_text(&obj(vec![("error", s("x"))]), "Erro na resposta"), "Erro na resposta");
    let number = Json::Number(JsonNumber { as_i64: Some(3), text: "3".to_string() });
    assert_eq!(reply_text(&reply(number), "fallback"), "fallback");
}

#[test]
fn unsent_request_is_not_recorded() {
    let mut h = ChatHistory::new();
    h.record_user("pergunta");
    let r = finish_exchange(&mut h, ChatOutcome::SendFailed);
    assert_eq!(r, "Erro na requisição para a IA");
    assert_eq!(h.len(), 1);
}

#[test]
fn unreadable_body_is_recorded_as_no_answer() {
    let mut h = ChatHistory::new();
    let r = finish_exchange(&mut h, ChatOutcome::BodyUnreadable);
    assert_eq!(r, "Erro: sem resposta da IA");
    assert_eq!(h.len(), 1);
    assert_eq!(h.get(0).role, "assistant");
    let r = finish_exchange(&mut h, ChatOutcome::Body(None));
    assert_eq!(r, "Erro: sem resposta da IA");
    let r = finish_exchange(&mut h, ChatOutcome::Body(Some(reply(s("ok")))));
    assert_eq!(r, "ok");
    assert_eq!(h.len(), 3);
    assert_eq!(h.get(2).content, "ok");
}

#[test]
fn order_exchange_errors_are_not_recorded() {
    let mut h = ChatHistory::new();
    assert_eq!(finish_order_exchange(&mut h, ChatOutcome::SendFailed), "Erro: falha na requisição HTTP");
    assert_eq!(finish_order_exchange(&mut h, ChatOutcome::BodyUnreadable), "Erro: body ilegível");
    assert_eq!(h.len(), 0);
    assert_eq!(finish_order_exchange(&mut h, ChatOutcome::Body(Some(reply(s("r"))))), "r");
    assert_eq!(h.len(), 1);
}

#[test]
fn stock_exchange_records_the_fallback() {
    let mut h = ChatHistory::new();
    assert_eq!(finish_stock_exchange(&mut h, &Json::Null), "Erro na resposta");
    assert_eq!(h.get(0).content, "Erro na resposta");
}

#[test]
fn prompts_keep_their_layout() {
    assert!(stock_prompt().contains("passar\n              Não escreva"));
    assert!(order_prompt().starts_with("Organize os dados da Ordem de Compra"));
}
