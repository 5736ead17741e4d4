//! The conversation with the language model that writes the reports: the bounded
//! history of messages, the request body, and what a reply leaves in the history.

use vstd::prelude::*;
use crate::json::{at, element_of, get, get_in, member, member_of, text_of, text_or_default, Json};
use crate::text::owned;

verus! {

/// The number of messages that a history keeps.
pub const HISTORY_LIMIT: usize = 10;

/// The model that writes the reports.
pub fn model_name() -> (r: String)
    ensures
        r@ == "gpt-4-turbo"@,
{
    owned("gpt-4-turbo")
}

/// One message of a conversation: its role (`system`, `user` or `assistant`) and text.
#[derive(Debug)]
pub struct ChatMessage {
    pub role: String,
    pub content: String,
}

/// A message with the given role and text.
pub fn message(role: &str, content: &str) -> (m: ChatMessage)
    ensures
        m.role@ == role@,
        m.content@ == content@,
{
    ChatMessage { role: owned(role), content: owned(content) }
}

/// A copy of a message.
pub fn copy_message(m: &ChatMessage) -> (r: ChatMessage)
    ensures
        r == *m,
{
    ChatMessage { role: m.role.clone(), content: m.content.clone() }
}

/// The last `n` items of `s` (all of them where there are fewer).
pub open spec fn keep_last<A>(s: Seq<A>, n: nat) -> Seq<A> {
    if s.len() > n {
        s.subrange(s.len() - n, s.len() as int)
    } else {
        s
    }
}

/// The messages of a conversation, oldest first, at most `HISTORY_LIMIT` of them.
pub struct ChatHistory {
    messages: Vec<ChatMessage>,
}

impl View for ChatHistory {
    type V = Seq<ChatMessage>;

    closed spec fn view(&self) -> Seq<ChatMessage> {
        self.messages@
    }
}

impl ChatHistory {
    #[verifier::type_invariant]
    spec fn bounded(self) -> bool {
        self.messages@.len() <= HISTORY_LIMIT
    }

    /// An empty history.
    pub fn new() -> (h: ChatHistory)
        ensures
            h@ == Seq::<ChatMessage>::empty(),
    {
        ChatHistory { messages: Vec::new() }
    }

    /// The number of messages kept; never more than `HISTORY_LIMIT`.
    pub fn len(&self) -> (n: usize)
        ensures
            n == self@.len(),
            n <= HISTORY_LIMIT,
    {
        proof {
            use_type_invariant(self);
        }
        self.messages.len()
    }

    /// The message at position `i`, oldest first.
    pub fn get(&self, i: usize) -> (m: &ChatMessage)
        requires
            i < self@.len(),
        ensures
            *m == self@[i as int],
    {
        &self.messages[i]
    }

    /// Adds a message at the end and drops the oldest ones beyond `HISTORY_LIMIT`.
    pub fn record(&mut self, m: ChatMessage)
        ensures
            final(self)@ == keep_last(old(self)@.push(m), HISTORY_LIMIT as nat),
            final(self)@.len() <= HISTORY_LIMIT,
    {
        proof {
            use_type_invariant(&*self);
        }
        let mut messages: Vec<ChatMessage> = Vec::new();
        std::mem::swap(&mut messages, &mut self.messages);
        let ghost all = messages@.push(m);
        messages.push(m);
                while messages.len() > HISTORY_LIMIT
            invariant
                messages@.len() >= HISTORY_LIMIT || messages@ == all,
                all.len() <= HISTORY_LIMIT + 1,
                messages@.len() <= all.len(),
                messages@ == all.subrange(all.len() - messages@.len(), all.len() as int),
            decreases messages.len(),
        {
            messages.remove(0);
            assert(messages@ =~= all.subrange(all.len() - messages@.len(), all.len() as int));
        }
        assert(messages@ =~= keep_last(all, HISTORY_LIMIT as nat));
        self.messages = messages;
    }

    /// Adds a message of the user.
    pub fn record_user(&mut self, content: &str)
        ensures
            final(self)@.len() <= HISTORY_LIMIT,
            final(self)@.len() > 0,
            final(self)@.last().role@ == "user"@,
            final(self)@.last().content@ == content@,
            final(self)@.drop_last() == keep_last(old(self)@, (HISTORY_LIMIT - 1) as nat),
    {
        let m = message("user", content);
        self.record(m);
        proof {
            lemma_keep_last_push(old(self)@, m, HISTORY_LIMIT as nat);
        }
    }

    /// Adds a message of the assistant.
    pub fn record_assistant(&mut self, content: &str)
        ensures
            final(self)@.len() <= HISTORY_LIMIT,
            final(self)@.len() > 0,
            final(self)@.last().role@ == "assistant"@,
            final(self)@.last().content@ == content@,
            final(self)@.drop_last() == keep_last(old(self)@, (HISTORY_LIMIT - 1) as nat),
    {
        let m = message("assistant", content);
        self.record(m);
        proof {
            lemma_keep_last_push(old(self)@, m, HISTORY_LIMIT as nat);
        }
    }

    /// The messages of a request: the system prompt, then the history.
    pub fn request_messages(&self, system_prompt: &str) -> (r: Vec<ChatMessage>)
        ensures
            r@.len() == self@.len() + 1,
            r@[0].role@ == "system"@,
            r@[0].content@ == system_prompt@,
            r@.drop_first() == self@,
    {
        let mut r: Vec<ChatMessage> = Vec::new();
        r.push(message("system", system_prompt));
        let mut i: usize = 0;
        while i < self.messages.len()
            invariant
                i <= self@.len(),
                r@.len() == i + 1,
                r@[0].role@ == "system"@,
                r@[0].content@ == system_prompt@,
                r@.drop_first() == self@.subrange(0, i as int),
            decreases self@.len() - i,
        {
            r.push(copy_message(&self.messages[i]));
            assert(r@.drop_first() =~= self@.subrange(0, i + 1));
            i = i + 1;
        }
        assert(self@.subrange(0, self@.len() as int) =~= self@);
        r
    }
}

/// Adding one item and keeping the last `n` is keeping the last `n - 1` and adding it.
pub proof fn lemma_keep_last_push<A>(s: Seq<A>, x: A, n: nat)
    requires
        n > 0,
    ensures
        keep_last(s.push(x), n).len() > 0,
        keep_last(s.push(x), n).last() == x,
        keep_last(s.push(x), n).drop_last() == keep_last(s, (n - 1) as nat),
{
    assert(keep_last(s.push(x), n).drop_last() =~= keep_last(s, (n - 1) as nat));
}

/// Trimming a sequence before adding to it and trimming again is trimming once at the end.
pub proof fn lemma_keep_last_twice(before: Seq<ChatMessage>, added: Seq<ChatMessage>)
    ensures
        keep_last(keep_last(before, HISTORY_LIMIT as nat) + added, HISTORY_LIMIT as nat)
            == keep_last(before + added, HISTORY_LIMIT as nat),
{
    let n = HISTORY_LIMIT as nat;
    let a = keep_last(before, n) + added;
    let b = before + added;
    assert(keep_last(a, n) =~= keep_last(b, n));
}

/// The history after recording each of `added` in turn, starting from `h`.
pub open spec fn record_all(h: Seq<ChatMessage>, added: Seq<ChatMessage>) -> Seq<ChatMessage>
    decreases added.len(),
{
    if added.len() == 0 {
        h
    } else {
        keep_last(record_all(h, added.drop_last()).push(added.last()), HISTORY_LIMIT as nat)
    }
}

/// Recording messages one after another leaves the last `HISTORY_LIMIT` of everything
/// recorded, oldest first: the newest messages are never the ones dropped.
pub proof fn lemma_history_keeps_latest(h: Seq<ChatMessage>, added: Seq<ChatMessage>)
    requires
        h.len() <= HISTORY_LIMIT,
    ensures
        record_all(h, added) == keep_last(h + added, HISTORY_LIMIT as nat),
    decreases added.len(),
{
    if added.len() == 0 {
        assert(h + added =~= h);
    } else {
        let x = added.last();
        let rest = added.drop_last();
        lemma_history_keeps_latest(h, rest);
        lemma_keep_last_twice(h + rest, seq![x]);
        assert(record_all(h, rest).push(x) =~= keep_last(h + rest, HISTORY_LIMIT as nat) + seq![x]);
        assert(h + rest + seq![x] =~= h + added);
    }
}

} // verus!

verus! {

/// `j` is the JSON object `{"role": .., "content": ..}` of message `m`.
pub open spec fn is_message_json(j: Json, m: ChatMessage) -> bool {
    &&& j matches Json::Object(fields)
    &&& fields@.len() == 2
    &&& fields@[0].0@ == "role"@
    &&& fields@[0].1 matches Json::Str(role) && role@ == m.role@
    &&& fields@[1].0@ == "content"@
    &&& fields@[1].1 matches Json::Str(content) && content@ == m.content@
}

/// The JSON object of a message.
pub fn message_json(m: &ChatMessage) -> (j: Json)
    ensures
        is_message_json(j, *m),
{
    Json::Object(
        vec![
            (owned("role"), Json::Str(m.role.clone())),
            (owned("content"), Json::Str(m.content.clone())),
        ],
    )
}

/// `j` is the request body `{"model": model, "messages": [..]}` for `messages`.
pub open spec fn is_request_body(j: Json, model: Seq<char>, messages: Seq<ChatMessage>) -> bool {
    &&& j matches Json::Object(fields)
    &&& fields@.len() == 2
    &&& fields@[0].0@ == "model"@
    &&& fields@[0].1 matches Json::Str(m) && m@ == model
    &&& fields@[1].0@ == "messages"@
    &&& fields@[1].1 matches Json::Array(items) && items@.len() == messages.len() && forall|i: int|
        0 <= i < messages.len() ==> #[trigger] is_message_json(items@[i], messages[i])
}

/// The body of a chat completion request.
pub fn request_body(model: &str, messages: &Vec<ChatMessage>) -> (j: Json)
    ensures
        is_request_body(j, model@, messages@),
{
    let mut items: Vec<Json> = Vec::new();
    let mut i: usize = 0;
    while i < messages.len()
        invariant
            i <= messages@.len(),
            items@.len() == i,
            forall|k: int| 0 <= k < i ==> #[trigger] is_message_json(items@[k], messages@[k]),
        decreases messages.len() - i,
    {
        items.push(message_json(&messages[i]));
        i = i + 1;
    }
    Json::Object(vec![(owned("model"), Json::Str(owned(model))), (owned("messages"), Json::Array(items))])
}

/// The text of the first choice of a chat completion reply
/// (`reply["choices"][0]["message"]["content"]`), if it is a string.
pub open spec fn reply_content(reply: Json) -> Option<Seq<char>> {
    text_of(member_of(member_of(element_of(member(reply, "choices"@), 0), "message"@), "content"@))
}

/// The text of the first choice of `reply`, or `fallback`.
pub fn reply_text(reply: &Json, fallback: &str) -> (r: String)
    ensures
        r@ == (match reply_content(*reply) {
            Some(c) => c,
            None => fallback@,
        }),
{
    let choices = get(reply, "choices");
    let first = at(choices, 0);
    let msg = get_in(first, "message");
    let content = get_in(msg, "content");
    text_or_default(content, fallback)
}

/// What came of sending a request to the language model.
pub enum ChatOutcome {
    /// The request could not be sent.
    SendFailed,
    /// The reply came, but its body could not be read.
    BodyUnreadable,
    /// The body of the reply, parsed as JSON where it is JSON.
    Body(Option<Json>),
}

/// The answer given when a reply holds no text.
pub open spec fn no_answer() -> Seq<char> {
    "Erro: sem resposta da IA"@
}

/// The text that a reply gives, where its body was read: the content of the first
/// choice, or the answer for no text.
pub open spec fn answer_of(body: Option<Json>) -> Seq<char> {
    match body {
        Some(j) => match reply_content(j) {
            Some(c) => c,
            None => no_answer(),
        },
        None => no_answer(),
    }
}

fn answer_from(body: &Option<Json>) -> (r: String)
    ensures
        r@ == answer_of(*body),
{
    match body {
        Some(j) => reply_text(j, "Erro: sem resposta da IA"),
        None => owned("Erro: sem resposta da IA"),
    }
}

/// Ends an exchange of the product and invoice reports: a reply whose body was read or
/// not is answered and recorded as the assistant's message (an unreadable body holds
/// no text); a request that was not sent is answered with an error and not recorded.
pub fn finish_exchange(history: &mut ChatHistory, outcome: ChatOutcome) -> (r: String)
    ensures
        outcome is SendFailed ==> r@ == "Erro na requisição para a IA"@ && final(history)@ == old(
            history,
        )@,
        outcome is BodyUnreadable ==> r@ == no_answer(),
        outcome matches ChatOutcome::Body(body) ==> r@ == answer_of(body),
        !(outcome is SendFailed) ==> {
            &&& final(history)@.len() > 0
            &&& final(history)@.last().role@ == "assistant"@
            &&& final(history)@.last().content@ == r@
            &&& final(history)@.drop_last() == keep_last(old(history)@, (HISTORY_LIMIT - 1) as nat)
        },
{
    match outcome {
        ChatOutcome::SendFailed => owned("Erro na requisição para a IA"),
        ChatOutcome::BodyUnreadable => {
            let content = owned("Erro: sem resposta da IA");
            history.record_assistant(content.as_str());
            content
        },
        ChatOutcome::Body(body) => {
            let content = answer_from(&body);
            history.record_assistant(content.as_str());
            content
        },
    }
}

} // verus!

verus! {

/// Ends an exchange of the purchase order report: a reply whose body was read is
/// answered and recorded as the assistant's message; a request that was not sent, or a
/// body that could not be read, is answered with an error and not recorded.
pub fn finish_order_exchange(history: &mut ChatHistory, outcome: ChatOutcome) -> (r: String)
    ensures
        outcome is SendFailed ==> r@ == "Erro: falha na requisição HTTP"@,
        outcome is BodyUnreadable ==> r@ == "Erro: body ilegível"@,
        !(outcome is Body) ==> final(history)@ == old(history)@,
        outcome matches ChatOutcome::Body(body) ==> {
            &&& r@ == answer_of(body)
            &&& final(history)@.len() > 0
            &&& final(history)@.last().role@ == "assistant"@
            &&& final(history)@.last().content@ == r@
            &&& final(history)@.drop_last() == keep_last(old(history)@, (HISTORY_LIMIT - 1) as nat)
        },
{
    match outcome {
        ChatOutcome::SendFailed => owned("Erro: falha na requisição HTTP"),
        ChatOutcome::BodyUnreadable => owned("Erro: body ilegível"),
        ChatOutcome::Body(body) => {
            let content = answer_from(&body);
            history.record_assistant(content.as_str());
            content
        },
    }
}

/// Ends an exchange of the stock report: the content of the first choice of the reply,
/// or `"Erro na resposta"`, is answered and recorded as the assistant's message.
pub fn finish_stock_exchange(history: &mut ChatHistory, reply: &Json) -> (r: String)
    ensures
        r@ == (match reply_content(*reply) {
            Some(c) => c,
            None => "Erro na resposta"@,
        }),
        final(history)@.len() > 0,
        final(history)@.last().role@ == "assistant"@,
        final(history)@.last().content@ == r@,
        final(history)@.drop_last() == keep_last(old(history)@, (HISTORY_LIMIT - 1) as nat),
{
    let content = reply_text(reply, "Erro na resposta");
    history.record_assistant(content.as_str());
    content
}

/// The messages of a request without history: the system prompt and the user's text.
pub fn single_turn_messages(system_prompt: &str, user_text: &str) -> (r: Vec<ChatMessage>)
    ensures
        r@.len() == 2,
        r@[0].role@ == "system"@,
        r@[0].content@ == system_prompt@,
        r@[1].role@ == "user"@,
        r@[1].content@ == user_text@,
{
    vec![message("system", system_prompt), message("user", user_text)]
}

/// The instructions for the stock report.
pub fn stock_prompt() -> (r: String)
    ensures
        r@ == "Você é uma IA focada em dar relatorios de estoque com base no que vou te passar\n              Não escreva nada além das informações q eu passei, apenas se eu tiver duvida sobre\n               algo relacionado aquele item. se receber um código mas sem demais informações diga que o item não existe ou não tem em estoque."@,
{
    owned(
        "Você é uma IA focada em dar relatorios de estoque com base no que vou te passar\n              Não escreva nada além das informações q eu passei, apenas se eu tiver duvida sobre\n               algo relacionado aquele item. se receber um código mas sem demais informações diga que o item não existe ou não tem em estoque.",
    )
}

/// The instructions for the product report.
pub fn product_prompt() -> (r: String)
    ensures
        r@ == "Você é um IA focada em dar relatorios de items, não opne nem diga algo desnecessario se eu n pedir"@,
{
    owned(
        "Você é um IA focada em dar relatorios de items, não opne nem diga algo desnecessario se eu n pedir",
    )
}

/// The instructions for the invoice report.
pub fn invoice_prompt() -> (r: String)
    ensures
        r@ == "Você é um IA focada em dar relatorios de notas fiscais, faça um relatorio igual o q vou te mandar e não opne nem responda coisas, se identificar que eu não mandei um relatorio responda com 'nota fiscal n encontrada contatar o suporte'"@,
{
    owned(
        "Você é um IA focada em dar relatorios de notas fiscais, faça um relatorio igual o q vou te mandar e não opne nem responda coisas, se identificar que eu não mandei um relatorio responda com 'nota fiscal n encontrada contatar o suporte'",
    )
}

/// The instructions for the invoice report of the first invoice service.
pub fn invoice_robot_prompt() -> (r: String)
    ensures
        r@ == "Você é um robo focado em fazer relatorio de notas fiscais"@,
{
    owned("Você é um robo focado em fazer relatorio de notas fiscais")
}

/// The instructions for the purchase order report.
pub fn order_prompt() -> (r: String)
    ensures
        r@ == "Organize os dados da Ordem de Compra em formato de relatório objetivo,\n             separando por categorias (Dados Gerais, Logística, Financeiro, Observações). Não analise ou sugira ações.\n              se receber um código mas sem demais informações diga que o item não existe ou não foi comprado."@,
{
    owned(
        "Organize os dados da Ordem de Compra em formato de relatório objetivo,\n             separando por categorias (Dados Gerais, Logística, Financeiro, Observações). Não analise ou sugira ações.\n              se receber um código mas sem demais informações diga que o item não existe ou não foi comprado.",
    )
}

} // verus!
