//! The product report: the ABC classification of a product by its share of the
//! profit of the last twelve months.
//!
//! Amounts are held in millionths of a unit. Products are ranked by profit, highest first, keeping
//! the order of the rows among equal profits; a product is class A while the running
//! share of the total profit, up to and including it, is at most 20%, class B while it
//! is at most 50%, and class C beyond. Where the total is not positive every share is
//! taken as zero.

use vstd::prelude::*;
use crate::text::{
    amount_text, decimal_digits, fixed2_text, owned, push_amount, push_fixed2, push_str, round_half_even,
    str_eq, string_push, zero_padded,
};
use crate::json::{
    as_bool, as_int, as_items, bool_of, deref_opt, get, get_in, int_of, items_of, member, member_of,
    text_or, text_or_default, Json,
};

verus! {

broadcast use vstd::seq_lib::group_to_multiset_ensures;

/// The profit of one product over the period, in millionths of a unit.
#[derive(Debug)]
pub struct ProductProfit {
    pub code: String,
    pub profit: i64,
}

/// A copy of a row.
pub fn copy_profit(p: &ProductProfit) -> (r: ProductProfit)
    ensures
        r == *p,
{
    ProductProfit { code: p.code.clone(), profit: p.profit }
}

/// The number of leading rows of `s` whose profit is at least `key`: where a row with
/// profit `key` goes when it comes after all of them.
pub open spec fn insert_pos(s: Seq<ProductProfit>, key: int) -> nat
    decreases s.len(),
{
    if s.len() == 0 {
        0
    } else if s[0].profit >= key {
        1 + insert_pos(s.drop_first(), key)
    } else {
        0
    }
}

/// `s` ranked by profit, highest first; rows of equal profit keep their order.
pub open spec fn rank_by_profit(s: Seq<ProductProfit>) -> Seq<ProductProfit>
    decreases s.len(),
{
    if s.len() == 0 {
        s
    } else {
        let r = rank_by_profit(s.drop_last());
        r.insert(insert_pos(r, s.last().profit as int) as int, s.last())
    }
}

/// The profits of `s` do not increase from one row to the next.
pub open spec fn sorted_desc(s: Seq<ProductProfit>) -> bool {
    forall|i: int, j: int| 0 <= i <= j < s.len() ==> s[i].profit >= s[j].profit
}

proof fn lemma_insert_pos_bounds(s: Seq<ProductProfit>, key: int)
    ensures
        insert_pos(s, key) <= s.len(),
        forall|i: int| 0 <= i < insert_pos(s, key) ==> s[i].profit >= key,
        insert_pos(s, key) < s.len() ==> s[insert_pos(s, key) as int].profit < key,
    decreases s.len(),
{
    if s.len() > 0 && s[0].profit >= key {
        lemma_insert_pos_bounds(s.drop_first(), key);
        assert forall|i: int| 0 <= i < insert_pos(s, key) implies s[i].profit >= key by {
            if i > 0 {
                assert(s[i] == s.drop_first()[i - 1]);
            }
        }
    }
}

proof fn lemma_rank_len(s: Seq<ProductProfit>)
    ensures
        rank_by_profit(s).len() == s.len(),
    decreases s.len(),
{
    if s.len() > 0 {
        lemma_rank_len(s.drop_last());
        lemma_insert_pos_bounds(rank_by_profit(s.drop_last()), s.last().profit as int);
    }
}

/// Ranking keeps every row: the ranked rows are the same rows, as many times each.
pub proof fn lemma_rank_permutes(s: Seq<ProductProfit>)
    ensures
        rank_by_profit(s).to_multiset() == s.to_multiset(),
    decreases s.len(),
{
    broadcast use vstd::seq_lib::to_multiset_insert, vstd::seq_lib::to_multiset_build;

    if s.len() > 0 {
        lemma_rank_permutes(s.drop_last());
        let r = rank_by_profit(s.drop_last());
        lemma_insert_pos_bounds(r, s.last().profit as int);
        assert(s.drop_last().push(s.last()) =~= s);
    }
}

/// Ranking orders the rows by profit, highest first.
pub proof fn lemma_rank_sorted(s: Seq<ProductProfit>)
    ensures
        sorted_desc(rank_by_profit(s)),
    decreases s.len(),
{
    if s.len() > 0 {
        lemma_rank_sorted(s.drop_last());
        let r = rank_by_profit(s.drop_last());
        let key = s.last().profit as int;
        let p = insert_pos(r, key) as int;
        lemma_insert_pos_bounds(r, key);
        let t = r.insert(p, s.last());
        assert forall|i: int, j: int| 0 <= i <= j < t.len() implies t[i].profit >= t[j].profit by {
            if j < p {
            } else if j == p {
                if i < p {
                }
            } else {
                if i < p {
                    assert(r[i].profit >= r[j - 1].profit);
                } else if i == p {
                    if p < r.len() {
                        assert(r[p].profit >= r[j - 1].profit);
                    }
                } else {
                    assert(r[i - 1].profit >= r[j - 1].profit);
                }
            }
        }
    }
}

/// The rows ranked by profit, highest first, rows of equal profit in their order.
pub fn rank_rows(rows: &Vec<ProductProfit>) -> (r: Vec<ProductProfit>)
    ensures
        r@ == rank_by_profit(rows@),
{
    let mut r: Vec<ProductProfit> = Vec::new();
    let mut i: usize = 0;
    while i < rows.len()
        invariant
            i <= rows@.len(),
            r@ == rank_by_profit(rows@.subrange(0, i as int)),
        decreases rows.len() - i,
    {
        let x = copy_profit(&rows[i]);
        let key = x.profit;
        let ghost prefix = rows@.subrange(0, i + 1);
        assert(prefix.drop_last() =~= rows@.subrange(0, i as int));
        assert(prefix.last() == rows@[i as int]);
        let mut p: usize = 0;
        assert(r@.subrange(0, r@.len() as int) =~= r@);
        while p < r.len() && r[p].profit >= key
            invariant
                p <= r@.len(),
                insert_pos(r@, key as int) == p + insert_pos(r@.subrange(p as int, r@.len() as int), key as int),
            decreases r.len() - p,
        {
            assert(r@.subrange(p as int, r@.len() as int).drop_first() =~= r@.subrange(p + 1, r@.len() as int));
            p = p + 1;
        }
        proof {
            if p < r@.len() {
                assert(r@.subrange(p as int, r@.len() as int)[0] == r@[p as int]);
            }
        }
        r.insert(p, x);
        i = i + 1;
    }
    assert(rows@.subrange(0, rows@.len() as int) =~= rows@);
    r
}

} // verus!

verus! {

/// The class of a product in the ABC classification.
#[derive(Clone, Copy, Debug, PartialEq, Eq, Structural)]
pub enum AbcClass {
    A,
    B,
    C,
}

/// The sum of the profits of `s`.
pub open spec fn total_profit(s: Seq<ProductProfit>) -> int
    decreases s.len(),
{
    if s.len() == 0 {
        0
    } else {
        total_profit(s.drop_last()) + s.last().profit
    }
}

/// The class of a product whose running profit, counted down the ranking up to and
/// including it, is `running`, out of a total of `total`.
pub open spec fn class_for(running: int, total: int) -> AbcClass {
    if total <= 0 {
        AbcClass::A
    } else if 5 * running <= total {
        AbcClass::A
    } else if 2 * running <= total {
        AbcClass::B
    } else {
        AbcClass::C
    }
}

/// The class of the last row of the ranking `s` with the given code (class C where no
/// row has it).
pub open spec fn class_in(s: Seq<ProductProfit>, code: Seq<char>, total: int) -> AbcClass
    decreases s.len(),
{
    if s.len() == 0 {
        AbcClass::C
    } else if s.last().code@ == code {
        class_for(total_profit(s), total)
    } else {
        class_in(s.drop_last(), code, total)
    }
}

/// The profit of the first row of `s` with the given code (zero where no row has it).
pub open spec fn first_profit(s: Seq<ProductProfit>, code: Seq<char>) -> int
    decreases s.len(),
{
    if s.len() == 0 {
        0
    } else if s[0].code@ == code {
        s[0].profit as int
    } else {
        first_profit(s.drop_first(), code)
    }
}

/// The share of `item` in `total` as the report writes it: the percentage with two
/// decimals; `0.00` where the total is not positive.
pub open spec fn share_text(item: int, total: int) -> Seq<char> {
    if total > 0 {
        fixed2_text(100 * item, total)
    } else {
        fixed2_text(0, 1)
    }
}

/// The classification of one product against all the rows of the period.
#[derive(Debug)]
pub struct ProfitSummary {
    pub class: AbcClass,
    /// The product's profit, in millionths of a unit.
    pub item_profit: i64,
    /// The profit of all products, in millionths of a unit.
    pub total_profit: i128,
}

/// The largest number of rows that the sums are computed for.
pub open spec fn max_rows() -> nat {
    0x1000_0000_0000_0000
}

proof fn lemma_total_bound(s: Seq<ProductProfit>)
    ensures
        -(s.len() * 0x8000_0000_0000_0000) <= total_profit(s) <= s.len() * 0x8000_0000_0000_0000,
    decreases s.len(),
{
    if s.len() > 0 {
        lemma_total_bound(s.drop_last());
    }
}

/// Ranking keeps the total profit.
pub proof fn lemma_rank_total(s: Seq<ProductProfit>)
    ensures
        total_profit(rank_by_profit(s)) == total_profit(s),
{
    lemma_rank_permutes(s);
    lemma_total_multiset(rank_by_profit(s), s);
}

proof fn lemma_total_multiset(a: Seq<ProductProfit>, b: Seq<ProductProfit>)
    requires
        a.to_multiset() == b.to_multiset(),
    ensures
        total_profit(a) == total_profit(b),
    decreases a.len(),
{
    broadcast use vstd::seq_lib::to_multiset_remove, vstd::seq_lib::to_multiset_build;

    vstd::seq_lib::to_multiset_len(a);
    vstd::seq_lib::to_multiset_len(b);
    if a.len() > 0 {
        let x = a.last();
        assert(a.drop_last().push(x) =~= a);
        assert(a.to_multiset().count(x) > 0);
        assert(b.to_multiset().contains(x));
        vstd::seq_lib::to_multiset_contains(b, x);
        let j = choose|j: int| 0 <= j < b.len() && b[j] == x;
        let b2 = b.remove(j);
        assert(a.drop_last().to_multiset() =~= b2.to_multiset());
        lemma_total_multiset(a.drop_last(), b2);
        lemma_total_remove(b, j);
    }
}

proof fn lemma_total_remove(s: Seq<ProductProfit>, j: int)
    requires
        0 <= j < s.len(),
    ensures
        total_profit(s) == total_profit(s.remove(j)) + s[j].profit,
    decreases s.len(),
{
    if j < s.len() - 1 {
        lemma_total_remove(s.drop_last(), j);
        assert(s.remove(j).drop_last() =~= s.drop_last().remove(j));
        assert(s.remove(j).last() == s.last());
    } else {
        assert(s.remove(j) =~= s.drop_last());
    }
}

fn class_of(running: i128, total: i128) -> (c: AbcClass)
    requires
        -0x1000_0000_0000_0000_0000_0000_0000_0000 <= running <= 0x1000_0000_0000_0000_0000_0000_0000_0000,
    ensures
        c == class_for(running as int, total as int),
{
    if total <= 0 {
        AbcClass::A
    } else if 5 * running <= total {
        AbcClass::A
    } else if 2 * running <= total {
        AbcClass::B
    } else {
        AbcClass::C
    }
}

/// The classification of the product `code` among `rows`: its class (the last row
/// with the code decides), its profit (the first such row in the ranking, or zero),
/// and the total profit.
pub fn classify(rows: &Vec<ProductProfit>, code: &str) -> (r: ProfitSummary)
    requires
        rows@.len() <= max_rows(),
    ensures
        r.class == class_in(rank_by_profit(rows@), code@, total_profit(rows@)),
        r.item_profit == first_profit(rank_by_profit(rows@), code@),
        r.total_profit == total_profit(rows@),
{
    let ranked = rank_rows(rows);
    proof {
        lemma_rank_len(rows@);
        lemma_rank_total(rows@);
        lemma_total_bound(rows@);
    }
    let n = ranked.len();
    let mut total: i128 = 0;
    let mut k: usize = 0;
    while k < n
        invariant
            n == ranked@.len(),
            n <= max_rows(),
            k <= n,
            total == total_profit(ranked@.subrange(0, k as int)),
        decreases n - k,
    {
        proof {
            lemma_total_bound(ranked@.subrange(0, k as int));
            assert(ranked@.subrange(0, k + 1).drop_last() =~= ranked@.subrange(0, k as int));
        }
        total = total + ranked[k].profit as i128;
        k = k + 1;
    }
    assert(ranked@.subrange(0, n as int) =~= ranked@);
    let mut running: i128 = 0;
    let mut class = AbcClass::C;
    let mut k: usize = 0;
    while k < n
        invariant
            n == ranked@.len(),
            n <= max_rows(),
            k <= n,
            total == total_profit(ranked@),
            running == total_profit(ranked@.subrange(0, k as int)),
            class == class_in(ranked@.subrange(0, k as int), code@, total as int),
        decreases n - k,
    {
        proof {
            lemma_total_bound(ranked@.subrange(0, k as int));
            assert(ranked@.subrange(0, k + 1).drop_last() =~= ranked@.subrange(0, k as int));
            lemma_total_bound(ranked@.subrange(0, k + 1));
        }
        running = running + ranked[k].profit as i128;
        if str_eq(ranked[k].code.as_str(), code) {
            class = class_of(running, total);
        }
        k = k + 1;
    }
    let mut item: i64 = 0;
    let mut found = false;
    let mut k: usize = 0;
    assert(ranked@.subrange(0, n as int) =~= ranked@);
    while k < n
        invariant
            n == ranked@.len(),
            k <= n,
            !found ==> first_profit(ranked@, code@) == first_profit(
                ranked@.subrange(k as int, n as int),
                code@,
            ),
            !found ==> item == 0,
            found ==> item == first_profit(ranked@, code@),
        decreases n - k,
    {
        assert(ranked@.subrange(k as int, n as int)[0] == ranked@[k as int]);
        assert(ranked@.subrange(k as int, n as int).drop_first() =~= ranked@.subrange(
            k + 1,
            n as int,
        ));
        if !found && str_eq(ranked[k].code.as_str(), code) {
            item = ranked[k].profit;
            found = true;
        }
        k = k + 1;
    }
    ProfitSummary { class, item_profit: item, total_profit: total }
}

} // verus!

verus! {

/// The order of the classes: A before B before C.
pub open spec fn class_rank(c: AbcClass) -> int {
    match c {
        AbcClass::A => 0,
        AbcClass::B => 1,
        AbcClass::C => 2,
    }
}

/// Where no product loses money, the classes never go back down the ranking: a product
/// ranked below another is in the same class or a later one.
pub proof fn lemma_classes_follow_ranking(s: Seq<ProductProfit>, i: int, j: int, total: int)
    requires
        forall|k: int| 0 <= k < s.len() ==> #[trigger] s[k].profit >= 0,
        0 <= i <= j < s.len(),
    ensures
        class_rank(class_for(total_profit(s.subrange(0, i + 1)), total)) <= class_rank(
            class_for(total_profit(s.subrange(0, j + 1)), total),
        ),
    decreases j - i,
{
    if i < j {
        lemma_classes_follow_ranking(s, i, j - 1, total);
        assert(s.subrange(0, j + 1).drop_last() =~= s.subrange(0, j));
        assert(s.subrange(0, j + 1).last() == s[j]);
    }
}

/// A code that no row has is in class C, with no profit.
pub proof fn lemma_absent_code(s: Seq<ProductProfit>, code: Seq<char>, total: int)
    requires
        forall|k: int| 0 <= k < s.len() ==> #[trigger] s[k].code@ != code,
    ensures
        class_in(s, code, total) == AbcClass::C,
        first_profit(s, code) == 0,
    decreases s.len(),
{
    if s.len() > 0 {
        assert forall|k: int| 0 <= k < s.drop_last().len() implies #[trigger] s.drop_last()[k].code@
            != code by {
            assert(s.drop_last()[k] == s[k]);
        }
        assert forall|k: int| 0 <= k < s.drop_first().len() implies #[trigger] s.drop_first()[k].code@
            != code by {
            assert(s.drop_first()[k] == s[k + 1]);
        }
        assert(s.last() == s[s.len() - 1]);
        lemma_absent_code(s.drop_last(), code, total);
        lemma_absent_code(s.drop_first(), code, total);
    }
}

/// Where the total profit is not positive, every product that has a row is in class A.
pub proof fn lemma_no_profit_class_a(s: Seq<ProductProfit>, code: Seq<char>, total: int, k: int)
    requires
        total <= 0,
        0 <= k < s.len(),
        s[k].code@ == code,
    ensures
        class_in(s, code, total) == AbcClass::A,
    decreases s.len(),
{
    if s.last().code@ != code {
        assert(s.drop_last()[k] == s[k]);
        lemma_no_profit_class_a(s.drop_last(), code, total, k);
    }
}

/// The profit of one month of a product: sales, purchases and their difference, in
/// millionths of a unit.
#[derive(Debug)]
pub struct MonthlyProfit {
    pub month: String,
    pub sales: i64,
    pub purchases: i64,
    pub profit: i64,
}

/// The report line of one month.
pub open spec fn monthly_line(m: MonthlyProfit) -> Seq<char> {
    "- "@ + m.month@ + " | Vendas: "@ + amount_text(m.sales as int) + " | Compras: "@ + amount_text(
        m.purchases as int,
    ) + " | Lucro: "@ + amount_text(m.profit as int) + "\n"@
}

/// The report lines of the months, in order.
pub open spec fn monthly_lines(ms: Seq<MonthlyProfit>) -> Seq<char>
    decreases ms.len(),
{
    if ms.len() == 0 {
        Seq::empty()
    } else {
        monthly_lines(ms.drop_last()) + monthly_line(ms.last())
    }
}

/// The letter of a class.
pub open spec fn class_letter(c: AbcClass) -> Seq<char> {
    match c {
        AbcClass::A => "A"@,
        AbcClass::B => "B"@,
        AbcClass::C => "C"@,
    }
}

/// The profit report of a product, handed to the language model.
pub open spec fn profit_report_text(code: Seq<char>, months: Seq<MonthlyProfit>, s: ProfitSummary) -> Seq<char> {
    "Relatório de lucro para o item '"@ + code + "':\n"@ + (if months.len() == 0 {
        "Nenhum dado mensal encontrado.\n"@
    } else {
        monthly_lines(months)
    }) + "\nLucro total do item (últimos 12 meses): "@ + amount_text(s.item_profit as int)
        + "\nLucro total geral: "@ + amount_text(s.total_profit as int) + "\nParticipação no lucro: "@
        + share_text(s.item_profit as int, s.total_profit as int) + "%\nClassificação ABC: "@ + class_letter(s.class) + "\n"@
}

fn push_share(r: &mut String, item: i64, total: i128)
    ensures
        final(r)@ == old(r)@ + share_text(item as int, total as int),
{
    if total <= 0 {
        push_fixed2(r, 0, 1);
    } else if total <= 0x1000_0000_0000_0000_0000_0000_0000_0000 {
        push_fixed2(r, 100 * (item as i128), total);
    } else {
        let ghost start = r@;
        let ghost m: int = if item < 0 {
            -100 * item
        } else {
            100 * item
        };
        proof {
            vstd::arithmetic::div_mod::lemma_fundamental_div_mod_converse(100 * m, total as int, 0, 100 * m);
            assert(round_half_even(100 * m, total as int) == 0);
            reveal_with_fuel(decimal_digits, 2);
            assert(decimal_digits(0) =~= seq!['0']);
            assert(zero_padded(0, 2) =~= seq!['0', '0']);
        }
        if item < 0 {
            string_push(r, '-');
        }
        string_push(r, '0');
        string_push(r, '.');
        string_push(r, '0');
        string_push(r, '0');
        assert(final(r)@ =~= start + share_text(item as int, total as int));
    }
}

fn push_class(r: &mut String, c: AbcClass)
    ensures
        final(r)@ == old(r)@ + class_letter(c),
{
    match c {
        AbcClass::A => push_str(r, "A"),
        AbcClass::B => push_str(r, "B"),
        AbcClass::C => push_str(r, "C"),
    }
}

/// The report line of one month.
pub fn month_line(m: &MonthlyProfit) -> (r: String)
    ensures
        r@ == monthly_line(*m),
{
    let mut r = owned("- ");
    push_str(&mut r, m.month.as_str());
    push_str(&mut r, " | Vendas: ");
    push_amount(&mut r, m.sales as i128);
    push_str(&mut r, " | Compras: ");
    push_amount(&mut r, m.purchases as i128);
    push_str(&mut r, " | Lucro: ");
    push_amount(&mut r, m.profit as i128);
    push_str(&mut r, "\n");
    assert(r@ =~= monthly_line(*m));
    r
}

/// The profit report of the product `code`.
pub fn profit_report(code: &str, months: &Vec<MonthlyProfit>, s: &ProfitSummary) -> (r: String)
    ensures
        r@ == profit_report_text(code@, months@, *s),
{
    let mut r = owned("Relatório de lucro para o item '");
    push_str(&mut r, code);
    push_str(&mut r, "':\n");
    let ghost head = r@;
    if months.len() == 0 {
        push_str(&mut r, "Nenhum dado mensal encontrado.\n");
    } else {
        let mut i: usize = 0;
        while i < months.len()
            invariant
                i <= months@.len(),
                r@ == head + monthly_lines(months@.subrange(0, i as int)),
            decreases months.len() - i,
        {
            let line = month_line(&months[i]);
            push_str(&mut r, line.as_str());
            assert(months@.subrange(0, i + 1).drop_last() =~= months@.subrange(0, i as int));
            assert(r@ =~= head + monthly_lines(months@.subrange(0, i + 1)));
            i = i + 1;
        }
        assert(months@.subrange(0, months@.len() as int) =~= months@);
    }
    push_str(&mut r, "\nLucro total do item (últimos 12 meses): ");
    push_amount(&mut r, s.item_profit as i128);
    push_str(&mut r, "\nLucro total geral: ");
    push_amount(&mut r, s.total_profit);
    push_str(&mut r, "\nParticipação no lucro: ");
    push_share(&mut r, s.item_profit, s.total_profit);
    push_str(&mut r, "%\nClassificação ABC: ");
    push_class(&mut r, s.class);
    push_str(&mut r, "\n");
    assert(r@ =~= profit_report_text(code@, months@, *s));
    r
}

} // verus!

verus! {

/// A product of the catalogue as the product table stores it.
#[derive(Debug)]
pub struct CatalogProduct {
    pub id: String,
    pub code: String,
    pub name: String,
    pub description: String,
    /// `Ativo` or `Inativo`.
    pub status: String,
    /// The NCM tax classification.
    pub ncm: String,
    /// The id of the brand's complementary information, empty where there is none.
    pub brand_id: String,
}

/// The entry of the complementary information that holds the brand: position 14.
pub open spec fn is_brand_entry(item: Json) -> bool {
    int_of(member(item, "posicao"@)) == Some(14i64)
}

/// The first entry of `items` that holds the brand.
pub open spec fn first_brand_entry(items: Seq<Json>) -> Option<Json>
    decreases items.len(),
{
    if items.len() == 0 {
        None
    } else if is_brand_entry(items[0]) {
        Some(items[0])
    } else {
        first_brand_entry(items.drop_first())
    }
}

/// The brand id of a product record: the value of its first brand entry, if a string.
pub open spec fn brand_id_of(p: Json) -> Seq<char> {
    match items_of(member(p, "listaInfoPlus"@)) {
        Some(items) => text_or(member_of(first_brand_entry(items), "valor"@), ""@),
        None => ""@,
    }
}

/// `Inativo` for a product marked inactive, `Ativo` otherwise.
pub open spec fn status_of(p: Json) -> Seq<char> {
    if bool_of(member(p, "inativo"@)) == Some(true) {
        "Inativo"@
    } else {
        "Ativo"@
    }
}

/// `c` is the catalogue row of the product record `p`.
pub open spec fn is_catalog_row(c: CatalogProduct, p: Json) -> bool {
    &&& c.id@ == text_or(member(p, "id"@), ""@)
    &&& c.code@ == text_or(member(p, "codigo"@), ""@)
    &&& c.name@ == text_or(member(p, "nome"@), ""@)
    &&& c.description@ == text_or(member(p, "descricao"@), ""@)
    &&& c.status@ == status_of(p)
    &&& c.ncm@ == text_or(member_of(member(p, "ipi"@), "classificacaoFiscalNCM"@), ""@)
    &&& c.brand_id@ == brand_id_of(p)
}

fn brand_id(p: &Json) -> (r: String)
    ensures
        r@ == brand_id_of(*p),
{
    match as_items(get(p, "listaInfoPlus")) {
        Some(items) => {
            let mut i: usize = 0;
            assert(items@.subrange(0, items@.len() as int) =~= items@);
            while i < items.len()
                invariant
                    i <= items@.len(),
                    items_of(member(*p, "listaInfoPlus"@)) == Some(items@),
                    first_brand_entry(items@) == first_brand_entry(
                        items@.subrange(i as int, items@.len() as int),
                    ),
                decreases items.len() - i,
            {
                assert(items@.subrange(i as int, items@.len() as int)[0] == items@[i as int]);
                assert(items@.subrange(i as int, items@.len() as int).drop_first()
                    =~= items@.subrange(i + 1, items@.len() as int));
                if as_int(get(&items[i], "posicao")) == Some(14i64) {
                    return text_or_default(get(&items[i], "valor"), "");
                }
                i = i + 1;
            }
            owned("")
        },
        None => owned(""),
    }
}

/// The catalogue row of a product record.
pub fn catalog_row(p: &Json) -> (c: CatalogProduct)
    ensures
        is_catalog_row(c, *p),
{
    let inactive = match as_bool(get(p, "inativo")) {
        Some(b) => b,
        None => false,
    };
    CatalogProduct {
        id: text_or_default(get(p, "id"), ""),
        code: text_or_default(get(p, "codigo"), ""),
        name: text_or_default(get(p, "nome"), ""),
        description: text_or_default(get(p, "descricao"), ""),
        status: if !inactive {
            owned("Ativo")
        } else {
            owned("Inativo")
        },
        ncm: text_or_default(get_in(get(p, "ipi"), "classificacaoFiscalNCM"), ""),
        brand_id: brand_id(p),
    }
}

/// The catalogue rows of the product list that the API returns (none where it is not a
/// list).
pub fn catalog_rows(list: &Json) -> (rows: Vec<CatalogProduct>)
    ensures
        match list {
            Json::Array(items) => rows@.len() == items@.len() && forall|i: int|
                0 <= i < items@.len() ==> #[trigger] is_catalog_row(rows@[i], items@[i]),
            _ => rows@.len() == 0,
        },
{
    let mut rows: Vec<CatalogProduct> = Vec::new();
    match list {
        Json::Array(items) => {
            let mut i: usize = 0;
            while i < items.len()
                invariant
                    i <= items@.len(),
                    rows@.len() == i,
                    forall|k: int| 0 <= k < i ==> #[trigger] is_catalog_row(rows@[k], items@[k]),
                decreases items.len() - i,
            {
                rows.push(catalog_row(&items[i]));
                i = i + 1;
            }
        },
        _ => {},
    }
    rows
}

/// The address of the brand's complementary information, where the product has a brand.
pub fn brand_url(brand_id: &str) -> (r: Option<String>)
    ensures
        brand_id@.len() == 0 ==> r is None,
        brand_id@.len() > 0 ==> (r matches Some(u) && u@
            == "https://global_trade.cr.wk.net.br/wk.api/api/empresarial/v1/informacao-complementar/"@
            + brand_id@),
{
    if brand_id.is_empty() {
        None
    } else {
        let mut u = owned(
            "https://global_trade.cr.wk.net.br/wk.api/api/empresarial/v1/informacao-complementar/",
        );
        push_str(&mut u, brand_id);
        Some(u)
    }
}

/// The brand name from the complementary information, or empty where the request
/// failed or the reply has no name.
pub fn brand_name(reply: Option<&Json>) -> (r: String)
    ensures
        r@ == text_or(member_of(deref_opt(reply), "name"@), ""@),
{
    text_or_default(get_in(reply, "name"), "")
}

} // verus!

verus! {

/// The rows whose profit is `v`.
pub open spec fn with_profit(v: int) -> spec_fn(ProductProfit) -> bool {
    |r: ProductProfit| r.profit == v
}

proof fn lemma_filter_none(s: Seq<ProductProfit>, pred: spec_fn(ProductProfit) -> bool)
    requires
        forall|i: int| 0 <= i < s.len() ==> !pred(#[trigger] s[i]),
    ensures
        s.filter(pred) == Seq::<ProductProfit>::empty(),
    decreases s.len(),
{
    reveal_with_fuel(Seq::filter, 1);
    if s.len() > 0 {
        assert forall|i: int| 0 <= i < s.drop_last().len() implies !pred(#[trigger] s.drop_last()[i]) by {
            assert(s.drop_last()[i] == s[i]);
        }
        lemma_filter_none(s.drop_last(), pred);
        assert(!pred(s[s.len() - 1]));
    }
}

/// Ranking is stable: the rows of any one profit come out in the order they came in.
pub proof fn lemma_rank_stable(s: Seq<ProductProfit>, v: int)
    ensures
        rank_by_profit(s).filter(with_profit(v)) == s.filter(with_profit(v)),
    decreases s.len(),
{
    reveal_with_fuel(Seq::filter, 1);
    if s.len() > 0 {
        let pred = with_profit(v);
        let x = s.last();
        let r = rank_by_profit(s.drop_last());
        lemma_rank_stable(s.drop_last(), v);
        lemma_rank_sorted(s.drop_last());
        let key = x.profit as int;
        lemma_insert_pos_bounds(r, key);
        let p = insert_pos(r, key) as int;
        let head = r.subrange(0, p);
        let tail = r.subrange(p, r.len() as int);
        assert(r == head + tail);
        assert(r.insert(p, x) =~= head + seq![x] + tail);
        Seq::filter_distributes_over_add(head, tail, pred);
        Seq::filter_distributes_over_add(head + seq![x], tail, pred);
        Seq::filter_distributes_over_add(head, seq![x], pred);
        assert(seq![x].drop_last() =~= Seq::<ProductProfit>::empty());
        if x.profit == v {
            assert forall|i: int| 0 <= i < tail.len() implies !pred(#[trigger] tail[i]) by {
                assert(tail[i] == r[p + i]);
                assert(r[p].profit >= r[p + i].profit);
            }
            lemma_filter_none(tail, pred);
            assert(seq![x].filter(pred) =~= seq![x]);
            assert(s.filter(pred) == s.drop_last().filter(pred).push(x));
            assert(rank_by_profit(s) == r.insert(p, x));
            assert(rank_by_profit(s).filter(pred) =~= s.filter(pred));
        } else {
            assert(!pred(x));
            assert(seq![x].drop_last().filter(pred) =~= Seq::<ProductProfit>::empty());
            assert(seq![x].filter(pred) =~= Seq::<ProductProfit>::empty());
            assert(rank_by_profit(s).filter(pred) =~= s.filter(pred));
        }
    }
}

} // verus!

verus! {

/// A product that earns no more than a positive total has a share between 0.00% and
/// 100.00%: the hundredths of a percent that the report writes lie in `0..=10000`.
pub proof fn lemma_share_bounds(item: int, total: int)
    requires
        0 <= item <= total,
        total > 0,
    ensures
        0 <= round_half_even(100 * (100 * item), total) <= 10000,
{
    let n = 100 * (100 * item);
    assert(0 <= n / total <= 10000) by (nonlinear_arith)
        requires
            n == 10000 * item,
            0 <= item <= total,
            total > 0,
    ;
    assert(n / total == 10000 ==> n % total == 0) by (nonlinear_arith)
        requires
            n == 10000 * item,
            0 <= item <= total,
            total > 0,
    ;
}

} // verus!

verus! {

/// The month lines of a list of rows joined to a second list are the month lines of the first
/// followed by those of the second: every row keeps its place and none is dropped,
/// whatever it holds or however many rows come before it.
pub proof fn lemma_monthly_lines_concat(a: Seq<MonthlyProfit>, b: Seq<MonthlyProfit>)
    ensures
        monthly_lines(a + b) == monthly_lines(a) + monthly_lines(b),
    decreases b.len(),
{
    if b.len() == 0 {
        assert(a + b =~= a);
        assert(monthly_lines(a) + monthly_lines(b) =~= monthly_lines(a));
    } else {
        lemma_monthly_lines_concat(a, b.drop_last());
        assert((a + b).drop_last() =~= a + b.drop_last());
        assert((a + b).last() == b.last());
        assert(monthly_lines(a + b) =~= monthly_lines(a) + (monthly_lines(b.drop_last()) + monthly_line(b.last())));
    }
}

/// A single row gives exactly its own text.
pub proof fn lemma_monthly_lines_single(x: MonthlyProfit)
    ensures
        monthly_lines(seq![x]) == monthly_line(x),
{
    assert(seq![x].drop_last() =~= Seq::<MonthlyProfit>::empty());
    assert(seq![x].last() == x);
    assert(monthly_lines(seq![x].drop_last()) =~= Seq::<char>::empty());
    assert(monthly_lines(seq![x]) =~= monthly_line(x));
}

/// The text of a list is the texts of its rows one after another: its length is the
/// sum of theirs, and the text of each row stands at the offset of the rows before it.
pub proof fn lemma_monthly_lines_each_row(s: Seq<MonthlyProfit>, i: int)
    requires
        0 <= i < s.len(),
    ensures
        monthly_lines(s) == monthly_lines(s.subrange(0, i)) + monthly_line(s[i]) + monthly_lines(s.subrange(i + 1, s.len() as int)),
{
    assert(s =~= s.subrange(0, i) + seq![s[i]] + s.subrange(i + 1, s.len() as int));
    lemma_monthly_lines_concat(s.subrange(0, i) + seq![s[i]], s.subrange(i + 1, s.len() as int));
    lemma_monthly_lines_concat(s.subrange(0, i), seq![s[i]]);
    lemma_monthly_lines_single(s[i]);
}

} // verus!

verus! {

/// The class follows the running share of a positive total, in percent: A while it is at
/// most 20%, B while it is above 20% and at most 50%, C above 50%. Where the total is not
/// positive every share counts as zero and the class is A.
pub proof fn lemma_class_thresholds(running: int, total: int)
    ensures
        total > 0 ==> (class_for(running, total) == AbcClass::A <==> 100 * running <= 20 * total),
        total > 0 ==> (class_for(running, total) == AbcClass::B <==> 20 * total < 100 * running
            && 100 * running <= 50 * total),
        total > 0 ==> (class_for(running, total) == AbcClass::C <==> 50 * total < 100 * running),
        total <= 0 ==> class_for(running, total) == AbcClass::A,
{
}

} // verus!
