//! The text of a summoning projection: its on-screen lines and the rows of the
//! analysis report.

use vstd::prelude::*;
use vstd::string::*;
use crate::text::{
    decimal, decimal_text, digits_value, framed_number, lemma_decimal_reads_back, right_align,
    right_aligned,
};

verus! {

/// The line printed for one sniped pull: the orbs before and after it and the
/// pull's number, each right-aligned in four columns.
pub open spec fn snipe_line_text(orbs_before: nat, current: nat) -> Seq<char> {
    right_aligned(decimal(orbs_before), 4) + " - 5 = "@ + right_aligned(decimal((orbs_before - 5) as nat), 4)
        + " | + 1 character summoned (current: "@ + right_aligned(decimal(current), 4) + ")"@
}

/// The line printed for one pull inside a circle.
pub open spec fn circle_line_text(before: nat, cost: nat, current: nat) -> Seq<char> {
    decimal(before) + " - "@ + decimal(cost) + " = "@ + decimal((before - cost) as nat)
        + " | + 1 character summoned (current: "@ + decimal(current) + ")"@
}

/// The line of a sniped pull shows the orbs in hand, then those orbs less the
/// 5 that the pull costs, then the pull's number, each right-aligned in four
/// columns; the middle number reads back as the orbs after the pull.
pub proof fn lemma_snipe_line_shows_the_spend(orbs_before: nat, current: nat)
    requires
        orbs_before >= 5,
    ensures
        snipe_line_text(orbs_before, current) == right_aligned(decimal(orbs_before), 4) + " - 5 = "@
            + right_aligned(decimal((orbs_before - 5) as nat), 4) + " | + 1 character summoned (current: "@
            + right_aligned(decimal(current), 4) + ")"@,
        digits_value(decimal((orbs_before - 5) as nat)) + 5 == orbs_before,
        digits_value(decimal(orbs_before)) == orbs_before,
        digits_value(decimal(current)) == current,
{
    lemma_decimal_reads_back((orbs_before - 5) as nat);
    lemma_decimal_reads_back(orbs_before);
    lemma_decimal_reads_back(current);
}

/// The line of a pull inside a circle states a true subtraction: the number
/// after ` = ` reads back as the orbs before less the pull's cost.
pub proof fn lemma_circle_line_subtracts(before: nat, cost: nat, current: nat)
    requires
        cost <= before,
    ensures
        circle_line_text(before, cost, current) == decimal(before) + " - "@ + decimal(cost) + " = "@
            + decimal((before - cost) as nat) + " | + 1 character summoned (current: "@ + decimal(current)
            + ")"@,
        digits_value(decimal((before - cost) as nat)) + digits_value(decimal(cost)) == digits_value(
            decimal(before),
        ),
{
    lemma_decimal_reads_back((before - cost) as nat);
    lemma_decimal_reads_back(cost);
    lemma_decimal_reads_back(before);
}

/// The lines of a circle chain: each pull starts with the orbs the previous
/// one left, and after pull `k` (from 0) the orbs in hand are the starting
/// orbs less what the first `k + 1` pulls cost; after the fifth, 20 less.
pub proof fn lemma_circle_lines_chain(orbs_before: int, k: int)
    requires
        0 <= k < 5,
    ensures
        (orbs_before - circle_spent(k)) - circle_step_cost(k) == orbs_before - circle_spent(k + 1),
        k == 4 ==> orbs_before - circle_spent(k + 1) == orbs_before - 20,
{
    lemma_circle_costs_twenty();
}

/// What the pulls of one circle cost, in order: 5, 4, 4, 4 and 3 orbs.
pub open spec fn circle_step_cost(k: int) -> nat {
    if k == 0 {
        5
    } else if k == 4 {
        3
    } else {
        4
    }
}

/// Orbs spent by the first `k` pulls of a circle.
pub open spec fn circle_spent(k: int) -> nat
    decreases k,
{
    if k <= 0 {
        0
    } else {
        circle_spent(k - 1) + circle_step_cost(k - 1)
    }
}

/// A circle of five pulls costs exactly 20 orbs, and the orbs spent grow
/// with every pull.
pub proof fn lemma_circle_costs_twenty()
    ensures
        circle_spent(5) == 20,
        forall|k: int| 0 <= k < 5 ==> #[trigger] circle_spent(k) < circle_spent(k + 1),
{
    assert(circle_spent(0) == 0);
    assert(circle_spent(1) == 5);
    assert(circle_spent(2) == 9);
    assert(circle_spent(3) == 13);
    assert(circle_spent(4) == 17);
    assert(circle_spent(5) == 20);
}

/// The line for one sniped pull made with `orbs_before` orbs in hand, the
/// pull's number being `current`.
pub fn snipe_line(orbs_before: u32, current: u32) -> (r: String)
    requires
        orbs_before >= 5,
    ensures
        r@ == snipe_line_text(orbs_before as nat, current as nat),
{
    let before = decimal_text(orbs_before);
    let after = decimal_text(orbs_before - 5);
    let cur = decimal_text(current);
    let mut r = right_align(before.as_str(), 4);
    r.append(" - 5 = ");
    let a = right_align(after.as_str(), 4);
    r.append(a.as_str());
    r.append(" | + 1 character summoned (current: ");
    let c = right_align(cur.as_str(), 4);
    r.append(c.as_str());
    r.append(")");
    r
}

fn circle_line(before: u32, cost: u32, current: u32) -> (r: String)
    requires
        cost <= before,
    ensures
        r@ == circle_line_text(before as nat, cost as nat, current as nat),
{
    let mut r = decimal_text(before);
    r.append(" - ");
    let c = decimal_text(cost);
    r.append(c.as_str());
    r.append(" = ");
    let a = decimal_text(before - cost);
    r.append(a.as_str());
    let cur = framed_number(" | + 1 character summoned (current: ", current, ")");
    r.append(cur.as_str());
    r
}

/// The five lines printed for one full circle started with `orbs_before`
/// orbs, its first pull being number `first_pull`.
pub fn circle_lines(orbs_before: u32, first_pull: u32) -> (lines: Vec<String>)
    requires
        orbs_before >= 20,
        first_pull + 4 <= u32::MAX,
    ensures
        lines@.len() == 5,
        forall|k: int|
            0 <= k < 5 ==> (#[trigger] lines@[k])@ == circle_line_text(
                (orbs_before - circle_spent(k)) as nat,
                circle_step_cost(k),
                (first_pull + k) as nat,
            ),
{
    proof {
        lemma_circle_costs_twenty();
    }
    let mut lines: Vec<String> = Vec::new();
    lines.push(circle_line(orbs_before, 5, first_pull));
    lines.push(circle_line(orbs_before - 5, 4, first_pull + 1));
    lines.push(circle_line(orbs_before - 9, 4, first_pull + 2));
    lines.push(circle_line(orbs_before - 13, 4, first_pull + 3));
    lines.push(circle_line(orbs_before - 17, 3, first_pull + 4));
    assert forall|k: int| 0 <= k < 5 implies (#[trigger] lines@[k])@ == circle_line_text(
        (orbs_before - circle_spent(k)) as nat,
        circle_step_cost(k),
        (first_pull + k) as nat,
    ) by {
        assert(circle_spent(0) == 0);
        assert(circle_spent(1) == 5);
        assert(circle_spent(2) == 9);
        assert(circle_spent(3) == 13);
        assert(circle_spent(4) == 17);
    }
    lines
}

/// The first line of the analysis report.
pub open spec fn report_header() -> Seq<char> {
    "Character summoned, % chance for favored character, Tenth of the total summon, Pity Breaker Count"@
}

/// All of `rows`, one after the other.
pub open spec fn concat_all(rows: Seq<Seq<char>>) -> Seq<char>
    decreases rows.len(),
{
    if rows.len() == 0 {
        Seq::empty()
    } else {
        concat_all(rows.drop_last()) + rows.last()
    }
}

/// Appending a row to the report appends its text: the report of
/// `rows.push(x)` is the report of `rows` followed by `x`.
pub proof fn lemma_concat_all_push(rows: Seq<Seq<char>>, x: Seq<char>)
    ensures
        concat_all(rows.push(x)) == concat_all(rows) + x,
{
    assert(rows.push(x).drop_last() =~= rows);
}

/// The report of two runs of rows is the report of the first followed by
/// that of the second; its length is the sum of theirs.
pub proof fn lemma_concat_all_append(a: Seq<Seq<char>>, b: Seq<Seq<char>>)
    ensures
        concat_all(a + b) == concat_all(a) + concat_all(b),
        concat_all(a + b).len() == concat_all(a).len() + concat_all(b).len(),
    decreases b.len(),
{
    if b.len() == 0 {
        assert(a + b =~= a);
        assert(concat_all(b) =~= Seq::<char>::empty());
        assert(concat_all(a) + concat_all(b) =~= concat_all(a));
    } else {
        let b0 = b.drop_last();
        lemma_concat_all_append(a, b0);
        assert((a + b).drop_last() =~= a + b0);
        assert((a + b).last() == b.last());
        assert(concat_all(a) + concat_all(b0) + b.last() =~= concat_all(a) + (concat_all(b0) + b.last()));
    }
}

/// Every row appears in the report whole: the text of `rows` is row `i`'s
/// text preceded by the text of the rows before it and followed by that of
/// the rows after it.
pub proof fn lemma_concat_all_holds_each_row(rows: Seq<Seq<char>>, i: int)
    requires
        0 <= i < rows.len(),
    ensures
        concat_all(rows) == concat_all(rows.take(i)) + rows[i] + concat_all(rows.skip(i + 1)),
{
    assert(rows =~= rows.take(i).push(rows[i]) + rows.skip(i + 1));
    lemma_concat_all_append(rows.take(i).push(rows[i]), rows.skip(i + 1));
    lemma_concat_all_push(rows.take(i), rows[i]);
}

/// The report row of one sniped pull: a line break, then the pull's number,
/// the summoning rate as the caller rendered it, the pull's block and the pity
/// breakers so far, separated by commas.
pub fn report_row(index: u32, rate_text: &str, tenth: u32, pity_breakers: u32) -> (r: String)
    ensures
        r@ == "\n"@ + decimal(index as nat) + ","@ + rate_text@ + ","@ + decimal(tenth as nat) + ","@
            + decimal(pity_breakers as nat),
{
    let mut r = String::from_str("\n");
    let i = decimal_text(index);
    r.append(i.as_str());
    r.append(",");
    r.append(rate_text);
    r.append(",");
    let t = decimal_text(tenth);
    r.append(t.as_str());
    r.append(",");
    let p = decimal_text(pity_breakers);
    r.append(p.as_str());
    r
}

/// The whole analysis report: the header followed by every row, in order.
pub fn analysis_report(rows: &Vec<String>) -> (r: String)
    ensures
        r@ == report_header() + concat_all(rows@.map_values(|s: String| s@)),
{
    let mut r = String::from_str(
        "Character summoned, % chance for favored character, Tenth of the total summon, Pity Breaker Count",
    );
    let ghost views = rows@.map_values(|s: String| s@);
    let mut i: usize = 0;
    while i < rows.len()
        invariant
            i <= rows.len(),
            views == rows@.map_values(|s: String| s@),
            r@ == report_header() + concat_all(views.take(i as int)),
        decreases rows.len() - i,
    {
        assert(views.take(i + 1).drop_last() =~= views.take(i as int));
        r.append(rows[i].as_str());
        i = i + 1;
    }
    assert(views.take(rows.len() as int) =~= views);
    r
}

/// The word for `count` pity breakers: singular for zero and one.
pub fn pity_word(count: u32) -> (w: &'static str)
    ensures
        w@ == (if count <= 1 { "Character"@ } else { "Characters"@ }),
{
    if count <= 1 {
        "Character"
    } else {
        "Characters"
    }
}

/// The notice printed when a pity breaker is practically assured.
pub fn pity_notice(count: u32) -> (r: String)
    ensures
        r@ == "Practically assured pity character\n"@ + decimal(count as nat) + " pity "@ + (if count
            <= 1 {
            "Character"@
        } else {
            "Characters"@
        }) + " so far!"@,
{
    let mut r = framed_number("Practically assured pity character\n", count, " pity ");
    r.append(pity_word(count));
    r.append(" so far!");
    r
}

/// The closing pity report of a sniped projection.
pub fn pity_report(count: u32) -> (r: String)
    ensures
        count == 0 ==> r@ == "\nPity report:\nYou might get pity characters, but you are not assured of getting any."@,
        count == 1 ==> r@ == "\nPity report:\nYou can expect around 1 pity character, but probably more."@,
        count >= 2 ==> r@ == "\nPity report:\nYou can expect around"@ + right_aligned(decimal(count as nat), 3)
            + " pity characters, but probably more."@,
{
    if count == 0 {
        String::from_str("\nPity report:\nYou might get pity characters, but you are not assured of getting any.")
    } else if count == 1 {
        String::from_str("\nPity report:\nYou can expect around 1 pity character, but probably more.")
    } else {
        let mut r = String::from_str("\nPity report:\nYou can expect around");
        let d = decimal_text(count);
        let a = right_align(d.as_str(), 3);
        r.append(a.as_str());
        r.append(" pity characters, but probably more.");
        r
    }
}

/// The verdict on duplicates at the end of a projection: how many copies are
/// all but certain, and the chance (as the caller rendered it, in percent) of
/// one more.
pub fn duplicate_report(duplicates: u32, percent_text: &str) -> (r: String)
    ensures
        duplicates == 0 ==> r@ == percent_text@ + " % chances to get at least one desired character."@,
        duplicates == 1 ==> r@ == "High likelihood of getting at least 1 desired character. There is "@
            + percent_text@ + " % chance to get an additional character beyond that count."@,
        duplicates >= 2 ==> r@ == "High likelihood of obtaining at least "@ + decimal(duplicates as nat)
            + " desired units. "@ + percent_text@
            + " % chance to get an additional character beyond that count."@,
{
    if duplicates == 0 {
        let mut r = String::from_str(percent_text);
        r.append(" % chances to get at least one desired character.");
        r
    } else if duplicates == 1 {
        let mut r = String::from_str(
            "High likelihood of getting at least 1 desired character. There is ",
        );
        r.append(percent_text);
        r.append(" % chance to get an additional character beyond that count.");
        r
    } else {
        let mut r = framed_number("High likelihood of obtaining at least ", duplicates, " desired units. ");
        r.append(percent_text);
        r.append(" % chance to get an additional character beyond that count.");
        r
    }
}

} // verus!
