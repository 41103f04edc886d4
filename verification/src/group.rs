//! The aggregation engine: folds a flat list of remind records, each pairing
//! one debtor with possibly many debts, into one summarized report row per
//! debtor.
//!
//! Records are partitioned by full structural equality of their debtor.
//! Within a partition the debt sequences are concatenated in input order —
//! record order first, then debt order within each record, never re-sorted.
//! One row per distinct debtor comes out, in first-seen order.

use vstd::prelude::*;
use vstd::string::*;

use crate::custom_fields::cf_lookup;
use crate::debt::{Debt, DebtView};
use crate::debtor::{Debtor, DebtorView};
use crate::remind::{Remind, RemindView};
use crate::text::{dec_str_signed, i64_to_string, join_with, parse_i64, parse_i64_spec};

verus! {

/// Sum of the debt amounts.
pub open spec fn sum_amounts(ds: Seq<DebtView>) -> int
    decreases ds.len(),
{
    if ds.len() == 0 {
        0
    } else {
        sum_amounts(ds.drop_last()) + ds.last().debt_amount
    }
}

/// A debt's fee, with an absent fee counting as zero.
pub open spec fn fee_or_zero(d: DebtView) -> int {
    match d.debt_fee {
        Some(f) => f as int,
        None => 0,
    }
}

/// Sum of the debt fees, absent fees counting as zero.
pub open spec fn sum_fees(ds: Seq<DebtView>) -> int
    decreases ds.len(),
{
    if ds.len() == 0 {
        0
    } else {
        sum_fees(ds.drop_last()) + fee_or_zero(ds.last())
    }
}

/// What a debt contributes to the `total_amount` aggregate: its custom field
/// named `total_amount` parsed as an integer, or zero where the field is
/// missing or does not parse.
pub open spec fn custom_total_or_zero(d: DebtView) -> int {
    match cf_lookup(d.custom_fields, "total_amount"@) {
        Some(v) => match parse_i64_spec(v) {
            Some(n) => n as int,
            None => 0,
        },
        None => 0,
    }
}

/// Sum of the parsed `total_amount` custom fields, missing or non-numeric
/// fields contributing zero.
pub open spec fn sum_custom_totals(ds: Seq<DebtView>) -> int
    decreases ds.len(),
{
    if ds.len() == 0 {
        0
    } else {
        sum_custom_totals(ds.drop_last()) + custom_total_or_zero(ds.last())
    }
}

/// The per-debt amounts joined with newlines, in flattened order.
pub open spec fn amounts_column(ds: Seq<DebtView>) -> Seq<char> {
    join_with(ds.map_values(|d: DebtView| dec_str_signed(d.debt_amount as int)), "\n"@)
}

/// The per-debt identifiers joined with newlines, in flattened order.
pub open spec fn ids_column(ds: Seq<DebtView>) -> Seq<char> {
    join_with(ds.map_values(|d: DebtView| d.debt_id), "\n"@)
}

/// The per-debt deal timestamps joined with newlines, in flattened order.
pub open spec fn dealt_at_column(ds: Seq<DebtView>) -> Seq<char> {
    join_with(ds.map_values(|d: DebtView| d.dealt_at.rfc3339_spec()), "\n"@)
}

/// The per-debt due timestamps joined with newlines, in flattened order.
pub open spec fn due_at_column(ds: Seq<DebtView>) -> Seq<char> {
    join_with(ds.map_values(|d: DebtView| d.repayment_due_at.rfc3339_spec()), "\n"@)
}

/// A debt's appendix text, empty where it has none.
pub open spec fn appendix_or_empty(d: DebtView) -> Seq<char> {
    match d.appendix {
        Some(a) => a,
        None => Seq::empty(),
    }
}

/// The per-debt appendix texts joined with the appendix separator.
pub open spec fn appendix_column(ds: Seq<DebtView>) -> Seq<char> {
    join_with(ds.map_values(|d: DebtView| appendix_or_empty(d)), "\n---------\n"@)
}

/// One debt's segment names joined with commas.
pub open spec fn segments_of(d: DebtView) -> Seq<char> {
    join_with(d.remind_segments, ","@)
}

/// The per-debt segment strings joined with newlines.
pub open spec fn segments_column(ds: Seq<DebtView>) -> Seq<char> {
    join_with(ds.map_values(|d: DebtView| segments_of(d)), "\n"@)
}

/// One summarized line per distinct debtor: copies of the debtor's fields
/// plus aggregates over every debt reminded for that debtor.
#[derive(Debug)]
pub struct ReportRow {
    pub debtor: Debtor,
    pub total_debt_amount: i64,
    pub total_debt_fee: i64,
    pub total_amount: i64,
    pub debt_amount: String,
    pub debt_id: String,
    pub dealt_at: String,
    pub repayment_due_at: String,
    pub appendix: String,
    pub remind_segments: String,
}

/// Mathematical image of [`ReportRow`].
pub ghost struct ReportRowView {
    pub debtor: DebtorView,
    pub total_debt_amount: i64,
    pub total_debt_fee: i64,
    pub total_amount: i64,
    pub debt_amount: Seq<char>,
    pub debt_id: Seq<char>,
    pub dealt_at: Seq<char>,
    pub repayment_due_at: Seq<char>,
    pub appendix: Seq<char>,
    pub remind_segments: Seq<char>,
}

impl View for ReportRow {
    type V = ReportRowView;

    open spec fn view(&self) -> ReportRowView {
        ReportRowView {
            debtor: self.debtor@,
            total_debt_amount: self.total_debt_amount,
            total_debt_fee: self.total_debt_fee,
            total_amount: self.total_amount,
            debt_amount: self.debt_amount@,
            debt_id: self.debt_id@,
            dealt_at: self.dealt_at@,
            repayment_due_at: self.repayment_due_at@,
            appendix: self.appendix@,
            remind_segments: self.remind_segments@,
        }
    }
}

impl DeepView for ReportRow {
    type V = ReportRowView;

    open spec fn deep_view(&self) -> ReportRowView {
        self.view()
    }
}

/// The row owed for one debtor and the flattened debts of its partition.
pub open spec fn row_of(d: DebtorView, ds: Seq<DebtView>) -> ReportRowView {
    ReportRowView {
        debtor: d,
        total_debt_amount: sum_amounts(ds) as i64,
        total_debt_fee: sum_fees(ds) as i64,
        total_amount: sum_custom_totals(ds) as i64,
        debt_amount: amounts_column(ds),
        debt_id: ids_column(ds),
        dealt_at: dealt_at_column(ds),
        repayment_due_at: due_at_column(ds),
        appendix: appendix_column(ds),
        remind_segments: segments_column(ds),
    }
}

/// The distinct debtors of the records, in order of first occurrence.
pub open spec fn debtors_in_order(rs: Seq<RemindView>) -> Seq<DebtorView>
    decreases rs.len(),
{
    if rs.len() == 0 {
        Seq::empty()
    } else {
        let prev = debtors_in_order(rs.drop_last());
        if prev.contains(rs.last().debtor) {
            prev
        } else {
            prev.push(rs.last().debtor)
        }
    }
}

/// The debts of every record whose debtor equals `d`, concatenated in record
/// order then debt order.
pub open spec fn partition_debts(rs: Seq<RemindView>, d: DebtorView) -> Seq<DebtView>
    decreases rs.len(),
{
    if rs.len() == 0 {
        Seq::empty()
    } else {
        partition_debts(rs.drop_last(), d) + (if rs.last().debtor == d {
            rs.last().debts
        } else {
            Seq::empty()
        })
    }
}

/// What grouping owes: one row per distinct debtor in first-seen order, each
/// summarizing that debtor's partition.
pub open spec fn group_spec(rs: Seq<RemindView>) -> Seq<ReportRowView> {
    debtors_in_order(rs).map_values(|d: DebtorView| row_of(d, partition_debts(rs, d)))
}

/// Whether `v` is within the `i64` range.
pub open spec fn fits_i64(v: int) -> bool {
    i64::MIN <= v <= i64::MAX
}

/// The caller's integer-width assumption: every prefix of the flattened
/// debts sums within `i64`, for the amounts, the fees, and the parsed
/// `total_amount` fields alike.
pub open spec fn sums_fit(ds: Seq<DebtView>) -> bool {
    forall|k: int|
        0 <= k <= ds.len() ==> {
            &&& fits_i64(sum_amounts(#[trigger] ds.take(k)))
            &&& fits_i64(sum_fees(ds.take(k)))
            &&& fits_i64(sum_custom_totals(ds.take(k)))
        }
}

/// Every timestamp a record's debts carry is representable, so the columns
/// can be formatted.
pub open spec fn records_wf(rs: Seq<RemindView>) -> bool {
    forall|i: int, j: int|
        0 <= i < rs.len() && 0 <= j < rs[i].debts.len() ==> {
            &&& (#[trigger] rs[i].debts[j]).dealt_at.wf()
            &&& rs[i].debts[j].repayment_due_at.wf()
        }
}

/// The integer-width assumption holds of every partition.
pub open spec fn group_sums_fit(rs: Seq<RemindView>) -> bool {
    forall|k: int|
        0 <= k < debtors_in_order(rs).len() ==> sums_fit(
            partition_debts(rs, #[trigger] debtors_in_order(rs)[k]),
        )
}

/// Joining after one more part appends the separator and the part, unless
/// the part is the first.
proof fn lemma_join_push(parts: Seq<Seq<char>>, sep: Seq<char>, x: Seq<char>)
    ensures
        join_with(parts.push(x), sep) == if parts.len() == 0 {
            x
        } else {
            join_with(parts, sep) + sep + x
        },
{
    assert(parts.push(x).drop_last() =~= parts);
    assert(parts.push(x).last() == x);
    if parts.len() == 0 {
        assert(parts.push(x)[0] == x);
    }
}

/// Partitioning distributes over concatenation of the record lists.
proof fn lemma_partition_concat(a: Seq<RemindView>, b: Seq<RemindView>, d: DebtorView)
    ensures
        partition_debts(a + b, d) == partition_debts(a, d) + partition_debts(b, d),
    decreases b.len(),
{
    if b.len() == 0 {
        assert(a + b =~= a);
        assert(partition_debts(a, d) + partition_debts(b, d) =~= partition_debts(a, d));
    } else {
        lemma_partition_concat(a, b.drop_last(), d);
        assert((a + b).drop_last() =~= a + b.drop_last());
        assert((a + b).last() == b.last());
        assert(partition_debts(a, d) + partition_debts(b, d) =~= partition_debts(a, d) + (
        partition_debts(b.drop_last(), d) + (if b.last().debtor == d {
            b.last().debts
        } else {
            Seq::empty()
        })));
    }
}

/// Running per-debtor accumulators: the three sums and the six concatenated
/// display columns, over the debts pushed so far.
struct RowAcc {
    empty: bool,
    amt: i64,
    fee: i64,
    tot: i64,
    amounts: String,
    ids: String,
    dealt: String,
    due: String,
    appendix: String,
    segments: String,
}

impl RowAcc {
    /// The accumulators summarize exactly the debts of `flat`.
    spec fn matches(&self, flat: Seq<DebtView>) -> bool {
        &&& self.empty == (flat.len() == 0)
        &&& self.amt as int == sum_amounts(flat)
        &&& self.fee as int == sum_fees(flat)
        &&& self.tot as int == sum_custom_totals(flat)
        &&& self.amounts@ == amounts_column(flat)
        &&& self.ids@ == ids_column(flat)
        &&& self.dealt@ == dealt_at_column(flat)
        &&& self.due@ == due_at_column(flat)
        &&& self.appendix@ == appendix_column(flat)
        &&& self.segments@ == segments_column(flat)
    }

    fn new() -> (r: RowAcc)
        ensures
            r.matches(Seq::empty()),
    {
        let r = RowAcc {
            empty: true,
            amt: 0,
            fee: 0,
            tot: 0,
            amounts: String::new(),
            ids: String::new(),
            dealt: String::new(),
            due: String::new(),
            appendix: String::new(),
            segments: String::new(),
        };
        proof {
            let flat = Seq::<DebtView>::empty();
            assert(flat.map_values(|d: DebtView| dec_str_signed(d.debt_amount as int)) =~= Seq::<
                Seq<char>,
            >::empty());
            assert(flat.map_values(|d: DebtView| d.debt_id) =~= Seq::<Seq<char>>::empty());
            assert(flat.map_values(|d: DebtView| d.dealt_at.rfc3339_spec()) =~= Seq::<
                Seq<char>,
            >::empty());
            assert(flat.map_values(|d: DebtView| d.repayment_due_at.rfc3339_spec()) =~= Seq::<
                Seq<char>,
            >::empty());
            assert(flat.map_values(|d: DebtView| appendix_or_empty(d)) =~= Seq::<
                Seq<char>,
            >::empty());
            assert(flat.map_values(|d: DebtView| segments_of(d)) =~= Seq::<Seq<char>>::empty());
        }
        r
    }

    /// Folds one more debt into every accumulator.
    fn push_debt(&mut self, d: &Debt, Ghost(flat): Ghost<Seq<DebtView>>)
        requires
            old(self).matches(flat),
            d@.dealt_at.wf(),
            d@.repayment_due_at.wf(),
            fits_i64(sum_amounts(flat.push(d@))),
            fits_i64(sum_fees(flat.push(d@))),
            fits_i64(sum_custom_totals(flat.push(d@))),
        ensures
            final(self).matches(flat.push(d@)),
    {
        proof {
            assert(flat.push(d@).drop_last() =~= flat);
            assert(flat.push(d@).last() == d@);
        }
        self.amt = self.amt + d.debt_amount;
        let fee_add: i64 = match d.debt_fee {
            Some(f) => f,
            None => 0,
        };
        self.fee = self.fee + fee_add;
        let tot_add: i64 = match d.custom_fields.get("total_amount") {
            Some(v) => match parse_i64(v.as_str()) {
                Some(n) => n,
                None => 0,
            },
            None => 0,
        };
        self.tot = self.tot + tot_add;
        let sep_needed = !self.empty;

        let amount_part = i64_to_string(d.debt_amount);
        if sep_needed {
            self.amounts.append("\n");
        }
        self.amounts.append(amount_part.as_str());

        if sep_needed {
            self.ids.append("\n");
        }
        self.ids.append(d.debt_id.as_str());

        let dealt_part = d.dealt_at.format_rfc3339();
        if sep_needed {
            self.dealt.append("\n");
        }
        self.dealt.append(dealt_part.as_str());

        let due_part = d.repayment_due_at.format_rfc3339();
        if sep_needed {
            self.due.append("\n");
        }
        self.due.append(due_part.as_str());

        if sep_needed {
            self.appendix.append("\n---------\n");
        }
        match &d.appendix {
            Some(a) => self.appendix.append(a.as_str()),
            None => (),
        }

        let segments_part = segments_of_debt(d);
        if sep_needed {
            self.segments.append("\n");
        }
        self.segments.append(segments_part.as_str());

        self.empty = false;
        proof {
            let f_amt = |x: DebtView| dec_str_signed(x.debt_amount as int);
            let f_id = |x: DebtView| x.debt_id;
            let f_dealt = |x: DebtView| x.dealt_at.rfc3339_spec();
            let f_due = |x: DebtView| x.repayment_due_at.rfc3339_spec();
            let f_app = |x: DebtView| appendix_or_empty(x);
            let f_seg = |x: DebtView| segments_of(x);
            assert(flat.push(d@).map_values(f_amt) =~= flat.map_values(f_amt).push(f_amt(d@)));
            assert(flat.push(d@).map_values(f_id) =~= flat.map_values(f_id).push(f_id(d@)));
            assert(flat.push(d@).map_values(f_dealt) =~= flat.map_values(f_dealt).push(
                f_dealt(d@),
            ));
            assert(flat.push(d@).map_values(f_due) =~= flat.map_values(f_due).push(f_due(d@)));
            assert(flat.push(d@).map_values(f_app) =~= flat.map_values(f_app).push(f_app(d@)));
            assert(flat.push(d@).map_values(f_seg) =~= flat.map_values(f_seg).push(f_seg(d@)));
            lemma_join_push(flat.map_values(f_amt), "\n"@, f_amt(d@));
            lemma_join_push(flat.map_values(f_id), "\n"@, f_id(d@));
            lemma_join_push(flat.map_values(f_dealt), "\n"@, f_dealt(d@));
            lemma_join_push(flat.map_values(f_due), "\n"@, f_due(d@));
            lemma_join_push(flat.map_values(f_app), "\n---------\n"@, f_app(d@));
            lemma_join_push(flat.map_values(f_seg), "\n"@, f_seg(d@));
            assert(flat.map_values(f_amt).len() == flat.len());
        }
    }
}

/// One debt's segment names joined with commas.
fn segments_of_debt(d: &Debt) -> (r: String)
    ensures
        r@ == segments_of(d@),
{
    let mut r = String::new();
    let ghost names = d@.remind_segments;
    let mut j: usize = 0;
    proof {
        assert(names.take(0) =~= Seq::<Seq<char>>::empty());
    }
    while j < d.remind_segments.len()
        invariant
            j <= d.remind_segments.len(),
            names == d@.remind_segments,
            names.len() == d.remind_segments.len(),
            r@ == join_with(names.take(j as int), ","@),
        decreases d.remind_segments.len() - j,
    {
        if j > 0 {
            r.append(",");
        }
        r.append(d.remind_segments[j].name.as_str());
        proof {
            assert(names.take(j + 1).drop_last() =~= names.take(j as int));
            assert(names.take(j + 1).last() == names[j as int]);
            lemma_join_push(names.take(j as int), ","@, names[j as int]);
            assert(names.take(j + 1) =~= names.take(j as int).push(names[j as int]));
        }
        j = j + 1;
    }
    proof {
        assert(names.take(names.len() as int) =~= names);
    }
    r
}

/// Builds the row of one debtor: folds every debt of every record whose
/// debtor equals `key`, in input order.
fn build_row(records: &Vec<Remind>, key: Debtor) -> (row: ReportRow)
    requires
        records_wf(records.deep_view()),
        sums_fit(partition_debts(records.deep_view(), key@)),
    ensures
        row@ == row_of(key@, partition_debts(records.deep_view(), key@)),
{
    let ghost rv = records.deep_view();
    let ghost part = partition_debts(rv, key@);
    let mut acc = RowAcc::new();
    let mut i: usize = 0;
    proof {
        assert(rv.take(0) =~= Seq::<RemindView>::empty());
        assert(partition_debts(rv.take(0), key@) =~= Seq::<DebtView>::empty());
    }
    while i < records.len()
        invariant
            i <= records.len(),
            rv == records.deep_view(),
            rv.len() == records.len(),
            part == partition_debts(rv, key@),
            records_wf(rv),
            sums_fit(part),
            acc.matches(partition_debts(rv.take(i as int), key@)),
        decreases records.len() - i,
    {
        let r = &records[i];
        proof {
            assert(rv.take(i + 1).drop_last() =~= rv.take(i as int));
            assert(rv.take(i + 1).last() == rv[i as int]);
        }
        if r.debtor == key {
            let ghost base = partition_debts(rv.take(i as int), key@);
            let ghost debts = rv[i as int].debts;
            proof {
                assert(rv[i as int].debtor == key@);
                assert(rv =~= rv.take(i + 1) + rv.skip(i + 1));
                lemma_partition_concat(rv.take(i + 1), rv.skip(i + 1), key@);
                assert(partition_debts(rv.take(i + 1), key@) =~= base + debts);
                assert(part =~= (base + debts) + partition_debts(rv.skip(i + 1), key@));
                assert(base + debts.take(0) =~= part.take(base.len() as int));
            }
            let mut j: usize = 0;
            while j < r.debts.len()
                invariant
                    j <= r.debts.len(),
                    rv == records.deep_view(),
                    rv.len() == records.len(),
                    i < records.len(),
                    r == &records[i as int],
                    part == partition_debts(rv, key@),
                    records_wf(rv),
                    sums_fit(part),
                    base == partition_debts(rv.take(i as int), key@),
                    debts == rv[i as int].debts,
                    debts.len() == r.debts.len(),
                    debts == r.debts.deep_view(),
                    rv[i as int].debtor == key@,
                    part =~= (base + debts) + partition_debts(rv.skip(i + 1), key@),
                    base + debts.take(j as int) =~= part.take(base.len() + j),
                    acc.matches(base + debts.take(j as int)),
                decreases r.debts.len() - j,
            {
                let d = &r.debts[j];
                let ghost flat = base + debts.take(j as int);
                proof {
                    assert(d@ == debts[j as int]);
                    assert(debts.take(j + 1) =~= debts.take(j as int).push(debts[j as int]));
                    assert(flat.push(d@) =~= base + debts.take(j + 1));
                    assert(part.len() >= base.len() + debts.len()) by {
                        assert(part =~= (base + debts) + partition_debts(rv.skip(i + 1), key@));
                    }
                    assert(part.take(base.len() + j + 1) =~= part.take(base.len() + j).push(
                        part[base.len() + j],
                    ));
                    assert(part[base.len() + j] == ((base + debts) + partition_debts(
                        rv.skip(i + 1),
                        key@,
                    ))[base.len() + j]);
                    assert(flat.push(d@) =~= part.take(base.len() + j + 1));
                    assert(sum_amounts(flat.push(d@)) == sum_amounts(part.take(base.len() + j + 1)));
                    assert(fits_i64(sum_amounts(part.take(base.len() + j + 1))));
                    assert(records_wf(rv) && 0 <= i < rv.len() && 0 <= j < rv[i as int].debts.len());
                    assert(rv[i as int].debts[j as int].dealt_at.wf());
                }
                acc.push_debt(d, Ghost(flat));
                j = j + 1;
            }
            proof {
                assert(debts.take(debts.len() as int) =~= debts);
                assert(base + debts =~= partition_debts(rv.take(i + 1), key@));
            }
        } else {
            proof {
                assert(rv[i as int].debtor != key@);
                assert(partition_debts(rv.take(i + 1), key@) =~= partition_debts(
                    rv.take(i as int),
                    key@,
                ));
            }
        }
        i = i + 1;
    }
    proof {
        assert(rv.take(rv.len() as int) =~= rv);
    }
    ReportRow {
        debtor: key,
        total_debt_amount: acc.amt,
        total_debt_fee: acc.fee,
        total_amount: acc.tot,
        debt_amount: acc.amounts,
        debt_id: acc.ids,
        dealt_at: acc.dealt,
        repayment_due_at: acc.due,
        appendix: acc.appendix,
        remind_segments: acc.segments,
    }
}

/// One row of the grouping, by index: the row of the `k`-th distinct debtor
/// over that debtor's partition.
pub proof fn lemma_group_spec_index(rs: Seq<RemindView>, k: int)
    requires
        0 <= k < debtors_in_order(rs).len(),
    ensures
        group_spec(rs).len() == debtors_in_order(rs).len(),
        group_spec(rs)[k] == row_of(
            debtors_in_order(rs)[k],
            partition_debts(rs, debtors_in_order(rs)[k]),
        ),
{
}

/// Two records with structurally identical debtors — however the rest of
/// their fields differ — group into exactly one row. That row sums the
/// debt amounts and fees across both records' debts, and its concatenated
/// `debt_id` column lists the first record's debts before the second's, in
/// their own order.
#[verifier::rlimit(50)]
pub proof fn lemma_same_debtor_single_row(rs: Seq<RemindView>)
    requires
        rs.len() == 2,
        rs[0].debtor == rs[1].debtor,
        fits_i64(sum_amounts(rs[0].debts + rs[1].debts)),
        fits_i64(sum_fees(rs[0].debts + rs[1].debts)),
    ensures
        group_spec(rs).len() == 1,
        group_spec(rs)[0].debtor == rs[0].debtor,
        group_spec(rs)[0].total_debt_amount == sum_amounts(rs[0].debts + rs[1].debts),
        group_spec(rs)[0].total_debt_fee == sum_fees(rs[0].debts + rs[1].debts),
        group_spec(rs)[0].debt_id == ids_column(rs[0].debts + rs[1].debts),
{
    let d = rs[0].debtor;
    let ds = rs[0].debts + rs[1].debts;
    let a = rs.drop_last();
    assert(debtors_in_order(rs) =~= seq![d]) by {
        assert(a.len() == 1 && a.last() == rs[0]);
        assert(a.drop_last().len() == 0);
        assert(debtors_in_order(a.drop_last()) =~= Seq::<DebtorView>::empty());
        assert(!Seq::<DebtorView>::empty().contains(rs[0].debtor));
        assert(debtors_in_order(a) =~= seq![d]);
        assert(rs.last() == rs[1]);
        assert(seq![d].contains(rs[1].debtor)) by {
            assert(seq![d][0] == rs[1].debtor);
        }
    }
    assert(partition_debts(rs, d) == ds) by {
        assert(a.len() == 1 && a.last() == rs[0]);
        assert(a.drop_last().len() == 0);
        assert(partition_debts(a.drop_last(), d) =~= Seq::<DebtView>::empty());
        assert(partition_debts(a, d) =~= rs[0].debts);
        assert(rs.last() == rs[1]);
        assert(partition_debts(rs, d) =~= ds);
    }
    lemma_group_spec_index(rs, 0);
    assert(debtors_in_order(rs)[0] == d);
}

/// Groups the records by full structural equality of their debtor and
/// produces one summarized row per distinct debtor, in order of first
/// occurrence. Pure: the input is only read.
pub fn group(records: &Vec<Remind>) -> (rows: Vec<ReportRow>)
    requires
        records_wf(records.deep_view()),
        group_sums_fit(records.deep_view()),
    ensures
        rows.deep_view() =~= group_spec(records.deep_view()),
{
    let ghost rv = records.deep_view();
    let mut keys: Vec<Debtor> = Vec::new();
    let mut i: usize = 0;
    proof {
        assert(rv.take(0) =~= Seq::<RemindView>::empty());
        assert(keys.deep_view() =~= debtors_in_order(rv.take(0)));
    }
    while i < records.len()
        invariant
            i <= records.len(),
            rv == records.deep_view(),
            rv.len() == records.len(),
            keys.deep_view() =~= debtors_in_order(rv.take(i as int)),
        decreases records.len() - i,
    {
        let r = &records[i];
        let mut j: usize = 0;
        while j < keys.len() && !(keys[j] == r.debtor)
            invariant
                j <= keys.len(),
                keys.deep_view().len() == keys.len(),
                r == &records[i as int],
                i < records.len(),
                rv == records.deep_view(),
                rv.len() == records.len(),
                forall|t: int| 0 <= t < j ==> keys.deep_view()[t] != r.debtor@,
            decreases keys.len() - j,
        {
            j = j + 1;
        }
        proof {
            assert(rv.take(i + 1).drop_last() =~= rv.take(i as int));
            assert(rv.take(i + 1).last() == rv[i as int]);
            assert(rv[i as int].debtor == r.debtor@);
        }
        if j < keys.len() {
            proof {
                assert(keys.deep_view()[j as int] == r.debtor@);
                assert(debtors_in_order(rv.take(i as int)).contains(rv[i as int].debtor));
            }
        } else {
            proof {
                assert(!debtors_in_order(rv.take(i as int)).contains(rv[i as int].debtor)) by {
                    if debtors_in_order(rv.take(i as int)).contains(rv[i as int].debtor) {
                        let t = choose|t: int|
                            0 <= t < debtors_in_order(rv.take(i as int)).len() && debtors_in_order(
                                rv.take(i as int),
                            )[t] == rv[i as int].debtor;
                        assert(keys.deep_view()[t] == r.debtor@);
                    }
                }
            }
            keys.push(r.debtor.clone());
        }
        i = i + 1;
    }
    proof {
        assert(rv.take(rv.len() as int) =~= rv);
    }
    let ghost dio = debtors_in_order(rv);
    let mut rows: Vec<ReportRow> = Vec::new();
    let mut k: usize = 0;
    proof {
        assert(rows.deep_view() =~= group_spec(rv).take(0));
    }
    while k < keys.len()
        invariant
            k <= keys.len(),
            rv == records.deep_view(),
            records_wf(rv),
            group_sums_fit(rv),
            dio == debtors_in_order(rv),
            keys.deep_view() =~= dio,
            keys.deep_view().len() == keys.len(),
            rows.deep_view() =~= group_spec(rv).take(k as int),
        decreases keys.len() - k,
    {
        let key = keys[k].clone();
        proof {
            assert(key@ == dio[k as int]);
            assert(sums_fit(partition_debts(rv, dio[k as int])));
        }
        let row = build_row(records, key);
        rows.push(row);
        proof {
            assert(group_spec(rv).take(k + 1).drop_last() =~= group_spec(rv).take(k as int));
            assert(group_spec(rv)[k as int] == row_of(dio[k as int], partition_debts(
                rv,
                dio[k as int],
            )));
            assert(rows.deep_view() =~= group_spec(rv).take(k + 1));
        }
        k = k + 1;
    }
    proof {
        assert(group_spec(rv).take(group_spec(rv).len() as int) =~= group_spec(rv));
        assert(group_spec(rv).len() == dio.len());
    }
    rows
}

} // verus!
