use vstd::prelude::*;

verus! {

/// What the classifier measured for one language: the number of files and
/// the line counts summed over them.
#[derive(Clone, Copy, Debug, PartialEq, Eq, Structural)]
pub struct LanguageCounts {
    pub files: usize,
    pub lines: usize,
    pub code: usize,
    pub comments: usize,
    pub blanks: usize,
}

/// One row of a report: a language (or the grand total) with its counts.
#[derive(Clone, Debug)]
pub struct LanguageSummary {
    pub name: String,
    pub files: usize,
    pub lines: usize,
    pub code: usize,
    pub comments: usize,
    pub blanks: usize,
}

/// The rows of the non-empty languages, in the classifier's order, and the
/// grand total over every language.
#[derive(Clone, Debug)]
pub struct Report {
    pub languages: Vec<LanguageSummary>,
    pub total: LanguageSummary,
}

impl LanguageSummary {
    pub open spec fn counts(&self) -> LanguageCounts {
        LanguageCounts {
            files: self.files,
            lines: self.lines,
            code: self.code,
            comments: self.comments,
            blanks: self.blanks,
        }
    }

    /// The row for `name` with the counts of `language`.
    pub fn from_language(name: &String, language: &LanguageCounts) -> (r: LanguageSummary)
        ensures
            r.name@ == name@,
            r.counts() == *language,
    {
        LanguageSummary {
            name: name.clone(),
            files: language.files,
            lines: language.lines,
            code: language.code,
            comments: language.comments,
            blanks: language.blanks,
        }
    }
}

/// The name of the grand-total row.
pub open spec fn total_name() -> Seq<char> {
    "Total"@
}

/// A language appears in the report when at least one file was counted for it.
pub open spec fn is_shown(c: LanguageCounts) -> bool {
    c.files > 0
}

/// The entries of `stats` that get a row, in their order.
pub open spec fn shown(stats: Seq<(String, LanguageCounts)>) -> Seq<(String, LanguageCounts)> {
    stats.filter(|e: (String, LanguageCounts)| is_shown(e.1))
}

/// The sum of one counter, chosen by `f`, over all entries of `stats`.
pub open spec fn sum_of(stats: Seq<(String, LanguageCounts)>, f: spec_fn(LanguageCounts) -> usize) -> nat
    decreases stats.len(),
{
    if stats.len() == 0 {
        0
    } else {
        sum_of(stats.drop_last(), f) + f(stats.last().1) as nat
    }
}

pub open spec fn files_of(c: LanguageCounts) -> usize { c.files }
pub open spec fn lines_of(c: LanguageCounts) -> usize { c.lines }
pub open spec fn code_of(c: LanguageCounts) -> usize { c.code }
pub open spec fn comments_of(c: LanguageCounts) -> usize { c.comments }
pub open spec fn blanks_of(c: LanguageCounts) -> usize { c.blanks }

/// Every counter summed over `stats` fits in a `usize`.
pub open spec fn totals_fit(stats: Seq<(String, LanguageCounts)>) -> bool {
    &&& sum_of(stats, |c| files_of(c)) <= usize::MAX
    &&& sum_of(stats, |c| lines_of(c)) <= usize::MAX
    &&& sum_of(stats, |c| code_of(c)) <= usize::MAX
    &&& sum_of(stats, |c| comments_of(c)) <= usize::MAX
    &&& sum_of(stats, |c| blanks_of(c)) <= usize::MAX
}

/// `total` is the grand-total row of `stats`.
pub open spec fn is_total_of(stats: Seq<(String, LanguageCounts)>, total: LanguageSummary) -> bool {
    &&& total.name@ == total_name()
    &&& total.files == sum_of(stats, |c| files_of(c))
    &&& total.lines == sum_of(stats, |c| lines_of(c))
    &&& total.code == sum_of(stats, |c| code_of(c))
    &&& total.comments == sum_of(stats, |c| comments_of(c))
    &&& total.blanks == sum_of(stats, |c| blanks_of(c))
}

/// `rows` holds one row per entry of `entries`, with its name and counts.
pub open spec fn rows_of(entries: Seq<(String, LanguageCounts)>, rows: Seq<LanguageSummary>) -> bool {
    &&& rows.len() == entries.len()
    &&& forall|i: int|
        0 <= i < rows.len() ==> #[trigger] rows[i].name@ == entries[i].0@ && rows[i].counts()
            == entries[i].1
}

/// `r` is the report of `stats`.
pub open spec fn is_report_of(stats: Seq<(String, LanguageCounts)>, r: Report) -> bool {
    &&& rows_of(shown(stats), r.languages@)
    &&& is_total_of(stats, r.total)
}

proof fn lemma_shown_step(stats: Seq<(String, LanguageCounts)>, i: int)
    requires
        0 <= i < stats.len(),
    ensures
        shown(stats.take(i + 1)) == if is_shown(stats[i].1) {
            shown(stats.take(i)).push(stats[i])
        } else {
            shown(stats.take(i))
        },
{
    assert(stats.take(i + 1).drop_last() =~= stats.take(i));
    reveal_with_fuel(Seq::filter, 1);
}

proof fn lemma_sum_step(
    stats: Seq<(String, LanguageCounts)>,
    f: spec_fn(LanguageCounts) -> usize,
    i: int,
)
    requires
        0 <= i < stats.len(),
    ensures
        sum_of(stats.take(i + 1), f) == sum_of(stats.take(i), f) + f(stats[i].1) as nat,
{
    assert(stats.take(i + 1).drop_last() =~= stats.take(i));
}

proof fn lemma_sum_prefix_le(
    stats: Seq<(String, LanguageCounts)>,
    f: spec_fn(LanguageCounts) -> usize,
    i: int,
)
    requires
        0 <= i <= stats.len(),
    ensures
        sum_of(stats.take(i), f) <= sum_of(stats, f),
    decreases stats.len() - i,
{
    if i < stats.len() {
        lemma_sum_step(stats, f, i);
        lemma_sum_prefix_le(stats, f, i + 1);
    } else {
        assert(stats.take(i) =~= stats);
    }
}

/// Whether every counter summed over `stats` fits in a `usize`, so that
/// `make_json` can be called on it.
pub fn totals_fit_in_usize(stats: &Vec<(String, LanguageCounts)>) -> (r: bool)
    ensures
        r == totals_fit(stats@),
{
    let mut files: u128 = 0;
    let mut lines: u128 = 0;
    let mut code: u128 = 0;
    let mut comments: u128 = 0;
    let mut blanks: u128 = 0;
    let mut i: usize = 0;
    while i < stats.len()
        invariant
            0 <= i <= stats@.len(),
            files == sum_of(stats@.take(i as int), |c| files_of(c)),
            lines == sum_of(stats@.take(i as int), |c| lines_of(c)),
            code == sum_of(stats@.take(i as int), |c| code_of(c)),
            comments == sum_of(stats@.take(i as int), |c| comments_of(c)),
            blanks == sum_of(stats@.take(i as int), |c| blanks_of(c)),
            files <= i * usize::MAX,
            lines <= i * usize::MAX,
            code <= i * usize::MAX,
            comments <= i * usize::MAX,
            blanks <= i * usize::MAX,
        decreases stats@.len() - i,
    {
        let c = stats[i].1;
        proof {
            lemma_sum_step(stats@, |c| files_of(c), i as int);
            lemma_sum_step(stats@, |c| lines_of(c), i as int);
            lemma_sum_step(stats@, |c| code_of(c), i as int);
            lemma_sum_step(stats@, |c| comments_of(c), i as int);
            lemma_sum_step(stats@, |c| blanks_of(c), i as int);
            assert(i < usize::MAX);
            assert((i + 1) * usize::MAX <= u128::MAX) by (nonlinear_arith)
                requires i < usize::MAX;
            assert((i + 1) * usize::MAX == i * usize::MAX + usize::MAX) by (nonlinear_arith);
        }
        files = files + c.files as u128;
        lines = lines + c.lines as u128;
        code = code + c.code as u128;
        comments = comments + c.comments as u128;
        blanks = blanks + c.blanks as u128;
        i = i + 1;
    }
    assert(stats@.take(i as int) =~= stats@);
    files <= usize::MAX as u128 && lines <= usize::MAX as u128 && code <= usize::MAX as u128
        && comments <= usize::MAX as u128 && blanks <= usize::MAX as u128
}

/// The report of `stats`: a row for each language with at least one file, in
/// the order of `stats`, and a row named "Total" whose counters are summed over
/// every entry, empty ones included.
pub fn make_json(stats: &Vec<(String, LanguageCounts)>) -> (r: Report)
    requires
        totals_fit(stats@),
    ensures
        is_report_of(stats@, r),
{
    let mut languages: Vec<LanguageSummary> = Vec::new();
    let mut total = LanguageCounts { files: 0, lines: 0, code: 0, comments: 0, blanks: 0 };
    let mut i: usize = 0;
    while i < stats.len()
        invariant
            0 <= i <= stats@.len(),
            totals_fit(stats@),
            rows_of(shown(stats@.take(i as int)), languages@),
            total.files == sum_of(stats@.take(i as int), |c| files_of(c)),
            total.lines == sum_of(stats@.take(i as int), |c| lines_of(c)),
            total.code == sum_of(stats@.take(i as int), |c| code_of(c)),
            total.comments == sum_of(stats@.take(i as int), |c| comments_of(c)),
            total.blanks == sum_of(stats@.take(i as int), |c| blanks_of(c)),
        decreases stats@.len() - i,
    {
        let (name, language) = &stats[i];
        proof {
            lemma_shown_step(stats@, i as int);
            lemma_sum_step(stats@, |c| files_of(c), i as int);
            lemma_sum_step(stats@, |c| lines_of(c), i as int);
            lemma_sum_step(stats@, |c| code_of(c), i as int);
            lemma_sum_step(stats@, |c| comments_of(c), i as int);
            lemma_sum_step(stats@, |c| blanks_of(c), i as int);
            lemma_sum_prefix_le(stats@, |c| files_of(c), i + 1);
            lemma_sum_prefix_le(stats@, |c| lines_of(c), i + 1);
            lemma_sum_prefix_le(stats@, |c| code_of(c), i + 1);
            lemma_sum_prefix_le(stats@, |c| comments_of(c), i + 1);
            lemma_sum_prefix_le(stats@, |c| blanks_of(c), i + 1);
        }
        if language.files > 0 {
            let row = LanguageSummary::from_language(name, language);
            languages.push(row);
        }
        total = LanguageCounts {
            files: total.files + language.files,
            lines: total.lines + language.lines,
            code: total.code + language.code,
            comments: total.comments + language.comments,
            blanks: total.blanks + language.blanks,
        };
        i = i + 1;
    }
    assert(stats@.take(i as int) =~= stats@);
    let total_name = String::from_str("Total");
    let total = LanguageSummary::from_language(&total_name, &total);
    Report { languages, total }
}

} // verus!
