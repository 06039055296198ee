//! Conformance-harness accounting: the acceptance contract for the bridge.
//!
//! The harness drives three conversions per positive fixture — canonical
//! reformat, a JSON-like rendering, a YAML-like rendering — and one
//! rejection check per negative fixture, comparing whitespace-trimmed output
//! against the expected fixture text. This module holds everything the
//! harness decides: fixture-name classification, trimmed comparison, the
//! per-category pass/fail tallies, and the final outcome. Reading fixture
//! files and invoking the foreign runtime stay with the caller, which
//! reports each outcome here.

use vstd::prelude::*;
use vstd::string::StrSliceExecFns;
use vstd::string::StringExecFns;

verus! {

/// Whitespace for the purpose of trimmed comparison: the Unicode
/// `White_Space` characters, the set `char::is_whitespace` accepts and
/// `str::trim` removes.
pub open spec fn is_trim_ws(c: char) -> bool {
    let v = c as u32;
    (0x9 <= v && v <= 0xd) || v == 0x20 || v == 0x85 || v == 0xa0 || v == 0x1680 || (0x2000 <= v
        && v <= 0x200a) || v == 0x2028 || v == 0x2029 || v == 0x202f || v == 0x205f || v == 0x3000
}

/// `text` without its leading whitespace.
pub open spec fn trim_front(text: Seq<char>) -> Seq<char>
    decreases text.len(),
{
    if text.len() == 0 {
        text
    } else if is_trim_ws(text[0]) {
        trim_front(text.drop_first())
    } else {
        text
    }
}

/// `text` without its trailing whitespace.
pub open spec fn trim_back(text: Seq<char>) -> Seq<char>
    decreases text.len(),
{
    if text.len() == 0 {
        text
    } else if is_trim_ws(text.last()) {
        trim_back(text.drop_last())
    } else {
        text
    }
}

/// `text` without its leading and trailing whitespace: the form in which
/// the harness compares outputs.
pub open spec fn trimmed(text: Seq<char>) -> Seq<char> {
    trim_back(trim_front(text))
}

/// Trimming the front removes exactly the leading whitespace run: if the
/// first `start` characters are whitespace and the next one, if any, is not,
/// the trim drops exactly those `start` characters.
proof fn lemma_trim_front_skip(text: Seq<char>, start: int)
    requires
        0 <= start <= text.len(),
        forall|j: int| 0 <= j < start ==> is_trim_ws(text[j]),
        start == text.len() || !is_trim_ws(text[start]),
    ensures
        trim_front(text) == text.skip(start),
    decreases start,
{
    if start == 0 {
        assert(trim_front(text) =~= text.skip(0));
    } else {
        let rest = text.drop_first();
        assert(forall|j: int| 0 <= j < start - 1 ==> is_trim_ws(rest[j]));
        lemma_trim_front_skip(rest, start - 1);
        assert(rest.skip(start - 1) =~= text.skip(start));
    }
}

/// Trimming the back removes exactly the trailing whitespace run: if the
/// characters from `stop` on are whitespace and the one before `stop`, if
/// any, is not, the trim keeps exactly the first `stop` characters.
proof fn lemma_trim_back_take(text: Seq<char>, stop: int)
    requires
        0 <= stop <= text.len(),
        forall|j: int| stop <= j < text.len() ==> is_trim_ws(text[j]),
        stop == 0 || !is_trim_ws(text[stop - 1]),
    ensures
        trim_back(text) == text.take(stop),
    decreases text.len(),
{
    if text.len() == 0 {
        assert(trim_back(text) =~= text.take(0));
    } else if stop == text.len() {
        assert(!is_trim_ws(text.last()));
        assert(trim_back(text) =~= text.take(stop));
    } else {
        assert(is_trim_ws(text.last()));
        let shorter = text.drop_last();
        assert(forall|j: int| stop <= j < shorter.len() ==> is_trim_ws(shorter[j]));
        lemma_trim_back_take(shorter, stop);
        assert(shorter.take(stop) =~= text.take(stop));
    }
}

/// Whether `c` counts as whitespace for trimmed comparison.
fn is_ws_char(c: char) -> (ws: bool)
    ensures
        ws == is_trim_ws(c),
{
    let v = c as u32;
    (0x9 <= v && v <= 0xd) || v == 0x20 || v == 0x85 || v == 0xa0 || v == 0x1680 || (0x2000 <= v
        && v <= 0x200a) || v == 0x2028 || v == 0x2029 || v == 0x202f || v == 0x205f || v == 0x3000
}

/// The character range of `text` that survives trimming: the trimmed text is
/// exactly `text` between the returned start and stop positions.
fn trim_bounds(text: &str) -> (bounds: (usize, usize))
    ensures
        bounds.0 <= bounds.1 <= text@.len(),
        trimmed(text@) == text@.subrange(bounds.0 as int, bounds.1 as int),
{
    let length = text.unicode_len();
    let mut start: usize = 0;
    while start < length && is_ws_char(text.get_char(start))
        invariant
            length == text@.len(),
            start <= length,
            forall|j: int| 0 <= j < start ==> is_trim_ws(text@[j]),
        decreases length - start,
    {
        start = start + 1;
    }
    let mut stop: usize = length;
    while stop > start && is_ws_char(text.get_char(stop - 1))
        invariant
            length == text@.len(),
            start <= stop <= length,
            forall|j: int| stop <= j < length ==> is_trim_ws(text@[j]),
        decreases stop,
    {
        stop = stop - 1;
    }
    proof {
        lemma_trim_front_skip(text@, start as int);
        let kept = text@.skip(start as int);
        assert(forall|j: int| stop - start <= j < kept.len() ==> is_trim_ws(kept[j]));
        lemma_trim_back_take(kept, stop - start);
        assert(kept.take(stop - start) =~= text@.subrange(start as int, stop as int));
    }
    (start, stop)
}

/// Whether the actual output matches the expected text, the comparison the
/// harness applies everywhere: equality of the whitespace-trimmed contents.
pub fn test_format_output(expected: &str, actual: &str) -> (matched: bool)
    ensures
        matched == (trimmed(expected@) == trimmed(actual@)),
{
    let (expected_start, expected_stop) = trim_bounds(expected);
    let (actual_start, actual_stop) = trim_bounds(actual);
    let length = expected_stop - expected_start;
    if actual_stop - actual_start != length {
        assert(trimmed(expected@).len() != trimmed(actual@).len());
        return false;
    }
    let mut i: usize = 0;
    while i < length
        invariant
            expected_stop - expected_start == length,
            actual_stop - actual_start == length,
            expected_stop <= expected@.len(),
            actual_stop <= actual@.len(),
            i <= length,
            trimmed(expected@) == expected@.subrange(
                expected_start as int,
                expected_stop as int,
            ),
            trimmed(actual@) == actual@.subrange(actual_start as int, actual_stop as int),
            forall|j: int|
                0 <= j < i ==> #[trigger] expected@[expected_start + j] == actual@[actual_start
                    + j],
        decreases length - i,
    {
        if expected.get_char(expected_start + i) != actual.get_char(actual_start + i) {
            assert(trimmed(expected@)[i as int] != trimmed(actual@)[i as int]);
            return false;
        }
        i = i + 1;
    }
    assert forall|j: int| 0 <= j < length implies trimmed(expected@)[j] == trimmed(
        actual@,
    )[j] by {
        assert(expected@[expected_start + j] == actual@[actual_start + j]);
    }
    assert(trimmed(expected@) =~= trimmed(actual@));
    true
}

/// The four fixture categories the harness tallies: canonical reformat,
/// JSON-like conversion, YAML-like conversion — the three checks per
/// positive fixture — and the rejection check per negative fixture.
#[derive(Clone, Copy, Debug, PartialEq, Eq, Structural)]
pub enum Category {
    Kson,
    Json,
    Yaml,
    Negative,
}

/// The per-category pass/fail tallies the harness aggregates over a fixture
/// corpus.
#[derive(Clone, Copy, Debug, PartialEq, Eq, Structural)]
pub struct TestResults {
    pub kson_pass: usize,
    pub kson_fail: usize,
    pub json_pass: usize,
    pub json_fail: usize,
    pub yaml_pass: usize,
    pub yaml_fail: usize,
    pub no_pass: usize,
    pub no_fail: usize,
}

impl Default for TestResults {
    /// A fresh tally: nothing passed, nothing failed.
    fn default() -> (results: TestResults)
        ensures
            results == (TestResults {
                kson_pass: 0,
                kson_fail: 0,
                json_pass: 0,
                json_fail: 0,
                yaml_pass: 0,
                yaml_fail: 0,
                no_pass: 0,
                no_fail: 0,
            }),
    {
        TestResults {
            kson_pass: 0,
            kson_fail: 0,
            json_pass: 0,
            json_fail: 0,
            yaml_pass: 0,
            yaml_fail: 0,
            no_pass: 0,
            no_fail: 0,
        }
    }
}

/// A category's pass tally.
pub open spec fn pass_count(results: TestResults, category: Category) -> usize {
    match category {
        Category::Kson => results.kson_pass,
        Category::Json => results.json_pass,
        Category::Yaml => results.yaml_pass,
        Category::Negative => results.no_pass,
    }
}

/// A category's failure tally.
pub open spec fn fail_count(results: TestResults, category: Category) -> usize {
    match category {
        Category::Kson => results.kson_fail,
        Category::Json => results.json_fail,
        Category::Yaml => results.yaml_fail,
        Category::Negative => results.no_fail,
    }
}

/// The failures reported across all four categories.
pub open spec fn total_failures(results: TestResults) -> int {
    results.kson_fail + results.json_fail + results.yaml_fail + results.no_fail
}

/// What recording one judgement does to the tallies: the category's pass or
/// fail count — exactly one of the two — grows by one, and every other
/// count is untouched.
pub open spec fn recorded(
    before: TestResults,
    after: TestResults,
    category: Category,
    passed: bool,
) -> bool {
    &&& pass_count(after, category) == pass_count(before, category) + (if passed {
        1int
    } else {
        0int
    })
    &&& fail_count(after, category) == fail_count(before, category) + (if passed {
        0int
    } else {
        1int
    })
    &&& (forall|other: Category|
        other != category ==> #[trigger] pass_count(after, other) == pass_count(before, other))
    &&& (forall|other: Category|
        other != category ==> #[trigger] fail_count(after, other) == fail_count(before, other))
}

/// The outcome of one foreign conversion call, as the caller observed it:
/// either the runtime produced output text, or it signalled a structured
/// error, carried here as its display text without reinterpretation.
#[derive(Debug, PartialEq, Eq)]
pub enum ConversionOutcome {
    Produced(String),
    Rejected(String),
}

/// Whether a conversion outcome satisfies a positive fixture: the runtime
/// produced output whose trimmed text equals the expected text's.
pub open spec fn conversion_matches(expected: Seq<char>, outcome: ConversionOutcome) -> bool {
    match outcome {
        ConversionOutcome::Produced(output) => trimmed(output@) == trimmed(expected),
        ConversionOutcome::Rejected(_) => false,
    }
}

/// Records that a fixture's expected file is missing: always a reported
/// failure in its category, never a silent skip.
pub fn record_missing_expected(results: &mut TestResults, category: Category)
    requires
        fail_count(*old(results), category) < usize::MAX,
    ensures
        recorded(*old(results), *final(results), category, false),
{
    match category {
        Category::Kson => {
            results.kson_fail = results.kson_fail + 1;
        },
        Category::Json => {
            results.json_fail = results.json_fail + 1;
        },
        Category::Yaml => {
            results.yaml_fail = results.yaml_fail + 1;
        },
        Category::Negative => {
            results.no_fail = results.no_fail + 1;
        },
    }
}

/// Judges one positive fixture's canonical reformat: a pass exactly when the
/// reformatted output matches the expected text, trimmed.
pub fn check_kson_format(results: &mut TestResults, expected: &str, actual: &str)
    requires
        old(results).kson_pass < usize::MAX,
        old(results).kson_fail < usize::MAX,
    ensures
        recorded(
            *old(results),
            *final(results),
            Category::Kson,
            trimmed(expected@) == trimmed(actual@),
        ),
{
    if test_format_output(expected, actual) {
        results.kson_pass = results.kson_pass + 1;
    } else {
        results.kson_fail = results.kson_fail + 1;
    }
}

/// Judges one positive fixture's JSON-like conversion: a pass exactly when
/// the runtime produced output matching the expected text, trimmed; a
/// rejection is a failure.
pub fn test_json_conversion(
    results: &mut TestResults,
    expected: &str,
    outcome: &ConversionOutcome,
)
    requires
        old(results).json_pass < usize::MAX,
        old(results).json_fail < usize::MAX,
    ensures
        recorded(
            *old(results),
            *final(results),
            Category::Json,
            conversion_matches(expected@, *outcome),
        ),
{
    match outcome {
        ConversionOutcome::Produced(output) => {
            if test_format_output(expected, output.as_str()) {
                results.json_pass = results.json_pass + 1;
            } else {
                results.json_fail = results.json_fail + 1;
            }
        },
        ConversionOutcome::Rejected(_) => {
            results.json_fail = results.json_fail + 1;
        },
    }
}

/// Judges one positive fixture's YAML-like conversion: a pass exactly when
/// the runtime produced output matching the expected text, trimmed; a
/// rejection is a failure.
pub fn test_yaml_conversion(
    results: &mut TestResults,
    expected: &str,
    outcome: &ConversionOutcome,
)
    requires
        old(results).yaml_pass < usize::MAX,
        old(results).yaml_fail < usize::MAX,
    ensures
        recorded(
            *old(results),
            *final(results),
            Category::Yaml,
            conversion_matches(expected@, *outcome),
        ),
{
    match outcome {
        ConversionOutcome::Produced(output) => {
            if test_format_output(expected, output.as_str()) {
                results.yaml_pass = results.yaml_pass + 1;
            } else {
                results.yaml_fail = results.yaml_fail + 1;
            }
        },
        ConversionOutcome::Rejected(_) => {
            results.yaml_fail = results.yaml_fail + 1;
        },
    }
}

/// Judges one negative fixture: a pass exactly when the runtime rejected the
/// input. A conversion that reports success on a negative fixture is a
/// failure, whatever it produced.
pub fn test_negative_case(results: &mut TestResults, outcome: &ConversionOutcome)
    requires
        old(results).no_pass < usize::MAX,
        old(results).no_fail < usize::MAX,
    ensures
        recorded(
            *old(results),
            *final(results),
            Category::Negative,
            (outcome matches ConversionOutcome::Rejected(_)),
        ),
{
    match outcome {
        ConversionOutcome::Rejected(_) => {
            results.no_pass = results.no_pass + 1;
        },
        ConversionOutcome::Produced(_) => {
            results.no_fail = results.no_fail + 1;
        },
    }
}

/// The suite passes exactly when no category reported any failure.
pub fn suite_passes(results: &TestResults) -> (passed: bool)
    ensures
        passed == (total_failures(*results) == 0),
{
    results.kson_fail == 0 && results.json_fail == 0 && results.yaml_fail == 0 && results.no_fail
        == 0
}

/// Law: the suite passes exactly when the failures reported across all four
/// categories total zero — equivalently, when every single category's
/// failure tally is zero.
pub proof fn lemma_suite_passes_iff_no_failures(results: TestResults)
    ensures
        (total_failures(results) == 0) <==> (results.kson_fail == 0 && results.json_fail == 0
            && results.yaml_fail == 0 && results.no_fail == 0),
{
}

/// Law: every recorded failure — a mismatch, a wrongly accepted negative
/// fixture, or a missing expected file — raises the suite's failure total by
/// one; it is never silently skipped from the final tally. A recorded pass
/// leaves the total unchanged.
pub proof fn lemma_recorded_in_tally(
    before: TestResults,
    after: TestResults,
    category: Category,
    passed: bool,
)
    requires
        recorded(before, after, category, passed),
    ensures
        total_failures(after) == total_failures(before) + (if passed {
            0int
        } else {
            1int
        }),
{
    assert(fail_count(after, Category::Kson) == after.kson_fail);
    assert(fail_count(after, Category::Json) == after.json_fail);
    assert(fail_count(after, Category::Yaml) == after.yaml_fail);
    assert(fail_count(after, Category::Negative) == after.no_fail);
}

/// How a fixture file's name classifies it: a `y_` input must parse and is
/// checked against its three expected outputs, an `n_` input must fail to
/// parse, and anything else is not a fixture input.
#[derive(Clone, Copy, Debug, PartialEq, Eq, Structural)]
pub enum FixtureKind {
    Positive,
    Negative,
    Other,
}

/// Whether `text` starts with `prefix`.
pub open spec fn spec_has_prefix(text: Seq<char>, prefix: Seq<char>) -> bool {
    prefix.len() <= text.len() && text.take(prefix.len() as int) == prefix
}

/// Whether `text` ends with `suffix`.
pub open spec fn spec_has_suffix(text: Seq<char>, suffix: Seq<char>) -> bool {
    suffix.len() <= text.len() && text.skip(text.len() - suffix.len()) == suffix
}

/// The classification a fixture file name receives.
pub open spec fn spec_classify(name: Seq<char>) -> FixtureKind {
    if spec_has_prefix(name, "y_"@) && spec_has_suffix(name, ".input.kson"@) {
        FixtureKind::Positive
    } else if spec_has_prefix(name, "n_"@) && spec_has_suffix(name, ".input.kson"@) {
        FixtureKind::Negative
    } else {
        FixtureKind::Other
    }
}

/// Whether `text` starts with `prefix`.
fn has_prefix(text: &str, prefix: &str) -> (found: bool)
    ensures
        found == spec_has_prefix(text@, prefix@),
{
    let prefix_len = prefix.unicode_len();
    let text_len = text.unicode_len();
    if prefix_len > text_len {
        return false;
    }
    let mut i: usize = 0;
    while i < prefix_len
        invariant
            prefix_len == prefix@.len(),
            text_len == text@.len(),
            prefix_len <= text_len,
            i <= prefix_len,
            forall|j: int| 0 <= j < i ==> #[trigger] text@[j] == prefix@[j],
        decreases prefix_len - i,
    {
        if text.get_char(i) != prefix.get_char(i) {
            assert(text@.take(prefix@.len() as int)[i as int] != prefix@[i as int]);
            return false;
        }
        i = i + 1;
    }
    assert(text@.take(prefix@.len() as int) =~= prefix@);
    true
}

/// Whether `text` ends with `suffix`.
fn has_suffix(text: &str, suffix: &str) -> (found: bool)
    ensures
        found == spec_has_suffix(text@, suffix@),
{
    let suffix_len = suffix.unicode_len();
    let text_len = text.unicode_len();
    if suffix_len > text_len {
        return false;
    }
    let offset = text_len - suffix_len;
    let mut i: usize = 0;
    while i < suffix_len
        invariant
            suffix_len == suffix@.len(),
            text_len == text@.len(),
            offset == text_len - suffix_len,
            i <= suffix_len,
            forall|j: int| 0 <= j < i ==> #[trigger] text@[offset + j] == suffix@[j],
        decreases suffix_len - i,
    {
        if text.get_char(offset + i) != suffix.get_char(i) {
            assert(text@.skip(offset as int)[i as int] != suffix@[i as int]);
            return false;
        }
        i = i + 1;
    }
    assert forall|j: int| 0 <= j < suffix@.len() implies text@.skip(offset as int)[j]
        == suffix@[j] by {
        assert(text@[offset + j] == suffix@[j]);
    }
    assert(text@.skip(offset as int) =~= suffix@);
    true
}

/// Classifies a file from the fixture corpus by its name.
pub fn classify_fixture(name: &str) -> (kind: FixtureKind)
    ensures
        kind == spec_classify(name@),
{
    if has_suffix(name, ".input.kson") {
        if has_prefix(name, "y_") {
            return FixtureKind::Positive;
        }
        if has_prefix(name, "n_") {
            return FixtureKind::Negative;
        }
    }
    FixtureKind::Other
}

/// The part of a fixture input's file name that identifies the fixture: the
/// name with the input suffix removed. The expected-output file names are
/// built from it.
pub fn fixture_stem(name: &str) -> (stem: String)
    requires
        spec_has_suffix(name@, ".input.kson"@),
    ensures
        stem@ + ".input.kson"@ == name@,
{
    let suffix_len = ".input.kson".unicode_len();
    let text_len = name.unicode_len();
    let stem = name.substring_char(0, text_len - suffix_len);
    proof {
        assert(stem@ + ".input.kson"@ =~= name@);
    }
    String::from_str(stem)
}

/// The expected canonical-reformat file's name for a fixture.
pub fn expected_kson_name(stem: &str) -> (name: String)
    ensures
        name@ == stem@ + ".expected.kson"@,
{
    String::from_str(stem).concat(".expected.kson")
}

/// The expected JSON-conversion file's name for a fixture.
pub fn expected_json_name(stem: &str) -> (name: String)
    ensures
        name@ == stem@ + ".expected.json"@,
{
    String::from_str(stem).concat(".expected.json")
}

/// The expected YAML-conversion file's name for a fixture.
pub fn expected_yaml_name(stem: &str) -> (name: String)
    ensures
        name@ == stem@ + ".expected.yaml"@,
{
    String::from_str(stem).concat(".expected.yaml")
}

} // verus!
