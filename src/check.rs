//! Evaluating a list of rules and reporting on the outcomes.
use vstd::prelude::*;
use crate::outcome::{IsSuccess, RuleOutcome};
use crate::outcomes::{entries_insert, OutcomesByDescription};
use crate::rule::{Rule, RuleContext};
use crate::rules::{default_catalog, default_rules, BuiltinRule};
use crate::stats::{overall_outcome, stats_of, OutcomeStats};
use crate::text::{decimal_text, push_decimal};

verus! {

/// What a piece of report text reports on; a failure to print it is
/// reported by this topic.
#[derive(Clone, Copy, Debug, PartialEq, Eq, Hash, Structural)]
pub enum PrintTopic {
    /// The problem met while reading the build metadata.
    CargoMetadata,
    /// The description of a rule about to be evaluated.
    RuleDescription,
    /// The outcome of a rule's evaluation.
    RuleEvaluationOutcome,
    /// The summary of a whole check.
    CheckSummary,
}

impl PrintTopic {
    /// A short name of the topic, for messages.
    pub fn name(&self) -> (r: &'static str)
        ensures
            r@ == topic_name(*self),
    {
        match self {
            PrintTopic::CargoMetadata => "cargo metadata",
            PrintTopic::RuleDescription => "rule description",
            PrintTopic::RuleEvaluationOutcome => "rule evaluation outcome",
            PrintTopic::CheckSummary => "culture check summary",
        }
    }
}

/// The short name of a topic.
pub open spec fn topic_name(topic: PrintTopic) -> Seq<char> {
    match topic {
        PrintTopic::CargoMetadata => "cargo metadata"@,
        PrintTopic::RuleDescription => "rule description"@,
        PrintTopic::RuleEvaluationOutcome => "rule evaluation outcome"@,
        PrintTopic::CheckSummary => "culture check summary"@,
    }
}

/// Errors of a check as a whole. Rule outcomes, failures included, are not
/// errors.
#[derive(Clone, Copy, Debug, PartialEq, Eq, Hash, Structural)]
pub enum CheckError {
    /// Report text could not be written to the output.
    PrintOutputFailure {
        /// What the text that could not be written was about.
        topic: PrintTopic,
    },
}

/// A piece of report text, to be written in order.
#[derive(Clone, Debug, PartialEq, Eq, Hash)]
pub struct PrintItem {
    /// The text, line feeds included.
    pub text: String,
    /// What the text reports on.
    pub topic: PrintTopic,
}

/// The text and topic of each piece of a transcript.
pub open spec fn items_view(items: Seq<PrintItem>) -> Seq<(Seq<char>, PrintTopic)> {
    items.map_values(|p: PrintItem| (p.text@, p.topic))
}

/// The outcomes of a check and the report text it produced.
pub struct CheckReport {
    /// The outcome of each evaluated rule, by description.
    pub outcomes: OutcomesByDescription,
    /// The report, in the order it is to be written.
    pub transcript: Vec<PrintItem>,
}

/// The word that reports an outcome.
pub open spec fn outcome_word(o: RuleOutcome) -> Seq<char> {
    match o {
        RuleOutcome::Success => "ok"@,
        RuleOutcome::Failure => "FAILED"@,
        RuleOutcome::Undetermined => "UNDETERMINED"@,
    }
}

fn summary_str(o: RuleOutcome) -> (r: &'static str)
    ensures
        r@ == outcome_word(o),
{
    match o {
        RuleOutcome::Success => "ok",
        RuleOutcome::Failure => "FAILED",
        RuleOutcome::Undetermined => "UNDETERMINED",
    }
}

/// The text that follows a rule's description once it is evaluated.
pub open spec fn outcome_text(o: RuleOutcome) -> Seq<char> {
    " ... "@ + outcome_word(o) + "\n"@
}

/// The outcomes of evaluating `rules` in order against `context`; a later
/// rule with the description of an earlier one overwrites its outcome.
pub open spec fn outcomes_of<R: Rule>(rules: Seq<&R>, context: RuleContext) -> Seq<(Seq<char>, RuleOutcome)>
    decreases rules.len(),
{
    if rules.len() == 0 {
        Seq::empty()
    } else {
        entries_insert(
            outcomes_of(rules.drop_last(), context),
            rules.last().spec_description(),
            rules.last().spec_evaluate(context),
        )
    }
}

/// The report of evaluating `rules` in order against `context`: for each
/// rule its description, then the outcome's line ending.
pub open spec fn transcript_of<R: Rule>(rules: Seq<&R>, context: RuleContext) -> Seq<(Seq<char>, PrintTopic)>
    decreases rules.len(),
{
    if rules.len() == 0 {
        Seq::empty()
    } else {
        transcript_of(rules.drop_last(), context) + seq![
            (rules.last().spec_description(), PrintTopic::RuleDescription),
            (outcome_text(rules.last().spec_evaluate(context)), PrintTopic::RuleEvaluationOutcome),
        ]
    }
}

/// Evaluates each rule in order against `context`, recording its outcome
/// under its description and reporting its description and outcome.
pub fn evaluate_rules<R: Rule>(context: &RuleContext, rules: &[&R]) -> (r: CheckReport)
    ensures
        r.outcomes@ == outcomes_of(rules@, *context),
        items_view(r.transcript@) == transcript_of(rules@, *context),
{
    let mut outcomes = OutcomesByDescription::new();
    let mut transcript: Vec<PrintItem> = Vec::new();
    let mut i: usize = 0;
    while i < rules.len()
        invariant
            0 <= i <= rules@.len(),
            outcomes@ == outcomes_of(rules@.take(i as int), *context),
            items_view(transcript@) == transcript_of(rules@.take(i as int), *context),
        decreases rules@.len() - i,
    {
        proof {
            assert(rules@.take(i + 1).drop_last() =~= rules@.take(i as int));
            assert(rules@.take(i + 1).last() == rules@[i as int]);
        }
        let rule = rules[i];
        let description = rule.description();
        let outcome = rule.evaluate(context);
        let ghost before = transcript@;
        transcript.push(PrintItem { text: description.to_owned(), topic: PrintTopic::RuleDescription });
        let mut tail = " ... ".to_owned();
        tail.append(summary_str(outcome));
        tail.append("\n");
        transcript.push(PrintItem { text: tail, topic: PrintTopic::RuleEvaluationOutcome });
        assert(items_view(transcript@) =~= items_view(before) + seq![
            (rule.spec_description(), PrintTopic::RuleDescription),
            (outcome_text(outcome), PrintTopic::RuleEvaluationOutcome),
        ]);
        outcomes.insert(description.to_owned(), outcome);
        i += 1;
    }
    assert(rules@.take(rules@.len() as int) =~= rules@);
    CheckReport { outcomes, transcript }
}

/// The summary line of a check with the statistics `stats`.
pub open spec fn summary_text(stats: OutcomeStats) -> Seq<char> {
    "result: "@ + (if overall_outcome(stats) == RuleOutcome::Success {
        "ok"@
    } else {
        "FAILED"@
    }) + ". "@ + decimal_text(stats.success_count as nat) + " passed. "@ + decimal_text(
        stats.fail_count as nat,
    ) + " failed. "@ + decimal_text(stats.undetermined_count as nat) + " undetermined.\n"@
}

/// Writes the summary line of a check with the statistics `stats`: whether
/// it succeeded overall, then the three counts.
pub fn summary_line(stats: &OutcomeStats) -> (r: String)
    ensures
        r@ == summary_text(*stats),
{
    let mut line = "result: ".to_owned();
    if stats.is_success() {
        line.append("ok");
    } else {
        line.append("FAILED");
    }
    line.append(". ");
    push_decimal(&mut line, stats.success_count);
    line.append(" passed. ");
    push_decimal(&mut line, stats.fail_count);
    line.append(" failed. ");
    push_decimal(&mut line, stats.undetermined_count);
    line.append(" undetermined.\n");
    line
}

/// Evaluates `rules` in order against `context` and reports on them: a line
/// per rule, then a summary line over all the outcomes.
pub fn check_culture<R: Rule>(context: &RuleContext, rules: &[&R]) -> (r: CheckReport)
    ensures
        r.outcomes@ == outcomes_of(rules@, *context),
        items_view(r.transcript@) == transcript_of(rules@, *context).push(
            (summary_text(stats_of(outcomes_of(rules@, *context))), PrintTopic::CheckSummary),
        ),
{
    let mut report = evaluate_rules(context, rules);
    let stats = OutcomeStats::from(&report.outcomes);
    let ghost before = report.transcript@;
    report.transcript.push(PrintItem { text: summary_line(&stats), topic: PrintTopic::CheckSummary });
    assert(items_view(report.transcript@) =~= items_view(before).push(
        (summary_text(stats), PrintTopic::CheckSummary),
    ));
    report
}

/// The built-in catalog, as references to its rules.
pub open spec fn refs_of<'a>(rules: Seq<BuiltinRule>) -> Seq<&'a BuiltinRule> {
    rules.map_values(|r: BuiltinRule| &r)
}

/// Runs `check_culture` with every rule of `default_rules`.
pub fn check_culture_default(context: &RuleContext) -> (r: CheckReport)
    ensures
        r.outcomes@ == outcomes_of(refs_of(default_catalog()), *context),
        items_view(r.transcript@) == transcript_of(refs_of(default_catalog()), *context).push(
            (summary_text(stats_of(outcomes_of(refs_of(default_catalog()), *context))), PrintTopic::CheckSummary),
        ),
{
    let rules = default_rules();
    let mut refs: Vec<&BuiltinRule> = Vec::new();
    let mut k: usize = 0;
    while k < rules.len()
        invariant
            rules@ == default_catalog(),
            0 <= k <= rules@.len(),
            refs@ == refs_of(rules@).take(k as int),
        decreases rules@.len() - k,
    {
        refs.push(&rules[k]);
        assert(refs@ =~= refs_of(rules@).take(k + 1));
        k += 1;
    }
    assert(refs_of(rules@).take(rules@.len() as int) =~= refs_of(rules@));
    check_culture(context, refs.as_slice())
}

/// Evaluating an empty list of rules records nothing: all counts are zero
/// and the overall outcome is undetermined.
pub proof fn lemma_empty_rule_list<R: Rule>(rules: Seq<&R>, context: RuleContext)
    requires
        rules.len() == 0,
    ensures
        outcomes_of(rules, context) == Seq::<(Seq<char>, RuleOutcome)>::empty(),
        stats_of(outcomes_of(rules, context)) == (OutcomeStats {
            success_count: 0,
            fail_count: 0,
            undetermined_count: 0,
        }),
        overall_outcome(stats_of(outcomes_of(rules, context))) == RuleOutcome::Undetermined,
{
}

} // verus!
