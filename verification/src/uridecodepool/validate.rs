//! The actions that look at the pool of decoding pipelines.

use crate::actions::{ActionParameter, ActionType};
use crate::text::{decimal, signed_decimal, str_eq};
use vstd::prelude::*;

verus! {

/// A source as a scenario sees it: its URI, how often its pipeline was used again, where it has
/// one, and the pipeline.
#[derive(Debug)]
pub struct PoolSource {
    pub uri: Option<String>,
    pub reuse_count: Option<i32>,
    pub pipeline: Option<Box<Element>>,
}

/// An element as a scenario sees it: a source of the pool or not, with the elements inside it.
#[derive(Debug)]
pub struct Element {
    pub source: Option<PoolSource>,
    pub children: Vec<Element>,
}

/// What a scenario runs on.
#[derive(Debug)]
pub enum ScenarioView {
    NoScenario,
    NoPipeline,
    Pipeline(Element),
}

/// What is said of a number of pipelines that is not the expected one. Nothing, where nothing or a
/// negative number is expected.
pub open spec fn count_complaint(expected: Option<i32>, kind: Seq<char>, actual: usize) -> Option<
    Seq<char>,
> {
    if expected is Some && expected->0 >= 0 && expected->0 != actual {
        Some(
            "Expected "@ + crate::text::decimal_text(expected->0 as nat) + " "@ + kind
                + " pipelines, got "@ + crate::text::decimal_text(actual as nat),
        )
    } else {
        None
    }
}

fn check_count(expected: Option<i32>, kind: &str, actual: usize) -> (r: Result<(), String>)
    ensures
        match count_complaint(expected, kind@, actual) {
            Some(text) => r is Err && r->Err_0@ == text,
            None => r is Ok,
        },
{
    if let Some(expected) = expected {
        if expected >= 0 && actual != expected as usize {
            let mut text = "Expected ".to_owned();
            text.append(decimal(expected as u64).as_str());
            text.append(" ");
            text.append(kind);
            text.append(" pipelines, got ");
            text.append(decimal(actual as u64).as_str());
            return Err(text);
        }
    }
    Ok(())
}

/// The action `check-uridecodepool-pipelines`: compares the numbers of pipelines of the pool with
/// those that are expected, and complains of the first that differs.
pub fn check_pipelines(
    total: usize,
    running: usize,
    prepared: usize,
    expected_total: Option<i32>,
    expected_running: Option<i32>,
    expected_prepared: Option<i32>,
) -> (r: Result<(), String>)
    ensures
        match (
            count_complaint(expected_total, "total"@, total),
            count_complaint(expected_running, "running"@, running),
            count_complaint(expected_prepared, "prepared"@, prepared),
        ) {
            (Some(text), _, _) => r is Err && r->Err_0@ == text,
            (None, Some(text), _) => r is Err && r->Err_0@ == text,
            (None, None, Some(text)) => r is Err && r->Err_0@ == text,
            (None, None, None) => r is Ok,
        },
{
    check_count(expected_total, "total", total)?;
    check_count(expected_running, "running", running)?;
    check_count(expected_prepared, "prepared", prepared)
}

/// How often the pipelines of the sources with a URI were used again: of those in an element, in
/// the pipelines of its sources, and in the elements inside it.
pub open spec fn use_counts(element: Element, uri: Seq<char>) -> Seq<Option<i32>>
    decreases element,
{
    match element.source {
        Some(source) => {
            let own = if source.uri is Some && source.uri->0@ == uri {
                seq![source.reuse_count]
            } else {
                seq![]
            };
            let inner = match source.pipeline {
                Some(pipeline) => use_counts(*pipeline, uri),
                None => seq![],
            };
            own + inner + use_counts_in(element.children@, uri)
        },
        None => use_counts_in(element.children@, uri),
    }
}

pub open spec fn use_counts_in(elements: Seq<Element>, uri: Seq<char>) -> Seq<Option<i32>>
    decreases elements,
{
    if elements.len() == 0 {
        seq![]
    } else {
        use_counts_in(elements.drop_last(), uri) + use_counts(elements.last(), uri)
    }
}

fn collect_use_counts(element: &Element, uri: &str, counts: &mut Vec<Option<i32>>)
    ensures
        final(counts)@ == old(counts)@ + use_counts(*element, uri@),
    decreases *element,
{
    let ghost before = counts@;
    if let Some(source) = &element.source {
        if let Some(source_uri) = &source.uri {
            if str_eq(source_uri.as_str(), uri) {
                counts.push(source.reuse_count);
            }
        }
        if let Some(pipeline) = &source.pipeline {
            collect_use_counts(pipeline, uri, counts);
        }
    }
    let ghost own = counts@;
    let n: usize = element.children.len();
    let mut i: usize = 0;
    while i < n
        invariant
            n == element.children.len(),
            i <= n,
            counts@ == own + use_counts_in(element.children@.take(i as int), uri@),
        decreases n - i,
    {
        let ghost done = element.children@.take(i as int);
        proof {
            let next = element.children@.take(i + 1);
            assert(next.drop_last() =~= done);
            assert(next.last() == element.children@[i as int]);
        }
        collect_use_counts(&element.children[i], uri, counts);
        proof {
            assert(counts@ =~= own + use_counts_in(element.children@.take(i + 1), uri@));
        }
        i = i + 1;
    }
    proof {
        assert(element.children@.take(n as int) =~= element.children@);
        assert(counts@ =~= before + use_counts(*element, uri@));
    }
}

/// What is said of a check of a pipeline's use; nothing where all is well.
pub open spec fn use_count_complaint(
    uri: Seq<char>,
    expected: i32,
    scenario: ScenarioView,
) -> Option<Seq<char>> {
    if expected < 0 {
        Some("expected-use-count must be >= 0"@)
    } else {
        match scenario {
            ScenarioView::NoScenario => Some("No scenario found"@),
            ScenarioView::NoPipeline => Some("No pipeline found in scenario"@),
            ScenarioView::Pipeline(pipeline) => {
                let counts = use_counts(pipeline, uri);
                if counts.len() == 0 {
                    Some("No uridecodepoolsrc found with URI: "@ + uri)
                } else if counts.len() > 1 {
                    Some(
                        "Multiple uridecodepoolsrc elements found with same URI. Consider using ?id=unique_id in URI"@,
                    )
                } else if counts[0] is None {
                    Some("Failed to get pipeline property from uridecodepoolsrc"@)
                } else if counts[0]->0 != expected {
                    Some(
                        "Expected pipeline reuse count "@ + crate::text::signed_text(
                            expected as int,
                        ) + ", got "@ + crate::text::signed_text(counts[0]->0 as int),
                    )
                } else {
                    None
                }
            },
        }
    }
}

/// The action `check-uridecodepool-pipeline-use-count`: finds the one source with a URI, in the
/// pipeline of the scenario and in everything inside it, and compares how often its pipeline was
/// used again with what is expected.
pub fn check_pipeline_use_count(uri: &str, expected: i32, scenario: &ScenarioView) -> (r: Result<
    (),
    String,
>)
    ensures
        match use_count_complaint(uri@, expected, *scenario) {
            Some(text) => r is Err && r->Err_0@ == text,
            None => r is Ok,
        },
{
    if expected < 0 {
        return Err("expected-use-count must be >= 0".to_owned());
    }
    let pipeline = match scenario {
        ScenarioView::NoScenario => return Err("No scenario found".to_owned()),
        ScenarioView::NoPipeline => return Err("No pipeline found in scenario".to_owned()),
        ScenarioView::Pipeline(pipeline) => pipeline,
    };
    let mut counts: Vec<Option<i32>> = Vec::new();
    collect_use_counts(pipeline, uri, &mut counts);
    proof {
        assert(counts@ =~= use_counts(*pipeline, uri@));
    }
    if counts.len() == 0 {
        let mut text = "No uridecodepoolsrc found with URI: ".to_owned();
        text.append(uri);
        return Err(text);
    }
    if counts.len() > 1 {
        return Err(
            "Multiple uridecodepoolsrc elements found with same URI. Consider using ?id=unique_id in URI".to_owned(),
        );
    }
    match counts[0] {
        None => Err("Failed to get pipeline property from uridecodepoolsrc".to_owned()),
        Some(actual) => {
            if actual != expected {
                let mut text = "Expected pipeline reuse count ".to_owned();
                text.append(signed_decimal(expected).as_str());
                text.append(", got ");
                text.append(signed_decimal(actual).as_str());
                Err(text)
            } else {
                Ok(())
            }
        },
    }
}

fn expected_count(name: &'static str, description: &'static str) -> (parameter: ActionParameter)
    ensures
        crate::actions::parameter_is(
            parameter,
            name@,
            description@,
            Some("int"@),
            Some("-1"@),
            false,
        ),
{
    ActionParameter {
        name,
        description,
        value_type: Some("int"),
        default_value: Some("-1"),
        mandatory: false,
    }
}

/// The two actions, as they are registered.
pub fn register_validate_actions() -> (actions: Vec<ActionType>)
    ensures
        actions.len() == 2,
        crate::actions::action_is(actions[0], "check-uridecodepool-pipelines"@, None, None, false),
        actions[0].parameters.len() == 3,
        crate::actions::parameter_is(
            actions[0].parameters[0],
            "expected-total"@,
            "Expected total number of pipelines"@,
            Some("int"@),
            Some("-1"@),
            false,
        ),
        crate::actions::parameter_is(
            actions[0].parameters[1],
            "expected-running"@,
            "Expected number of running pipelines"@,
            Some("int"@),
            Some("-1"@),
            false,
        ),
        crate::actions::parameter_is(
            actions[0].parameters[2],
            "expected-prepared"@,
            "Expected number of prepared+pooled pipelines"@,
            Some("int"@),
            Some("-1"@),
            false,
        ),
        crate::actions::action_is(actions[1], "check-uridecodepool-pipeline-use-count"@, None, None, false),
        actions[1].parameters.len() == 2,
        crate::actions::parameter_is(
            actions[1].parameters[0],
            "uri"@,
            "URI to check for pipeline reuse"@,
            Some("string"@),
            None,
            true,
        ),
        crate::actions::parameter_is(
            actions[1].parameters[1],
            "expected-use-count"@,
            "Expected number of times the pipeline has been reused"@,
            Some("int"@),
            None,
            true,
        ),
{
    let mut counts: Vec<ActionParameter> = Vec::new();
    counts.push(expected_count("expected-total", "Expected total number of pipelines"));
    counts.push(expected_count("expected-running", "Expected number of running pipelines"));
    counts.push(
        expected_count("expected-prepared", "Expected number of prepared+pooled pipelines"),
    );
    let mut reuse: Vec<ActionParameter> = Vec::new();
    reuse.push(
        ActionParameter {
            name: "uri",
            description: "URI to check for pipeline reuse",
            value_type: Some("string"),
            default_value: None,
            mandatory: true,
        },
    );
    reuse.push(
        ActionParameter {
            name: "expected-use-count",
            description: "Expected number of times the pipeline has been reused",
            value_type: Some("int"),
            default_value: None,
            mandatory: true,
        },
    );
    let mut actions: Vec<ActionType> = Vec::new();
    actions.push(
        ActionType {
            name: "check-uridecodepool-pipelines",
            implementer: None,
            description: None,
            parameters: counts,
            is_check: false,
        },
    );
    actions.push(
        ActionType {
            name: "check-uridecodepool-pipeline-use-count",
            implementer: None,
            description: None,
            parameters: reuse,
            is_check: false,
        },
    );
    actions
}

/// A number of pipelines is complained of exactly where one is expected, zero or more, and it is
/// another; a negative expectation never complains. Complaints of different numbers differ.
pub proof fn law_only_other_numbers_are_complained_of(
    expected: Option<i32>,
    kind: Seq<char>,
    actual: usize,
    other: usize,
)
    ensures
        count_complaint(expected, kind, actual) is Some <==> (expected matches Some(n) && n >= 0 && n
            != actual),
        actual != other && count_complaint(expected, kind, actual) is Some && count_complaint(
            expected,
            kind,
            other,
        ) is Some ==> count_complaint(expected, kind, actual) != count_complaint(
            expected,
            kind,
            other,
        ),
{
    if count_complaint(expected, kind, actual) is Some && count_complaint(expected, kind, other) is Some {
        let start = "Expected "@ + crate::text::decimal_text(expected->0 as nat) + " "@ + kind
            + " pipelines, got "@;
        let a = crate::text::decimal_text(actual as nat);
        let b = crate::text::decimal_text(other as nat);
        assert((start + a).skip(start.len() as int) =~= a);
        assert((start + b).skip(start.len() as int) =~= b);
        crate::text::law_decimals_are_read_back(actual as nat);
        crate::text::law_decimals_are_read_back(other as nat);
    }
}

/// Every source with the URI counts, and no other: an element's own source first, where it has the
/// URI, then those in its source's pipeline, then those inside the element, one child after the
/// other. So the number of counts of an element is one for its own source and the sum of all others.
pub proof fn law_every_source_with_the_uri_counts(element: Element, uri: Seq<char>, i: int)
    requires
        0 <= i < element.children@.len(),
    ensures
        ({
            let all = use_counts(element, uri);
            let own: int = if element.source matches Some(source) && source.uri matches Some(own)
                && own@ == uri {
                1
            } else {
                0
            };
            let inner: int = match element.source {
                Some(PoolSource { pipeline: Some(pipeline), .. }) => use_counts(
                    *pipeline,
                    uri,
                ).len() as int,
                _ => 0,
            };
            &&& all.len() == own + inner + use_counts_in(element.children@, uri).len()
            &&& own == 1 ==> all[0] == element.source->0.reuse_count
            &&& use_counts(element.children@[i], uri).len() <= all.len()
            &&& forall|k: int|
                0 <= k < use_counts(element.children@[i], uri).len() ==> all.contains(
                    #[trigger] use_counts(element.children@[i], uri)[k],
                )
        }),
{
    let all = use_counts(element, uri);
    let inside = use_counts_in(element.children@, uri);
    lemma_children_count(element.children@, uri, i);
    let child = use_counts(element.children@[i], uri);
    let start = all.len() - inside.len();
    assert forall|k: int| 0 <= k < child.len() implies all.contains(#[trigger] child[k]) by {
        assert(inside.contains(child[k]));
        let j = choose|j: int| 0 <= j < inside.len() && inside[j] == child[k];
        assert(all[start + j] == inside[j]);
    }
}

proof fn lemma_children_count(children: Seq<Element>, uri: Seq<char>, i: int)
    requires
        0 <= i < children.len(),
    ensures
        use_counts(children[i], uri).len() <= use_counts_in(children, uri).len(),
        forall|k: int|
            0 <= k < use_counts(children[i], uri).len() ==> use_counts_in(children, uri).contains(
                #[trigger] use_counts(children[i], uri)[k],
            ),
    decreases children.len(),
{
    let rest = children.drop_last();
    let before = use_counts_in(rest, uri);
    let last = use_counts(children.last(), uri);
    let all = use_counts_in(children, uri);
    let child = use_counts(children[i], uri);
    assert(all == before + last);
    if i == children.len() - 1 {
        assert forall|k: int| 0 <= k < child.len() implies all.contains(#[trigger] child[k]) by {
            assert(all[before.len() + k] == child[k]);
        }
    } else {
        lemma_children_count(rest, uri, i);
        assert(rest[i] == children[i]);
        assert forall|k: int| 0 <= k < child.len() implies all.contains(#[trigger] child[k]) by {
            assert(before.contains(child[k]));
            let j = choose|j: int| 0 <= j < before.len() && before[j] == child[k];
            assert(all[j] == before[j]);
        }
    }
}

/// A use count is complained of exactly where it is not the one count of the one source with the URI:
/// nothing is said where there is one such source, with a pipeline that was used again as often as is
/// expected.
pub proof fn law_all_is_well_where_the_one_source_agrees(
    uri: Seq<char>,
    expected: i32,
    scenario: ScenarioView,
)
    ensures
        use_count_complaint(uri, expected, scenario) is None <==> expected >= 0 && (
        scenario matches ScenarioView::Pipeline(pipeline) && use_counts(pipeline, uri) == seq![
            Some(expected),
        ]),
{
    if let ScenarioView::Pipeline(pipeline) = scenario {
        let counts = use_counts(pipeline, uri);
        if counts.len() == 1 && counts[0] == Some(expected) {
            assert(counts =~= seq![Some(expected)]);
        }
        assert(seq![Some(expected)][0] == Some(expected));
    }
}

} // verus!
