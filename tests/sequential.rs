use std::cell::RefCell;
use std::collections::HashMap;

use sequential_chain::context::{field_text, flatten_fields, ContextValue};
use sequential_chain::execution::{Action, Event, Execution};
use sequential_chain::prompt::{clean_prompt, format_prompt_as_user};
use sequential_chain::result::ChainResult;
use sequential_chain::sequential::SequentialChain;

/// A step whose model always answers with `reply`, or fails when it has none.
struct MockStep {
    template: String,
    reply: Option<String>,
    context: HashMap<String, String>,
    runs: usize,
}

type Chain = SequentialChain<RefCell<MockStep>>;

fn mock(template: &str, reply: Option<&str>) -> RefCell<MockStep> {
    RefCell::new(MockStep {
        template: template.to_string(),
        reply: reply.map(|r| r.to_string()),
        context: HashMap::new(),
        runs: 0,
    })
}

/// Renders a template against a context by plain `{{name}}` substitution.
fn render(template: &str, context: &HashMap<String, String>) -> String {
    let mut out = template.to_string();
    for (k, v) in context {
        out = out.replace(&format!("{{{{{}}}}}", k), v);
    }
    out
}

/// Drives a run to its end the way a caller of the engine does; returns the
/// completed result, or the index of the step that failed.
fn drive(chain: &mut Chain, target: &str) -> Result<ChainResult, usize> {
    let mut run: Execution = chain.begin();
    loop {
        match run.action() {
            Action::Execute { step, fragment } => {
                let mut s = chain.steps()[step].borrow_mut();
                assert_eq!(target, "review");
                if let Some(f) = fragment {
                    s.template.push_str(&f);
                }
                s.runs += 1;
                let event = match &s.reply {
                    Some(r) => Event::Succeeded(ChainResult::new(format!("step{}", step)).with_content(r.clone())),
                    None => Event::Failed,
                };
                drop(s);
                run.advance(event);
            }
            Action::Complete(r) => return Ok(r),
            Action::Abort { step } => return Err(step),
        }
    }
}

fn load(chain: &Chain, context: &HashMap<String, String>) {
    let copies = chain.load_context(context);
    for (step, copy) in chain.steps().iter().zip(copies) {
        step.borrow_mut().context = copy;
    }
}

fn hamlet() -> HashMap<String, String> {
    let mut m = HashMap::new();
    m.insert("play".to_string(), "Hamlet".to_string());
    m
}

#[test]
fn test_generate() {
    let first = "{{#chat}}{{#user}}Give me a summary of {{play}}'s plot.{{/user}}{{/chat}}";
    let second = "{{#chat}}{{#system}}You are a professional critic. When given a summary of a play, you must write a review of it. Here is a summary of {{play}}'s plot:{{/system}}{{/chat}}";
    let mut chain: Chain = SequentialChain::new()
        .link(mock(first, Some("A prince avenges his father.")))
        .link(mock(second, Some("A moving tragedy.")));
    load(&chain, &hamlet());
    let res = drive(&mut chain, "review");
    assert!(res.is_ok());
}

#[test]
fn user_fragment_wraps_trimmed_output() {
    assert_eq!(
        format_prompt_as_user("  A prince avenges his father.\n"),
        "{{#user}}A prince avenges his father.{{/user}}"
    );
}

#[test]
fn user_fragment_collapses_double_braces() {
    assert_eq!(
        format_prompt_as_user("Hi {{play}} }}} {x}"),
        "{{#user}}Hi {play} } {x}{{/user}}"
    );
}

#[test]
fn user_fragment_of_blank_output_is_empty_turn() {
    assert_eq!(format_prompt_as_user(" \t\r\n "), "{{#user}}{{/user}}");
    assert_eq!(format_prompt_as_user(""), "{{#user}}{{/user}}");
}

#[test]
fn clean_prompt_modes() {
    assert_eq!(clean_prompt("  {{x}} y\n", false), "{{x}} y");
    assert_eq!(clean_prompt("  {{x}} y\n", true), "{x} y");
    assert_eq!(clean_prompt("inner  space\tkept", true), "inner  space\tkept");
    assert_eq!(clean_prompt("é{{ü}}", true), "é{ü}");
}

#[test]
fn new_chain_is_empty_with_fresh_identifier() {
    let a: Chain = SequentialChain::new();
    let b: Chain = SequentialChain::default();
    for chain in [&a, &b] {
        let name: Vec<char> = chain.name().chars().collect();
        assert_eq!(name.len(), 36);
        for (i, c) in name.iter().enumerate() {
            if [8, 13, 18, 23].contains(&i) {
                assert_eq!(*c, '-');
            } else {
                assert!(c.is_ascii_digit() || ('a'..='f').contains(c));
            }
        }
        assert_eq!(name[14], '4');
        assert!(['8', '9', 'a', 'b'].contains(&name[19]));
    }
    assert_ne!(a.name(), b.name());
    assert!(a.steps().is_empty());
}

#[test]
fn link_keeps_order() {
    let chain: Chain = SequentialChain::new().link(mock("a", None)).link(mock("b", None)).link(mock("c", None));
    let names: Vec<String> = chain.steps().iter().map(|s| s.borrow().template.clone()).collect();
    assert_eq!(names, vec!["a", "b", "c"]);
}

#[test]
fn context_map_is_mutable_by_caller() {
    let mut chain: Chain = SequentialChain::new();
    chain.context().insert("k".to_string(), "v".to_string());
    assert_eq!(chain.context().get("k"), Some(&"v".to_string()));
    assert_eq!(chain.context().len(), 1);
}

#[test]
fn load_context_reaches_every_step_in_order() {
    let chain: Chain = SequentialChain::new().link(mock("a", None)).link(mock("b", None)).link(mock("c", None));
    let copies = chain.load_context(&hamlet());
    assert_eq!(copies.len(), 3);
    for c in &copies {
        assert_eq!(c, &hamlet());
    }
    load(&chain, &hamlet());
    for s in chain.steps() {
        assert_eq!(s.borrow().context, hamlet());
    }
}

#[test]
fn all_steps_succeed_returns_last_result() {
    let mut chain: Chain = SequentialChain::new()
        .link(mock("one", Some("first")))
        .link(mock("two", Some("second")))
        .link(mock("three", Some("third")));
    let r = drive(&mut chain, "review").ok().unwrap();
    assert_eq!(r.content(), "third");
    assert_eq!(r.name(), "step2");
    for s in chain.steps() {
        assert_eq!(s.borrow().runs, 1);
    }
}

#[test]
fn empty_chain_completes_with_empty_result() {
    let mut chain: Chain = SequentialChain::new();
    let r = drive(&mut chain, "review").ok().unwrap();
    assert_eq!(r.content(), "");
    assert_eq!(r.name(), chain.name());
}

#[test]
fn second_step_receives_first_output() {
    let mut chain: Chain = SequentialChain::new()
        .link(mock("one", Some("  out {{x}}  ")))
        .link(mock("two", Some("done")));
    drive(&mut chain, "review").ok().unwrap();
    assert_eq!(chain.steps()[0].borrow().template, "one");
    assert_eq!(chain.steps()[1].borrow().template, "two{{#user}}out {x}{{/user}}");
}

#[test]
fn empty_output_adds_no_fragment() {
    let mut chain: Chain = SequentialChain::new()
        .link(mock("one", Some("")))
        .link(mock("two", Some("done")));
    let r = drive(&mut chain, "review").ok().unwrap();
    assert_eq!(chain.steps()[1].borrow().template, "two");
    assert_eq!(r.content(), "done");
}

#[test]
fn failing_step_stops_the_run() {
    let mut chain: Chain = SequentialChain::new()
        .link(mock("one", Some("first")))
        .link(mock("two", None))
        .link(mock("three", Some("third")));
    assert_eq!(drive(&mut chain, "review").err(), Some(1));
    let runs: Vec<usize> = chain.steps().iter().map(|s| s.borrow().runs).collect();
    assert_eq!(runs, vec![1, 1, 0]);
}

#[test]
fn finished_run_ignores_further_events() {
    let mut run = Execution::start("n".to_string(), 1);
    run.advance(Event::Failed);
    assert!(run.is_finished());
    run.advance(Event::Succeeded(ChainResult::new("x".to_string())));
    assert!(matches!(run.action(), Action::Abort { step: 0 }));
}

#[test]
fn running_twice_gives_same_content() {
    let mut chain: Chain = SequentialChain::new()
        .link(mock("one", Some("first")))
        .link(mock("two", Some("second")));
    load(&chain, &hamlet());
    let a = drive(&mut chain, "review").ok().unwrap();
    let b = drive(&mut chain, "review").ok().unwrap();
    assert_eq!(a.content(), b.content());
    assert_eq!(a.content(), "second");
}

#[test]
fn hamlet_two_step_scenario() {
    let mut chain: Chain = SequentialChain::new()
        .link(mock("Summarize {{play}}", Some("A prince avenges his father.")))
        .link(mock("Critique: {{play}}", Some("A bold, bloody tragedy.")));
    load(&chain, &hamlet());
    let r = drive(&mut chain, "review").ok().unwrap();
    let second = chain.steps()[1].borrow();
    let rendered = render(&second.template, &second.context);
    assert!(rendered.contains("{{#user}}A prince avenges his father.{{/user}}"));
    assert!(rendered.starts_with("Critique: Hamlet"));
    assert_eq!(r.content(), "A bold, bloody tragedy.");
}

#[test]
fn result_with_content_keeps_name() {
    let r = ChainResult::new("n".to_string()).with_content("c".to_string());
    assert_eq!(r.name(), "n");
    assert_eq!(r.content(), "c");
    let d = r.duplicate();
    assert_eq!(d.content(), "c");
}

#[test]
fn user_fragment_trims_every_kind_of_whitespace() {
    assert_eq!(format_prompt_as_user("\x0Ca"), "{{#user}}a{{/user}}");
    assert_eq!(format_prompt_as_user("\x0Ba\x0C"), "{{#user}}a{{/user}}");
    assert_eq!(format_prompt_as_user("\u{a0}\u{3000}a b\u{2029}\u{85}"), "{{#user}}a b{{/user}}");
    let odd = "\u{1680}\u{2000}\u{200a}\u{2028}\u{202f}\u{205f} x ";
    assert_eq!(clean_prompt(odd, false), odd.trim());
    assert_eq!(clean_prompt("\u{200b}x", false), "\u{200b}x");
}

#[test]
fn field_text_of_each_kind() {
    assert_eq!(field_text(&ContextValue::Text("Hamlet".to_string())), Some("Hamlet".to_string()));
    assert_eq!(field_text(&ContextValue::Number("1.5".to_string())), Some("1.5".to_string()));
    assert_eq!(field_text(&ContextValue::Bool(true)), Some("true".to_string()));
    assert_eq!(field_text(&ContextValue::Bool(false)), Some("false".to_string()));
    assert_eq!(field_text(&ContextValue::Null), Some(String::new()));
    assert_eq!(field_text(&ContextValue::Nested), None);
}

#[test]
fn flatten_fields_keeps_order_and_refuses_nested() {
    let fields = vec![
        ("play".to_string(), ContextValue::Text("Hamlet".to_string())),
        ("acts".to_string(), ContextValue::Number("5".to_string())),
    ];
    assert_eq!(
        flatten_fields(&fields),
        Some(vec![
            ("play".to_string(), "Hamlet".to_string()),
            ("acts".to_string(), "5".to_string()),
        ])
    );
    let nested = vec![
        ("play".to_string(), ContextValue::Text("Hamlet".to_string())),
        ("cast".to_string(), ContextValue::Nested),
    ];
    assert_eq!(flatten_fields(&nested), None);
    assert_eq!(flatten_fields(&Vec::new()), Some(Vec::new()));
}
